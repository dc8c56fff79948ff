//! The transmissible protocol objects: requests, responses, credentials,
//! presentations and group parameters, for each credential kind.

use vstd::prelude::*;

use crate::credentials;
use crate::elgamal;
use crate::encoding::{attr_scalar, commitment_nonce, spec_attr_scalar, spec_commitment_nonce};
use crate::field::{fmul, Q, GEN_G};
use crate::issuance_proofs;
use crate::presentation_proofs;
use crate::request_proof;
use crate::sho::Sho;

verus! {

/// Caller-supplied entropy for one operation.
pub type RandomnessBytes = [u8; 32];

/// A user identifier's byte encoding.
pub type UidBytes = [u8; 16];

/// A profile key's byte encoding.
pub type ProfileKeyBytes = [u8; 32];

/// A receipt serial's byte encoding.
pub type ReceiptSerialBytes = [u8; 16];

/// A redemption day number.
pub type RedemptionTime = u32;

/// A receipt expiration timestamp.
pub type ReceiptExpirationTime = u64;

/// A receipt level.
pub type ReceiptLevel = u64;

/// Reserved leading byte of every transmissible structure.
pub type ReservedBytes = [u8; 1];

/// Version tag of first-version presentations.
pub const PRESENTATION_VERSION_1: u8 = 1;

/// Version tag of second-version presentations.
pub const PRESENTATION_VERSION_2: u8 = 2;

/// Version tag of the third-family profile key presentations.
pub const PROFILE_KEY_CREDENTIAL_VERSION_3: u8 = 3;

/// Domain label for deriving group parameters.
pub const LABEL_GROUP_PARAMS_GENERATE: u64 = 0x0301;

/// A group's secret encryption parameters, shared among its members.
pub struct GroupSecretParams {
    pub reserved: ReservedBytes,
    pub uid_enc_key_pair: elgamal::EncryptionKeyPair,
    pub profile_key_enc_key_pair: elgamal::EncryptionKeyPair,
}

/// A group's public encryption keys, known to the verifier.
#[derive(Clone, Copy, PartialEq, Eq, Debug)]
pub struct GroupPublicParams {
    pub reserved: ReservedBytes,
    pub uid_enc_public_key: u64,
    pub profile_key_enc_public_key: u64,
}

/// Well-formedness of group secret parameters.
pub open spec fn group_secret_params_wf(g: GroupSecretParams) -> bool {
    &&& elgamal::keypair_wf(g.uid_enc_key_pair)
    &&& elgamal::keypair_wf(g.profile_key_enc_key_pair)
}

/// Well-formedness of group public parameters.
pub open spec fn group_public_params_wf(g: GroupPublicParams) -> bool {
    &&& g.uid_enc_public_key < Q
    &&& g.profile_key_enc_public_key < Q
}

impl GroupSecretParams {
    /// Derive group parameters from caller randomness: both encryption
    /// key pairs come, in order, from the stream seeded by it.
    pub fn generate(randomness: RandomnessBytes) -> (r: GroupSecretParams)
        ensures
            group_secret_params_wf(r),
            r.reserved == [0u8],
            r.uid_enc_key_pair == elgamal::spec_keypair_generate(
                crate::sho::spec_sho_init(LABEL_GROUP_PARAMS_GENERATE, randomness@),
            ),
            r.profile_key_enc_key_pair == elgamal::spec_keypair_generate(
                crate::sho::spec_sho_state_after(
                    crate::sho::spec_sho_init(LABEL_GROUP_PARAMS_GENERATE, randomness@),
                    1,
                ),
            ),
    {
        let mut sho = Sho::new(LABEL_GROUP_PARAMS_GENERATE, &randomness);
        proof {
            crate::sho::lemma_sho_state_unroll(sho.state);
        }
        let uid_enc_key_pair = elgamal::EncryptionKeyPair::generate(&mut sho);
        let profile_key_enc_key_pair = elgamal::EncryptionKeyPair::generate(&mut sho);
        GroupSecretParams { reserved: [0], uid_enc_key_pair, profile_key_enc_key_pair }
    }

    /// The public half, handed to verifiers.
    pub fn get_public_params(&self) -> (r: GroupPublicParams)
        requires
            group_secret_params_wf(*self),
        ensures
            group_public_params_wf(r),
            r.reserved == [0u8],
            r.uid_enc_public_key == self.uid_enc_key_pair.public,
            r.profile_key_enc_public_key == self.profile_key_enc_key_pair.public,
    {
        GroupPublicParams {
            reserved: [0],
            uid_enc_public_key: self.uid_enc_key_pair.public,
            profile_key_enc_public_key: self.profile_key_enc_key_pair.public,
        }
    }
}

/// An encrypted user identifier under a group's key.
#[derive(Clone, Copy, PartialEq, Eq, Debug)]
pub struct UuidCiphertext {
    pub reserved: ReservedBytes,
    pub ciphertext: elgamal::Ciphertext,
}

/// An encrypted profile key under a group's key.
#[derive(Clone, Copy, PartialEq, Eq, Debug)]
pub struct ProfileKeyCiphertext {
    pub reserved: ReservedBytes,
    pub ciphertext: elgamal::Ciphertext,
}

/// A profile key as the holder knows it.
#[derive(Clone, Copy, PartialEq, Eq, Debug)]
pub struct ProfileKey {
    pub bytes: ProfileKeyBytes,
}

/// The public commitment a profile key owner publishes.
#[derive(Clone, Copy, PartialEq, Eq, Debug)]
pub struct ProfileKeyCommitment {
    pub reserved: ReservedBytes,
    pub commitment: u64,
}

impl ProfileKey {
    /// Create a profile key from its bytes.
    pub fn create(bytes: ProfileKeyBytes) -> (r: ProfileKey)
        ensures
            r.bytes == bytes,
    {
        ProfileKey { bytes }
    }

    /// The deterministic public commitment bound to a user identifier.
    pub fn get_commitment(&self, uid_bytes: UidBytes) -> (r: ProfileKeyCommitment)
        ensures
            r.reserved == [0u8],
            r.commitment == request_proof::commitment_point(
                spec_attr_scalar(self.bytes@),
                spec_commitment_nonce(self.bytes@, uid_bytes@),
            ),
    {
        let m = attr_scalar(self.bytes.as_slice());
        let j = commitment_nonce(self.bytes.as_slice(), uid_bytes.as_slice());
        let c = request_proof::CommitmentWithSecretNonce::new(m, j);
        ProfileKeyCommitment { reserved: [0], commitment: c.j_point }
    }
}

// ---------------------------------------------------------------------
// Auth credentials.
// ---------------------------------------------------------------------

/// Issuer's response to an auth credential request.
pub struct AuthCredentialResponse {
    pub reserved: ReservedBytes,
    pub credential: credentials::Credential,
    pub proof: issuance_proofs::AuthCredentialIssuanceProof,
}

/// A received, verified auth credential.
pub struct AuthCredential {
    pub reserved: ReservedBytes,
    pub credential: credentials::Credential,
    pub uid_bytes: UidBytes,
    pub redemption_time: RedemptionTime,
}

/// A usable auth credential is reduced and non-degenerate.
pub open spec fn auth_credential_wf(c: AuthCredential) -> bool {
    &&& c.credential.u_point < Q
    &&& c.credential.v_point < Q
    &&& c.credential.u_point != 0
}

/// First-version auth presentation.
pub struct AuthCredentialPresentationV1 {
    pub reserved: ReservedBytes,
    pub proof: presentation_proofs::AuthCredentialPresentationProof,
    pub ciphertext: elgamal::Ciphertext,
    pub redemption_time: RedemptionTime,
}

/// Second-version auth presentation.
pub struct AuthCredentialPresentationV2 {
    pub version: ReservedBytes,
    pub proof: presentation_proofs::AuthCredentialPresentationProof,
    pub ciphertext: elgamal::Ciphertext,
    pub redemption_time: RedemptionTime,
}

/// The closed set of auth presentation versions a verifier dispatches
/// over.
pub enum AnyAuthCredentialPresentation {
    V1(AuthCredentialPresentationV1),
    V2(AuthCredentialPresentationV2),
}

// ---------------------------------------------------------------------
// Profile key credentials.
// ---------------------------------------------------------------------

/// A blind issuance request: one-time key, ciphertext and request proof.
pub struct ProfileKeyCredentialRequest {
    pub reserved: ReservedBytes,
    pub public_key: u64,
    pub ciphertext: elgamal::Ciphertext,
    pub proof: request_proof::ProfileKeyCredentialRequestProof,
}

/// The holder-retained context of a profile key issuance attempt.
pub struct ProfileKeyCredentialRequestContext {
    pub reserved: ReservedBytes,
    pub uid_bytes: UidBytes,
    pub profile_key_bytes: ProfileKeyBytes,
    pub key_pair: elgamal::EncryptionKeyPair,
    pub ciphertext_with_secret_nonce: elgamal::CiphertextWithSecretNonce,
    pub proof: request_proof::ProfileKeyCredentialRequestProof,
}

/// The context was built honestly over its own bytes.
pub open spec fn pk_request_context_wf(c: ProfileKeyCredentialRequestContext) -> bool {
    &&& elgamal::keypair_wf(c.key_pair)
    &&& c.ciphertext_with_secret_nonce.r < Q
    &&& c.ciphertext_with_secret_nonce.e1 == elgamal::spec_encrypt(
        c.key_pair.public,
        fmul(spec_attr_scalar(c.profile_key_bytes@), GEN_G),
        c.ciphertext_with_secret_nonce.r,
    ).e1
    &&& c.ciphertext_with_secret_nonce.e2 == elgamal::spec_encrypt(
        c.key_pair.public,
        fmul(spec_attr_scalar(c.profile_key_bytes@), GEN_G),
        c.ciphertext_with_secret_nonce.r,
    ).e2
    &&& request_proof::spec_request_verifies(
        c.key_pair.public,
        c.ciphertext_with_secret_nonce.e1,
        c.ciphertext_with_secret_nonce.e2,
        request_proof::commitment_point(
            spec_attr_scalar(c.profile_key_bytes@),
            spec_commitment_nonce(c.profile_key_bytes@, c.uid_bytes@),
        ),
        c.proof.pok.challenge,
        c.proof.pok.responses@,
    )
}

impl ProfileKeyCredentialRequestContext {
    /// The transmissible request.
    pub fn get_request(&self) -> (r: ProfileKeyCredentialRequest)
        ensures
            r.public_key == self.key_pair.public,
            r.ciphertext.e1 == self.ciphertext_with_secret_nonce.e1,
            r.ciphertext.e2 == self.ciphertext_with_secret_nonce.e2,
            r.proof.pok.challenge == self.proof.pok.challenge,
            r.proof.pok.responses@ == self.proof.pok.responses@,
    {
        ProfileKeyCredentialRequest {
            reserved: [0],
            public_key: self.key_pair.public,
            ciphertext: self.ciphertext_with_secret_nonce.get_ciphertext(),
            proof: request_proof::ProfileKeyCredentialRequestProof {
                pok: self.proof.pok.duplicate(),
            },
        }
    }
}

/// Issuer's blinded response for a profile key credential.
pub struct ProfileKeyCredentialResponse {
    pub reserved: ReservedBytes,
    pub blinded_credential: credentials::BlindedCredential,
    pub proof: issuance_proofs::ProfileKeyCredentialIssuanceProof,
}

/// A received, unblinded profile key credential.
pub struct ProfileKeyCredential {
    pub reserved: ReservedBytes,
    pub credential: credentials::Credential,
    pub uid_bytes: UidBytes,
    pub profile_key_bytes: ProfileKeyBytes,
}

/// A usable profile key credential is reduced and non-degenerate.
pub open spec fn profile_key_credential_wf(c: ProfileKeyCredential) -> bool {
    &&& c.credential.u_point < Q
    &&& c.credential.v_point < Q
    &&& c.credential.u_point != 0
}

/// First-version profile key presentation.
pub struct ProfileKeyCredentialPresentationV1 {
    pub reserved: ReservedBytes,
    pub proof: presentation_proofs::ProfileKeyCredentialPresentationProof,
    pub uid_enc_ciphertext: elgamal::Ciphertext,
    pub profile_key_enc_ciphertext: elgamal::Ciphertext,
}

/// Second-version profile key presentation.
pub struct ProfileKeyCredentialPresentationV2 {
    pub version: ReservedBytes,
    pub proof: presentation_proofs::ProfileKeyCredentialPresentationProof,
    pub uid_enc_ciphertext: elgamal::Ciphertext,
    pub profile_key_enc_ciphertext: elgamal::Ciphertext,
}

/// The closed set of profile key presentation versions.
pub enum AnyProfileKeyCredentialPresentation {
    V1(ProfileKeyCredentialPresentationV1),
    V2(ProfileKeyCredentialPresentationV2),
}

// ---------------------------------------------------------------------
// Profile key credentials, third key family.
// ---------------------------------------------------------------------

/// The holder-retained context of a third-family issuance attempt.
pub struct ProfileKeyCredentialV3RequestContext {
    pub reserved: ReservedBytes,
    pub uid_bytes: UidBytes,
    pub profile_key_bytes: ProfileKeyBytes,
    pub key_pair: elgamal::EncryptionKeyPair,
    pub ciphertext_with_secret_nonce: elgamal::CiphertextWithSecretNonce,
    pub proof: request_proof::ProfileKeyCredentialRequestProof,
}

/// The context was built honestly over its own bytes.
pub open spec fn pkv3_request_context_wf(c: ProfileKeyCredentialV3RequestContext) -> bool {
    &&& elgamal::keypair_wf(c.key_pair)
    &&& c.ciphertext_with_secret_nonce.r < Q
    &&& c.ciphertext_with_secret_nonce.e1 == elgamal::spec_encrypt(
        c.key_pair.public,
        fmul(spec_attr_scalar(c.profile_key_bytes@), GEN_G),
        c.ciphertext_with_secret_nonce.r,
    ).e1
    &&& c.ciphertext_with_secret_nonce.e2 == elgamal::spec_encrypt(
        c.key_pair.public,
        fmul(spec_attr_scalar(c.profile_key_bytes@), GEN_G),
        c.ciphertext_with_secret_nonce.r,
    ).e2
    &&& request_proof::spec_request_verifies(
        c.key_pair.public,
        c.ciphertext_with_secret_nonce.e1,
        c.ciphertext_with_secret_nonce.e2,
        request_proof::commitment_point(
            spec_attr_scalar(c.profile_key_bytes@),
            spec_commitment_nonce(c.profile_key_bytes@, c.uid_bytes@),
        ),
        c.proof.pok.challenge,
        c.proof.pok.responses@,
    )
}

impl ProfileKeyCredentialV3RequestContext {
    /// The transmissible request.
    pub fn get_request(&self) -> (r: ProfileKeyCredentialRequest)
        ensures
            r.public_key == self.key_pair.public,
            r.ciphertext.e1 == self.ciphertext_with_secret_nonce.e1,
            r.ciphertext.e2 == self.ciphertext_with_secret_nonce.e2,
            r.proof.pok.challenge == self.proof.pok.challenge,
            r.proof.pok.responses@ == self.proof.pok.responses@,
    {
        ProfileKeyCredentialRequest {
            reserved: [0],
            public_key: self.key_pair.public,
            ciphertext: self.ciphertext_with_secret_nonce.get_ciphertext(),
            proof: request_proof::ProfileKeyCredentialRequestProof {
                pok: self.proof.pok.duplicate(),
            },
        }
    }
}

/// Issuer's blinded response, third key family.
pub struct ProfileKeyCredentialV3Response {
    pub reserved: ReservedBytes,
    pub blinded_credential: credentials::BlindedCredential,
    pub proof: issuance_proofs::ProfileKeyCredentialV3IssuanceProof,
}

/// A received, unblinded credential of the third key family.
pub struct ProfileKeyCredentialV3 {
    pub reserved: ReservedBytes,
    pub credential: credentials::Credential,
    pub uid_bytes: UidBytes,
    pub profile_key_bytes: ProfileKeyBytes,
}

/// A usable third-family credential is reduced and non-degenerate.
pub open spec fn profile_key_credential_v3_wf(c: ProfileKeyCredentialV3) -> bool {
    &&& c.credential.u_point < Q
    &&& c.credential.v_point < Q
    &&& c.credential.u_point != 0
}

/// Third-family profile key presentation.
pub struct ProfileKeyCredentialV3Presentation {
    pub version: ReservedBytes,
    pub proof: presentation_proofs::ProfileKeyCredentialPresentationProof,
    pub uid_enc_ciphertext: elgamal::Ciphertext,
    pub profile_key_enc_ciphertext: elgamal::Ciphertext,
}

impl ProfileKeyCredentialV3Presentation {
    /// The encrypted user identifier carried by this presentation.
    pub fn get_uuid_ciphertext(&self) -> (r: UuidCiphertext)
        ensures
            r.reserved == [0u8],
            r.ciphertext == self.uid_enc_ciphertext,
    {
        UuidCiphertext { reserved: [0], ciphertext: self.uid_enc_ciphertext }
    }

    /// The encrypted profile key carried by this presentation.
    pub fn get_profile_key_ciphertext(&self) -> (r: ProfileKeyCiphertext)
        ensures
            r.reserved == [0u8],
            r.ciphertext == self.profile_key_enc_ciphertext,
    {
        ProfileKeyCiphertext { reserved: [0], ciphertext: self.profile_key_enc_ciphertext }
    }
}

// ---------------------------------------------------------------------
// PNI credentials.
// ---------------------------------------------------------------------

/// The holder-retained context of a PNI issuance attempt; it reuses the
/// profile key request construction and adds the PNI bytes.
pub struct PniCredentialRequestContext {
    pub reserved: ReservedBytes,
    pub aci_bytes: UidBytes,
    pub pni_bytes: UidBytes,
    pub profile_key_bytes: ProfileKeyBytes,
    pub key_pair: elgamal::EncryptionKeyPair,
    pub ciphertext_with_secret_nonce: elgamal::CiphertextWithSecretNonce,
    pub proof: request_proof::ProfileKeyCredentialRequestProof,
}

/// The context was built honestly over its own bytes.
pub open spec fn pni_request_context_wf(c: PniCredentialRequestContext) -> bool {
    &&& elgamal::keypair_wf(c.key_pair)
    &&& c.ciphertext_with_secret_nonce.r < Q
    &&& c.ciphertext_with_secret_nonce.e1 == elgamal::spec_encrypt(
        c.key_pair.public,
        fmul(spec_attr_scalar(c.profile_key_bytes@), GEN_G),
        c.ciphertext_with_secret_nonce.r,
    ).e1
    &&& c.ciphertext_with_secret_nonce.e2 == elgamal::spec_encrypt(
        c.key_pair.public,
        fmul(spec_attr_scalar(c.profile_key_bytes@), GEN_G),
        c.ciphertext_with_secret_nonce.r,
    ).e2
    &&& request_proof::spec_request_verifies(
        c.key_pair.public,
        c.ciphertext_with_secret_nonce.e1,
        c.ciphertext_with_secret_nonce.e2,
        request_proof::commitment_point(
            spec_attr_scalar(c.profile_key_bytes@),
            spec_commitment_nonce(c.profile_key_bytes@, c.aci_bytes@),
        ),
        c.proof.pok.challenge,
        c.proof.pok.responses@,
    )
}

impl PniCredentialRequestContext {
    /// The transmissible request.
    pub fn get_request(&self) -> (r: ProfileKeyCredentialRequest)
        ensures
            r.public_key == self.key_pair.public,
            r.ciphertext.e1 == self.ciphertext_with_secret_nonce.e1,
            r.ciphertext.e2 == self.ciphertext_with_secret_nonce.e2,
            r.proof.pok.challenge == self.proof.pok.challenge,
            r.proof.pok.responses@ == self.proof.pok.responses@,
    {
        ProfileKeyCredentialRequest {
            reserved: [0],
            public_key: self.key_pair.public,
            ciphertext: self.ciphertext_with_secret_nonce.get_ciphertext(),
            proof: request_proof::ProfileKeyCredentialRequestProof {
                pok: self.proof.pok.duplicate(),
            },
        }
    }
}

/// Issuer's blinded response for a PNI credential.
pub struct PniCredentialResponse {
    pub reserved: ReservedBytes,
    pub blinded_credential: credentials::BlindedCredential,
    pub proof: issuance_proofs::PniCredentialIssuanceProof,
}

/// A received, unblinded PNI credential.
pub struct PniCredential {
    pub reserved: ReservedBytes,
    pub credential: credentials::Credential,
    pub aci_bytes: UidBytes,
    pub pni_bytes: UidBytes,
    pub profile_key_bytes: ProfileKeyBytes,
}

/// A usable PNI credential is reduced and non-degenerate.
pub open spec fn pni_credential_wf(c: PniCredential) -> bool {
    &&& c.credential.u_point < Q
    &&& c.credential.v_point < Q
    &&& c.credential.u_point != 0
}

/// First-version PNI presentation.
pub struct PniCredentialPresentationV1 {
    pub reserved: ReservedBytes,
    pub proof: presentation_proofs::PniCredentialPresentationProof,
    pub aci_enc_ciphertext: elgamal::Ciphertext,
    pub pni_enc_ciphertext: elgamal::Ciphertext,
    pub profile_key_enc_ciphertext: elgamal::Ciphertext,
}

/// Second-version PNI presentation.
pub struct PniCredentialPresentationV2 {
    pub version: ReservedBytes,
    pub proof: presentation_proofs::PniCredentialPresentationProof,
    pub aci_enc_ciphertext: elgamal::Ciphertext,
    pub pni_enc_ciphertext: elgamal::Ciphertext,
    pub profile_key_enc_ciphertext: elgamal::Ciphertext,
}

/// The closed set of PNI presentation versions.
pub enum AnyPniCredentialPresentation {
    V1(PniCredentialPresentationV1),
    V2(PniCredentialPresentationV2),
}

// ---------------------------------------------------------------------
// Receipt credentials.
// ---------------------------------------------------------------------

/// A receipt issuance request: one-time key and ciphertext of the
/// serial.
pub struct ReceiptCredentialRequest {
    pub reserved: ReservedBytes,
    pub public_key: u64,
    pub ciphertext: elgamal::Ciphertext,
}

/// The holder-retained context of a receipt issuance attempt.
pub struct ReceiptCredentialRequestContext {
    pub reserved: ReservedBytes,
    pub receipt_serial_bytes: ReceiptSerialBytes,
    pub key_pair: elgamal::EncryptionKeyPair,
    pub ciphertext_with_secret_nonce: elgamal::CiphertextWithSecretNonce,
}

/// The context was built honestly over its own serial.
pub open spec fn receipt_request_context_wf(c: ReceiptCredentialRequestContext) -> bool {
    &&& elgamal::keypair_wf(c.key_pair)
    &&& c.ciphertext_with_secret_nonce.r < Q
    &&& c.ciphertext_with_secret_nonce.e1 == elgamal::spec_encrypt(
        c.key_pair.public,
        fmul(spec_attr_scalar(c.receipt_serial_bytes@), GEN_G),
        c.ciphertext_with_secret_nonce.r,
    ).e1
    &&& c.ciphertext_with_secret_nonce.e2 == elgamal::spec_encrypt(
        c.key_pair.public,
        fmul(spec_attr_scalar(c.receipt_serial_bytes@), GEN_G),
        c.ciphertext_with_secret_nonce.r,
    ).e2
}

impl ReceiptCredentialRequestContext {
    /// The transmissible request.
    pub fn get_request(&self) -> (r: ReceiptCredentialRequest)
        ensures
            r.public_key == self.key_pair.public,
            r.ciphertext.e1 == self.ciphertext_with_secret_nonce.e1,
            r.ciphertext.e2 == self.ciphertext_with_secret_nonce.e2,
    {
        ReceiptCredentialRequest {
            reserved: [0],
            public_key: self.key_pair.public,
            ciphertext: self.ciphertext_with_secret_nonce.get_ciphertext(),
        }
    }
}

/// Issuer's blinded response for a receipt credential.
pub struct ReceiptCredentialResponse {
    pub reserved: ReservedBytes,
    pub receipt_expiration_time: ReceiptExpirationTime,
    pub receipt_level: ReceiptLevel,
    pub blinded_credential: credentials::BlindedCredential,
    pub proof: issuance_proofs::ReceiptCredentialIssuanceProof,
}

/// A received, unblinded receipt credential.
pub struct ReceiptCredential {
    pub reserved: ReservedBytes,
    pub credential: credentials::Credential,
    pub receipt_expiration_time: ReceiptExpirationTime,
    pub receipt_level: ReceiptLevel,
    pub receipt_serial_bytes: ReceiptSerialBytes,
}

/// A usable receipt credential is reduced and non-degenerate.
pub open spec fn receipt_credential_wf(c: ReceiptCredential) -> bool {
    &&& c.credential.u_point < Q
    &&& c.credential.v_point < Q
    &&& c.credential.u_point != 0
}

/// A receipt presentation disclosing serial, expiration and level.
pub struct ReceiptCredentialPresentation {
    pub reserved: ReservedBytes,
    pub proof: presentation_proofs::ReceiptCredentialPresentationProof,
    pub receipt_expiration_time: ReceiptExpirationTime,
    pub receipt_level: ReceiptLevel,
    pub receipt_serial_bytes: ReceiptSerialBytes,
}

} // verus!
