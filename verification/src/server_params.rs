//! Issuer-side and holder-side orchestration.
//!
//! [`ServerSecretParams`] holds one independent issuer key pair per
//! credential kind plus a signing key pair; [`ServerPublicParams`] is its
//! published half. Between them they compose the primitives into the
//! issue / receive / present / verify flows for the five credential
//! kinds. Every operation derives its randomness from a caller-supplied
//! seed under an operation-specific label, never from ambient state.

use vstd::prelude::*;

use crate::api::{
    auth_credential_wf, group_public_params_wf, group_secret_params_wf, pk_request_context_wf,
    pkv3_request_context_wf, pni_credential_wf, pni_request_context_wf,
    profile_key_credential_v3_wf, profile_key_credential_wf, receipt_credential_wf,
    receipt_request_context_wf, AnyAuthCredentialPresentation, AnyPniCredentialPresentation,
    AnyProfileKeyCredentialPresentation, AuthCredential, AuthCredentialPresentationV1,
    AuthCredentialPresentationV2, AuthCredentialResponse, GroupPublicParams, GroupSecretParams,
    PniCredential, PniCredentialPresentationV1, PniCredentialPresentationV2,
    PniCredentialRequestContext, PniCredentialResponse, ProfileKey, ProfileKeyCommitment,
    ProfileKeyCredential, ProfileKeyCredentialPresentationV1, ProfileKeyCredentialPresentationV2,
    ProfileKeyCredentialRequest, ProfileKeyCredentialRequestContext,
    ProfileKeyCredentialResponse, ProfileKeyCredentialV3, ProfileKeyCredentialV3Presentation,
    ProfileKeyCredentialV3RequestContext, ProfileKeyCredentialV3Response, RandomnessBytes,
    ReceiptCredential, ReceiptCredentialPresentation, ReceiptCredentialRequest,
    ReceiptCredentialRequestContext, ReceiptCredentialResponse, ReceiptExpirationTime,
    ReceiptLevel, ReceiptSerialBytes, RedemptionTime, ReservedBytes, UidBytes,
    PRESENTATION_VERSION_1, PRESENTATION_VERSION_2, PROFILE_KEY_CREDENTIAL_VERSION_3,
};
use crate::credentials::{
    credential_valid, decrypt_blinded_credential, keypair_wf, spec_create_blinded_credential,
    spec_create_credential, spec_credential_keypair_generate, Credential, CredentialKeyPair,
    CredentialPublicKey,
};
use crate::elgamal;
use crate::encoding::{attr_scalar, spec_attr_scalar};
use crate::errors::ZkGroupVerificationFailure;
use crate::field::{fmul, sc_mul, sc_reduce, Q, GEN_G};
use crate::issuance_proofs::{
    blinded_issuance_publics, blinded_issuance_rows, plain_issuance_publics,
    plain_issuance_rows, public_key_reduced, spec_blinded_issuance_verifies,
    spec_plain_issuance_verifies,
    AuthCredentialIssuanceProof, PniCredentialIssuanceProof, ProfileKeyCredentialIssuanceProof,
    ProfileKeyCredentialV3IssuanceProof, ReceiptCredentialIssuanceProof, LABEL_ISSUANCE_AUTH,
    LABEL_ISSUANCE_PNI, LABEL_ISSUANCE_PROFILE_KEY, LABEL_ISSUANCE_PROFILE_KEY_V3,
    LABEL_ISSUANCE_RECEIPT,
};
use crate::presentation_proofs::{
    spec_pres0_accepts, spec_pres1_accepts, spec_pres2_accepts, spec_pres3_accepts,
    AuthCredentialPresentationProof, PniCredentialPresentationProof,
    ProfileKeyCredentialPresentationProof, ReceiptCredentialPresentationProof,
    LABEL_PRESENTATION_AUTH_V1, LABEL_PRESENTATION_AUTH_V2, LABEL_PRESENTATION_PNI_V1,
    LABEL_PRESENTATION_PNI_V2, LABEL_PRESENTATION_PROFILE_KEY_V1,
    LABEL_PRESENTATION_PROFILE_KEY_V2, LABEL_PRESENTATION_PROFILE_KEY_V3,
    LABEL_PRESENTATION_RECEIPT,
};
use crate::request_proof::{
    commitment_point, request_publics, request_rows, spec_request_verifies,
    CommitmentWithSecretNonce, ProfileKeyCredentialRequestProof,
};
use crate::encoding::spec_commitment_nonce;
use crate::sho::{
    spec_sho_init, spec_sho_nonzero_scalar, spec_sho_scalar, spec_sho_state_after, Sho,
};
use crate::sigma::spec_prove;
use crate::signature::{
    sig_keypair_wf, spec_sig_keypair_generate, spec_sig_verifies, spec_sign,
    verify_notary_signature, NotarySignature, SignatureKeyPair,
};

verus! {

/// Domain labels, one per randomness-consuming operation.
pub const LABEL_SERVER_SECRET_PARAMS_GENERATE: u64 = 0x0311;

/// Label of the signing operation.
pub const LABEL_SERVER_SIGN: u64 = 0x0312;

/// Label of auth issuance.
pub const LABEL_ISSUE_AUTH_CREDENTIAL: u64 = 0x0313;

/// Label of profile key issuance.
pub const LABEL_ISSUE_PROFILE_KEY_CREDENTIAL: u64 = 0x0314;

/// Label of third-family profile key issuance.
pub const LABEL_ISSUE_PROFILE_KEY_CREDENTIAL_V3: u64 = 0x0315;

/// Label of PNI issuance.
pub const LABEL_ISSUE_PNI_CREDENTIAL: u64 = 0x0316;

/// Label of receipt issuance.
pub const LABEL_ISSUE_RECEIPT_CREDENTIAL: u64 = 0x0317;

/// Label of auth presentation creation, first version.
pub const LABEL_CREATE_AUTH_PRESENTATION_V1: u64 = 0x0318;

/// Label of auth presentation creation, second version.
pub const LABEL_CREATE_AUTH_PRESENTATION_V2: u64 = 0x0319;

/// Label of profile key request context creation.
pub const LABEL_CREATE_PROFILE_KEY_REQUEST_CONTEXT: u64 = 0x031A;

/// Label of third-family request context creation.
pub const LABEL_CREATE_PROFILE_KEY_V3_REQUEST_CONTEXT: u64 = 0x031B;

/// Label of profile key presentation creation, first version.
pub const LABEL_CREATE_PROFILE_KEY_PRESENTATION_V1: u64 = 0x031C;

/// Label of profile key presentation creation, second version.
pub const LABEL_CREATE_PROFILE_KEY_PRESENTATION_V2: u64 = 0x031D;

/// Label of third-family presentation creation.
pub const LABEL_CREATE_PROFILE_KEY_PRESENTATION_V3: u64 = 0x031E;

/// Label of PNI presentation creation, first version.
pub const LABEL_CREATE_PNI_PRESENTATION_V1: u64 = 0x031F;

/// Label of PNI presentation creation, second version.
pub const LABEL_CREATE_PNI_PRESENTATION_V2: u64 = 0x0320;

/// Label of receipt request context creation.
pub const LABEL_CREATE_RECEIPT_REQUEST_CONTEXT: u64 = 0x0321;

/// Label of receipt presentation creation.
pub const LABEL_CREATE_RECEIPT_PRESENTATION: u64 = 0x0322;

/// A time or level value reduced into the field.
pub open spec fn time_attr(v: u64) -> u64 {
    ((v as int) % (Q as int)) as u64
}

/// The stream state an operation starts from: its label seeded with the
/// caller's randomness.
pub open spec fn operation_stream(label: u64, randomness: RandomnessBytes) -> u64 {
    spec_sho_init(label, randomness@)
}

/// The issuer's full secret state: one key pair per credential kind and
/// a signing key pair. Immutable after generation.
pub struct ServerSecretParams {
    pub reserved: ReservedBytes,
    pub auth_credentials_key_pair: CredentialKeyPair,
    pub profile_key_credentials_key_pair: CredentialKeyPair,
    pub sig_key_pair: SignatureKeyPair,
    pub receipt_credentials_key_pair: CredentialKeyPair,
    pub pni_credentials_key_pair: CredentialKeyPair,
    pub profile_key_credentials_v3_key_pair: CredentialKeyPair,
}

/// The published half of the issuer's state.
pub struct ServerPublicParams {
    pub reserved: ReservedBytes,
    pub auth_credentials_public_key: CredentialPublicKey,
    pub profile_key_credentials_public_key: CredentialPublicKey,
    pub sig_public_key: u64,
    pub receipt_credentials_public_key: CredentialPublicKey,
    pub pni_credentials_public_key: CredentialPublicKey,
    pub profile_key_credentials_v3_public_key: CredentialPublicKey,
}

/// Every key pair of the secret parameters is internally consistent.
pub open spec fn server_secret_params_wf(p: ServerSecretParams) -> bool {
    &&& keypair_wf(p.auth_credentials_key_pair)
    &&& keypair_wf(p.profile_key_credentials_key_pair)
    &&& sig_keypair_wf(p.sig_key_pair)
    &&& keypair_wf(p.receipt_credentials_key_pair)
    &&& keypair_wf(p.pni_credentials_key_pair)
    &&& keypair_wf(p.profile_key_credentials_v3_key_pair)
}

/// Every published key of the public parameters is reduced.
pub open spec fn server_public_params_wf(p: ServerPublicParams) -> bool {
    &&& public_key_reduced(p.auth_credentials_public_key)
    &&& public_key_reduced(p.profile_key_credentials_public_key)
    &&& p.sig_public_key < Q
    &&& public_key_reduced(p.receipt_credentials_public_key)
    &&& public_key_reduced(p.pni_credentials_public_key)
    &&& public_key_reduced(p.profile_key_credentials_v3_public_key)
}

/// The public parameters derive from the secret ones.
pub open spec fn params_match(s: ServerSecretParams, p: ServerPublicParams) -> bool {
    &&& p.auth_credentials_public_key == s.auth_credentials_key_pair.public_key
    &&& p.profile_key_credentials_public_key == s.profile_key_credentials_key_pair.public_key
    &&& p.sig_public_key == s.sig_key_pair.public
    &&& p.receipt_credentials_public_key == s.receipt_credentials_key_pair.public_key
    &&& p.pni_credentials_public_key == s.pni_credentials_key_pair.public_key
    &&& p.profile_key_credentials_v3_public_key
        == s.profile_key_credentials_v3_key_pair.public_key
}

impl ServerSecretParams {
    /// Derive the full issuer state from caller randomness: the six key
    /// pairs are drawn, in a fixed order, from the single stream seeded
    /// by it, so equal randomness reproduces the identical state.
    #[verifier::spinoff_prover]
    pub fn generate(randomness: RandomnessBytes) -> (r: ServerSecretParams)
        ensures
            server_secret_params_wf(r),
            r.reserved == [0u8],
            r.auth_credentials_key_pair == spec_credential_keypair_generate(
                operation_stream(LABEL_SERVER_SECRET_PARAMS_GENERATE, randomness),
            ),
            r.profile_key_credentials_key_pair == spec_credential_keypair_generate(
                spec_sho_state_after(
                    operation_stream(LABEL_SERVER_SECRET_PARAMS_GENERATE, randomness),
                    4,
                ),
            ),
            r.sig_key_pair == spec_sig_keypair_generate(
                spec_sho_state_after(
                    operation_stream(LABEL_SERVER_SECRET_PARAMS_GENERATE, randomness),
                    8,
                ),
            ),
            r.receipt_credentials_key_pair == spec_credential_keypair_generate(
                spec_sho_state_after(
                    operation_stream(LABEL_SERVER_SECRET_PARAMS_GENERATE, randomness),
                    9,
                ),
            ),
            r.pni_credentials_key_pair == spec_credential_keypair_generate(
                spec_sho_state_after(
                    operation_stream(LABEL_SERVER_SECRET_PARAMS_GENERATE, randomness),
                    13,
                ),
            ),
            r.profile_key_credentials_v3_key_pair == spec_credential_keypair_generate(
                spec_sho_state_after(
                    operation_stream(LABEL_SERVER_SECRET_PARAMS_GENERATE, randomness),
                    17,
                ),
            ),
    {
        let mut sho = Sho::new(LABEL_SERVER_SECRET_PARAMS_GENERATE, &randomness);
        proof {
            let s0 = sho.state;
            crate::sho::lemma_sho_state_compose(s0, 4, 4);
            crate::sho::lemma_sho_state_compose(s0, 8, 1);
            crate::sho::lemma_sho_state_compose(s0, 9, 4);
            crate::sho::lemma_sho_state_compose(s0, 13, 4);
        }
        let auth_credentials_key_pair = CredentialKeyPair::generate(&mut sho);
        let profile_key_credentials_key_pair = CredentialKeyPair::generate(&mut sho);
        let sig_key_pair = SignatureKeyPair::generate(&mut sho);
        let receipt_credentials_key_pair = CredentialKeyPair::generate(&mut sho);
        let pni_credentials_key_pair = CredentialKeyPair::generate(&mut sho);
        let profile_key_credentials_v3_key_pair = CredentialKeyPair::generate(&mut sho);
        ServerSecretParams {
            reserved: [0],
            auth_credentials_key_pair,
            profile_key_credentials_key_pair,
            sig_key_pair,
            receipt_credentials_key_pair,
            pni_credentials_key_pair,
            profile_key_credentials_v3_key_pair,
        }
    }

    /// The published half.
    pub fn get_public_params(&self) -> (r: ServerPublicParams)
        requires
            server_secret_params_wf(*self),
        ensures
            server_public_params_wf(r),
            params_match(*self, r),
    {
        ServerPublicParams {
            reserved: [0],
            auth_credentials_public_key: self.auth_credentials_key_pair.get_public_key(),
            profile_key_credentials_public_key: self
                .profile_key_credentials_key_pair
                .get_public_key(),
            sig_public_key: self.sig_key_pair.get_public_key(),
            receipt_credentials_public_key: self.receipt_credentials_key_pair.get_public_key(),
            pni_credentials_public_key: self.pni_credentials_key_pair.get_public_key(),
            profile_key_credentials_v3_public_key: self
                .profile_key_credentials_v3_key_pair
                .get_public_key(),
        }
    }

    /// Sign a message with the notary key; the signature is the stated
    /// function of the key, the randomness and the message.
    pub fn sign(&self, randomness: RandomnessBytes, message: &[u8]) -> (r: NotarySignature)
        requires
            server_secret_params_wf(*self),
        ensures
            spec_sig_verifies(self.sig_key_pair.public, message@, r),
            r == spec_sign(
                self.sig_key_pair,
                message@,
                operation_stream(LABEL_SERVER_SIGN, randomness),
            ),
    {
        let mut sho = Sho::new(LABEL_SERVER_SIGN, &randomness);
        self.sig_key_pair.sign(message, &mut sho)
    }

    /// Issue an auth credential over a user identifier and redemption
    /// time the issuer knows in plaintext.
    pub fn issue_auth_credential(
        &self,
        randomness: RandomnessBytes,
        uid_bytes: UidBytes,
        redemption_time: RedemptionTime,
    ) -> (r: AuthCredentialResponse)
        requires
            server_secret_params_wf(*self),
        ensures
            credential_valid(
                self.auth_credentials_key_pair,
                r.credential,
                spec_attr_scalar(uid_bytes@),
                redemption_time as u64,
                0,
            ),
            spec_plain_issuance_verifies(
                LABEL_ISSUANCE_AUTH,
                self.auth_credentials_key_pair.public_key,
                r.credential,
                spec_attr_scalar(uid_bytes@),
                redemption_time as u64,
                0,
                r.proof.pok.challenge,
                r.proof.pok.responses@,
            ),
            r.reserved == [0u8],
            r.credential == spec_create_credential(
                self.auth_credentials_key_pair,
                spec_attr_scalar(uid_bytes@),
                redemption_time as u64,
                0,
                operation_stream(LABEL_ISSUE_AUTH_CREDENTIAL, randomness),
            ),
            ({
                let s0 = operation_stream(LABEL_ISSUE_AUTH_CREDENTIAL, randomness);
                let ua = spec_attr_scalar(uid_bytes@);
                let cred = spec_create_credential(
                    self.auth_credentials_key_pair,
                    ua,
                    redemption_time as u64,
                    0,
                    s0,
                );
                let kp = self.auth_credentials_key_pair;
                &&& r.proof.pok.challenge == spec_prove(
                    LABEL_ISSUANCE_AUTH,
                    plain_issuance_rows(cred.u_point, ua, redemption_time as u64, 0),
                    plain_issuance_publics(kp.public_key, cred.v_point),
                    seq![kp.x0, kp.x1, kp.x2, kp.x3],
                    spec_sho_state_after(s0, 1),
                ).0
                &&& r.proof.pok.responses@ == spec_prove(
                    LABEL_ISSUANCE_AUTH,
                    plain_issuance_rows(cred.u_point, ua, redemption_time as u64, 0),
                    plain_issuance_publics(kp.public_key, cred.v_point),
                    seq![kp.x0, kp.x1, kp.x2, kp.x3],
                    spec_sho_state_after(s0, 1),
                ).1
            }),
    {
        let mut sho = Sho::new(LABEL_ISSUE_AUTH_CREDENTIAL, &randomness);
        proof {
            crate::sho::lemma_sho_state_unroll(sho.state);
        }
        let uid_attr = attr_scalar(uid_bytes.as_slice());
        let rt_attr = redemption_time as u64;
        let credential = self.auth_credentials_key_pair.create_credential(
            uid_attr,
            rt_attr,
            0,
            &mut sho,
        );
        let proof = AuthCredentialIssuanceProof::new(
            &self.auth_credentials_key_pair,
            credential,
            uid_attr,
            rt_attr,
            &mut sho,
        );
        AuthCredentialResponse { reserved: [0], credential, proof }
    }

    /// Verify an auth presentation, dispatching on its version tag.
    pub fn verify_auth_credential_presentation(
        &self,
        group_public_params: GroupPublicParams,
        presentation: &AnyAuthCredentialPresentation,
    ) -> (r: Result<(), ZkGroupVerificationFailure>)
        requires
            server_secret_params_wf(*self),
            group_public_params_wf(group_public_params),
        ensures
            r is Ok <==> match presentation {
                AnyAuthCredentialPresentation::V1(p) => spec_pres1_accepts(
                    LABEL_PRESENTATION_AUTH_V1,
                    self.auth_credentials_key_pair,
                    group_public_params.uid_enc_public_key,
                    p.redemption_time as u64,
                    0,
                    p.ciphertext,
                    p.proof.commitments,
                    p.proof.pok.challenge,
                    p.proof.pok.responses@,
                ),
                AnyAuthCredentialPresentation::V2(p) => spec_pres1_accepts(
                    LABEL_PRESENTATION_AUTH_V2,
                    self.auth_credentials_key_pair,
                    group_public_params.uid_enc_public_key,
                    p.redemption_time as u64,
                    0,
                    p.ciphertext,
                    p.proof.commitments,
                    p.proof.pok.challenge,
                    p.proof.pok.responses@,
                ),
            },
    {
        match presentation {
            AnyAuthCredentialPresentation::V1(p) => self.verify_auth_credential_presentation_v1(
                group_public_params,
                p,
            ),
            AnyAuthCredentialPresentation::V2(p) => self.verify_auth_credential_presentation_v2(
                group_public_params,
                p,
            ),
        }
    }

    /// Verify a first-version auth presentation.
    pub fn verify_auth_credential_presentation_v1(
        &self,
        group_public_params: GroupPublicParams,
        presentation: &AuthCredentialPresentationV1,
    ) -> (r: Result<(), ZkGroupVerificationFailure>)
        requires
            server_secret_params_wf(*self),
            group_public_params_wf(group_public_params),
        ensures
            r is Ok <==> spec_pres1_accepts(
                LABEL_PRESENTATION_AUTH_V1,
                self.auth_credentials_key_pair,
                group_public_params.uid_enc_public_key,
                presentation.redemption_time as u64,
                0,
                presentation.ciphertext,
                presentation.proof.commitments,
                presentation.proof.pok.challenge,
                presentation.proof.pok.responses@,
            ),
    {
        presentation.proof.verify(
            LABEL_PRESENTATION_AUTH_V1,
            &self.auth_credentials_key_pair,
            group_public_params.uid_enc_public_key,
            presentation.redemption_time as u64,
            0,
            presentation.ciphertext,
        )
    }

    /// Verify a second-version auth presentation.
    pub fn verify_auth_credential_presentation_v2(
        &self,
        group_public_params: GroupPublicParams,
        presentation: &AuthCredentialPresentationV2,
    ) -> (r: Result<(), ZkGroupVerificationFailure>)
        requires
            server_secret_params_wf(*self),
            group_public_params_wf(group_public_params),
        ensures
            r is Ok <==> spec_pres1_accepts(
                LABEL_PRESENTATION_AUTH_V2,
                self.auth_credentials_key_pair,
                group_public_params.uid_enc_public_key,
                presentation.redemption_time as u64,
                0,
                presentation.ciphertext,
                presentation.proof.commitments,
                presentation.proof.pok.challenge,
                presentation.proof.pok.responses@,
            ),
    {
        presentation.proof.verify(
            LABEL_PRESENTATION_AUTH_V2,
            &self.auth_credentials_key_pair,
            group_public_params.uid_enc_public_key,
            presentation.redemption_time as u64,
            0,
            presentation.ciphertext,
        )
    }

    /// Verify a profile key presentation, dispatching on its version.
    pub fn verify_profile_key_credential_presentation(
        &self,
        group_public_params: GroupPublicParams,
        presentation: &AnyProfileKeyCredentialPresentation,
    ) -> (r: Result<(), ZkGroupVerificationFailure>)
        requires
            server_secret_params_wf(*self),
            group_public_params_wf(group_public_params),
        ensures
            r is Ok <==> match presentation {
                AnyProfileKeyCredentialPresentation::V1(p) => spec_pres2_accepts(
                    LABEL_PRESENTATION_PROFILE_KEY_V1,
                    self.profile_key_credentials_key_pair,
                    group_public_params.profile_key_enc_public_key,
                    group_public_params.uid_enc_public_key,
                    0,
                    p.profile_key_enc_ciphertext,
                    p.uid_enc_ciphertext,
                    p.proof.commitments,
                    p.proof.pok.challenge,
                    p.proof.pok.responses@,
                ),
                AnyProfileKeyCredentialPresentation::V2(p) => spec_pres2_accepts(
                    LABEL_PRESENTATION_PROFILE_KEY_V2,
                    self.profile_key_credentials_key_pair,
                    group_public_params.profile_key_enc_public_key,
                    group_public_params.uid_enc_public_key,
                    0,
                    p.profile_key_enc_ciphertext,
                    p.uid_enc_ciphertext,
                    p.proof.commitments,
                    p.proof.pok.challenge,
                    p.proof.pok.responses@,
                ),
            },
    {
        match presentation {
            AnyProfileKeyCredentialPresentation::V1(p) => self
                .verify_profile_key_credential_presentation_v1(group_public_params, p),
            AnyProfileKeyCredentialPresentation::V2(p) => self
                .verify_profile_key_credential_presentation_v2(group_public_params, p),
        }
    }

    /// Verify a first-version profile key presentation.
    pub fn verify_profile_key_credential_presentation_v1(
        &self,
        group_public_params: GroupPublicParams,
        presentation: &ProfileKeyCredentialPresentationV1,
    ) -> (r: Result<(), ZkGroupVerificationFailure>)
        requires
            server_secret_params_wf(*self),
            group_public_params_wf(group_public_params),
        ensures
            r is Ok <==> spec_pres2_accepts(
                LABEL_PRESENTATION_PROFILE_KEY_V1,
                self.profile_key_credentials_key_pair,
                group_public_params.profile_key_enc_public_key,
                group_public_params.uid_enc_public_key,
                0,
                presentation.profile_key_enc_ciphertext,
                presentation.uid_enc_ciphertext,
                presentation.proof.commitments,
                presentation.proof.pok.challenge,
                presentation.proof.pok.responses@,
            ),
    {
        presentation.proof.verify(
            LABEL_PRESENTATION_PROFILE_KEY_V1,
            &self.profile_key_credentials_key_pair,
            group_public_params.profile_key_enc_public_key,
            group_public_params.uid_enc_public_key,
            0,
            presentation.profile_key_enc_ciphertext,
            presentation.uid_enc_ciphertext,
        )
    }

    /// Verify a second-version profile key presentation.
    pub fn verify_profile_key_credential_presentation_v2(
        &self,
        group_public_params: GroupPublicParams,
        presentation: &ProfileKeyCredentialPresentationV2,
    ) -> (r: Result<(), ZkGroupVerificationFailure>)
        requires
            server_secret_params_wf(*self),
            group_public_params_wf(group_public_params),
        ensures
            r is Ok <==> spec_pres2_accepts(
                LABEL_PRESENTATION_PROFILE_KEY_V2,
                self.profile_key_credentials_key_pair,
                group_public_params.profile_key_enc_public_key,
                group_public_params.uid_enc_public_key,
                0,
                presentation.profile_key_enc_ciphertext,
                presentation.uid_enc_ciphertext,
                presentation.proof.commitments,
                presentation.proof.pok.challenge,
                presentation.proof.pok.responses@,
            ),
    {
        presentation.proof.verify(
            LABEL_PRESENTATION_PROFILE_KEY_V2,
            &self.profile_key_credentials_key_pair,
            group_public_params.profile_key_enc_public_key,
            group_public_params.uid_enc_public_key,
            0,
            presentation.profile_key_enc_ciphertext,
            presentation.uid_enc_ciphertext,
        )
    }

    /// Verify a third-family profile key presentation.
    pub fn verify_profile_key_credential_v3_presentation(
        &self,
        group_public_params: GroupPublicParams,
        presentation: &ProfileKeyCredentialV3Presentation,
    ) -> (r: Result<(), ZkGroupVerificationFailure>)
        requires
            server_secret_params_wf(*self),
            group_public_params_wf(group_public_params),
        ensures
            r is Ok <==> spec_pres2_accepts(
                LABEL_PRESENTATION_PROFILE_KEY_V3,
                self.profile_key_credentials_v3_key_pair,
                group_public_params.profile_key_enc_public_key,
                group_public_params.uid_enc_public_key,
                0,
                presentation.profile_key_enc_ciphertext,
                presentation.uid_enc_ciphertext,
                presentation.proof.commitments,
                presentation.proof.pok.challenge,
                presentation.proof.pok.responses@,
            ),
    {
        presentation.proof.verify(
            LABEL_PRESENTATION_PROFILE_KEY_V3,
            &self.profile_key_credentials_v3_key_pair,
            group_public_params.profile_key_enc_public_key,
            group_public_params.uid_enc_public_key,
            0,
            presentation.profile_key_enc_ciphertext,
            presentation.uid_enc_ciphertext,
        )
    }

    /// Verify a PNI presentation, dispatching on its version.
    pub fn verify_pni_credential_presentation(
        &self,
        group_public_params: GroupPublicParams,
        presentation: &AnyPniCredentialPresentation,
    ) -> (r: Result<(), ZkGroupVerificationFailure>)
        requires
            server_secret_params_wf(*self),
            group_public_params_wf(group_public_params),
        ensures
            r is Ok <==> match presentation {
                AnyPniCredentialPresentation::V1(p) => spec_pres3_accepts(
                    LABEL_PRESENTATION_PNI_V1,
                    self.pni_credentials_key_pair,
                    group_public_params.profile_key_enc_public_key,
                    group_public_params.uid_enc_public_key,
                    group_public_params.uid_enc_public_key,
                    p.profile_key_enc_ciphertext,
                    p.aci_enc_ciphertext,
                    p.pni_enc_ciphertext,
                    p.proof.commitments,
                    p.proof.pok.challenge,
                    p.proof.pok.responses@,
                ),
                AnyPniCredentialPresentation::V2(p) => spec_pres3_accepts(
                    LABEL_PRESENTATION_PNI_V2,
                    self.pni_credentials_key_pair,
                    group_public_params.profile_key_enc_public_key,
                    group_public_params.uid_enc_public_key,
                    group_public_params.uid_enc_public_key,
                    p.profile_key_enc_ciphertext,
                    p.aci_enc_ciphertext,
                    p.pni_enc_ciphertext,
                    p.proof.commitments,
                    p.proof.pok.challenge,
                    p.proof.pok.responses@,
                ),
            },
    {
        match presentation {
            AnyPniCredentialPresentation::V1(p) => self.verify_pni_credential_presentation_v1(
                group_public_params,
                p,
            ),
            AnyPniCredentialPresentation::V2(p) => self.verify_pni_credential_presentation_v2(
                group_public_params,
                p,
            ),
        }
    }

    /// Verify a first-version PNI presentation.
    pub fn verify_pni_credential_presentation_v1(
        &self,
        group_public_params: GroupPublicParams,
        presentation: &PniCredentialPresentationV1,
    ) -> (r: Result<(), ZkGroupVerificationFailure>)
        requires
            server_secret_params_wf(*self),
            group_public_params_wf(group_public_params),
        ensures
            r is Ok <==> spec_pres3_accepts(
                LABEL_PRESENTATION_PNI_V1,
                self.pni_credentials_key_pair,
                group_public_params.profile_key_enc_public_key,
                group_public_params.uid_enc_public_key,
                group_public_params.uid_enc_public_key,
                presentation.profile_key_enc_ciphertext,
                presentation.aci_enc_ciphertext,
                presentation.pni_enc_ciphertext,
                presentation.proof.commitments,
                presentation.proof.pok.challenge,
                presentation.proof.pok.responses@,
            ),
    {
        presentation.proof.verify(
            LABEL_PRESENTATION_PNI_V1,
            &self.pni_credentials_key_pair,
            group_public_params.profile_key_enc_public_key,
            group_public_params.uid_enc_public_key,
            group_public_params.uid_enc_public_key,
            presentation.profile_key_enc_ciphertext,
            presentation.aci_enc_ciphertext,
            presentation.pni_enc_ciphertext,
        )
    }

    /// Verify a second-version PNI presentation.
    pub fn verify_pni_credential_presentation_v2(
        &self,
        group_public_params: GroupPublicParams,
        presentation: &PniCredentialPresentationV2,
    ) -> (r: Result<(), ZkGroupVerificationFailure>)
        requires
            server_secret_params_wf(*self),
            group_public_params_wf(group_public_params),
        ensures
            r is Ok <==> spec_pres3_accepts(
                LABEL_PRESENTATION_PNI_V2,
                self.pni_credentials_key_pair,
                group_public_params.profile_key_enc_public_key,
                group_public_params.uid_enc_public_key,
                group_public_params.uid_enc_public_key,
                presentation.profile_key_enc_ciphertext,
                presentation.aci_enc_ciphertext,
                presentation.pni_enc_ciphertext,
                presentation.proof.commitments,
                presentation.proof.pok.challenge,
                presentation.proof.pok.responses@,
            ),
    {
        presentation.proof.verify(
            LABEL_PRESENTATION_PNI_V2,
            &self.pni_credentials_key_pair,
            group_public_params.profile_key_enc_public_key,
            group_public_params.uid_enc_public_key,
            group_public_params.uid_enc_public_key,
            presentation.profile_key_enc_ciphertext,
            presentation.aci_enc_ciphertext,
            presentation.pni_enc_ciphertext,
        )
    }

    /// Blind-issue a profile key credential, first checking the
    /// holder's request proof against the published commitment.
    pub fn issue_profile_key_credential(
        &self,
        randomness: RandomnessBytes,
        request: &ProfileKeyCredentialRequest,
        uid_bytes: UidBytes,
        commitment: ProfileKeyCommitment,
    ) -> (r: Result<ProfileKeyCredentialResponse, ZkGroupVerificationFailure>)
        requires
            server_secret_params_wf(*self),
        ensures
            r is Ok <==> spec_request_verifies(
                request.public_key,
                request.ciphertext.e1,
                request.ciphertext.e2,
                commitment.commitment,
                request.proof.pok.challenge,
                request.proof.pok.responses@,
            ),
            r matches Ok(resp) ==> spec_blinded_issuance_verifies(
                LABEL_ISSUANCE_PROFILE_KEY,
                self.profile_key_credentials_key_pair.public_key,
                request.public_key,
                request.ciphertext.e1,
                request.ciphertext.e2,
                spec_attr_scalar(uid_bytes@),
                0,
                resp.blinded_credential,
                resp.proof.y_point,
                resp.proof.pok.challenge,
                resp.proof.pok.responses@,
            ),
            r matches Ok(resp) ==> exists|bl: crate::credentials::BlindedCredentialWithSecretNonce|
                crate::credentials::blinded_wf(
                    self.profile_key_credentials_key_pair,
                    spec_attr_scalar(uid_bytes@),
                    0,
                    request.public_key,
                    request.ciphertext.e1,
                    request.ciphertext.e2,
                    bl,
                ) && resp.blinded_credential.u_point == bl.u_point
                    && resp.blinded_credential.s1 == bl.s1 && resp.blinded_credential.s2 == bl.s2,
            ({
                let s0 = operation_stream(LABEL_ISSUE_PROFILE_KEY_CREDENTIAL, randomness);
                let bl = spec_create_blinded_credential(
                    self.profile_key_credentials_key_pair,
                    spec_attr_scalar(uid_bytes@),
                    0,
                    request.public_key,
                    request.ciphertext.e1,
                    request.ciphertext.e2,
                    s0,
                );
                let kp = self.profile_key_credentials_key_pair;
                r matches Ok(resp) ==> ({
                    &&& resp.reserved == [0u8]
                    &&& resp.blinded_credential.u_point == bl.u_point
                    &&& resp.blinded_credential.s1 == bl.s1
                    &&& resp.blinded_credential.s2 == bl.s2
                    &&& resp.proof.y_point == fmul(bl.y, GEN_G)
                    &&& resp.proof.pok.challenge == spec_prove(
                        LABEL_ISSUANCE_PROFILE_KEY,
                        blinded_issuance_rows(
                            kp.public_key.x1_g,
                            bl.u_point,
                            request.ciphertext.e1,
                            request.ciphertext.e2,
                            request.public_key,
                            spec_attr_scalar(uid_bytes@),
                            0,
                        ),
                        blinded_issuance_publics(
                            kp.public_key,
                            bl.u_point,
                            fmul(bl.y, GEN_G),
                            bl.s1,
                            bl.s2,
                        ),
                        seq![kp.x0, kp.x1, kp.x2, kp.x3, bl.b, bl.y, bl.rprime],
                        spec_sho_state_after(s0, 2),
                    ).0
                    &&& resp.proof.pok.responses@ == spec_prove(
                        LABEL_ISSUANCE_PROFILE_KEY,
                        blinded_issuance_rows(
                            kp.public_key.x1_g,
                            bl.u_point,
                            request.ciphertext.e1,
                            request.ciphertext.e2,
                            request.public_key,
                            spec_attr_scalar(uid_bytes@),
                            0,
                        ),
                        blinded_issuance_publics(
                            kp.public_key,
                            bl.u_point,
                            fmul(bl.y, GEN_G),
                            bl.s1,
                            bl.s2,
                        ),
                        seq![kp.x0, kp.x1, kp.x2, kp.x3, bl.b, bl.y, bl.rprime],
                        spec_sho_state_after(s0, 2),
                    ).1
                })
            }),
    {
        let mut sho = Sho::new(LABEL_ISSUE_PROFILE_KEY_CREDENTIAL, &randomness);
        let check = request.proof.verify(
            request.public_key,
            request.ciphertext,
            commitment.commitment,
        );
        if check.is_err() {
            return Err(ZkGroupVerificationFailure);
        }
        let uid_attr = attr_scalar(uid_bytes.as_slice());
        let blinded = self.profile_key_credentials_key_pair.create_blinded_credential(
            uid_attr,
            0,
            request.public_key,
            request.ciphertext,
            &mut sho,
        );
        let proof = ProfileKeyCredentialIssuanceProof::new(
            &self.profile_key_credentials_key_pair,
            request.public_key,
            request.ciphertext,
            &blinded,
            uid_attr,
            &mut sho,
        );
        Ok(ProfileKeyCredentialResponse {
            reserved: [0],
            blinded_credential: blinded.get_blinded_credential(),
            proof,
        })
    }

    /// Blind-issue a third-family profile key credential.
    pub fn issue_profile_key_credential_v3(
        &self,
        randomness: RandomnessBytes,
        request: &ProfileKeyCredentialRequest,
        uid_bytes: UidBytes,
        commitment: ProfileKeyCommitment,
    ) -> (r: Result<ProfileKeyCredentialV3Response, ZkGroupVerificationFailure>)
        requires
            server_secret_params_wf(*self),
        ensures
            r is Ok <==> spec_request_verifies(
                request.public_key,
                request.ciphertext.e1,
                request.ciphertext.e2,
                commitment.commitment,
                request.proof.pok.challenge,
                request.proof.pok.responses@,
            ),
            r matches Ok(resp) ==> spec_blinded_issuance_verifies(
                LABEL_ISSUANCE_PROFILE_KEY_V3,
                self.profile_key_credentials_v3_key_pair.public_key,
                request.public_key,
                request.ciphertext.e1,
                request.ciphertext.e2,
                spec_attr_scalar(uid_bytes@),
                0,
                resp.blinded_credential,
                resp.proof.y_point,
                resp.proof.pok.challenge,
                resp.proof.pok.responses@,
            ),
            r matches Ok(resp) ==> exists|bl: crate::credentials::BlindedCredentialWithSecretNonce|
                crate::credentials::blinded_wf(
                    self.profile_key_credentials_v3_key_pair,
                    spec_attr_scalar(uid_bytes@),
                    0,
                    request.public_key,
                    request.ciphertext.e1,
                    request.ciphertext.e2,
                    bl,
                ) && resp.blinded_credential.u_point == bl.u_point
                    && resp.blinded_credential.s1 == bl.s1 && resp.blinded_credential.s2 == bl.s2,
            ({
                let s0 = operation_stream(LABEL_ISSUE_PROFILE_KEY_CREDENTIAL_V3, randomness);
                let bl = spec_create_blinded_credential(
                    self.profile_key_credentials_v3_key_pair,
                    spec_attr_scalar(uid_bytes@),
                    0,
                    request.public_key,
                    request.ciphertext.e1,
                    request.ciphertext.e2,
                    s0,
                );
                let kp = self.profile_key_credentials_v3_key_pair;
                r matches Ok(resp) ==> ({
                    &&& resp.reserved == [0u8]
                    &&& resp.blinded_credential.u_point == bl.u_point
                    &&& resp.blinded_credential.s1 == bl.s1
                    &&& resp.blinded_credential.s2 == bl.s2
                    &&& resp.proof.y_point == fmul(bl.y, GEN_G)
                    &&& resp.proof.pok.challenge == spec_prove(
                        LABEL_ISSUANCE_PROFILE_KEY_V3,
                        blinded_issuance_rows(
                            kp.public_key.x1_g,
                            bl.u_point,
                            request.ciphertext.e1,
                            request.ciphertext.e2,
                            request.public_key,
                            spec_attr_scalar(uid_bytes@),
                            0,
                        ),
                        blinded_issuance_publics(
                            kp.public_key,
                            bl.u_point,
                            fmul(bl.y, GEN_G),
                            bl.s1,
                            bl.s2,
                        ),
                        seq![kp.x0, kp.x1, kp.x2, kp.x3, bl.b, bl.y, bl.rprime],
                        spec_sho_state_after(s0, 2),
                    ).0
                    &&& resp.proof.pok.responses@ == spec_prove(
                        LABEL_ISSUANCE_PROFILE_KEY_V3,
                        blinded_issuance_rows(
                            kp.public_key.x1_g,
                            bl.u_point,
                            request.ciphertext.e1,
                            request.ciphertext.e2,
                            request.public_key,
                            spec_attr_scalar(uid_bytes@),
                            0,
                        ),
                        blinded_issuance_publics(
                            kp.public_key,
                            bl.u_point,
                            fmul(bl.y, GEN_G),
                            bl.s1,
                            bl.s2,
                        ),
                        seq![kp.x0, kp.x1, kp.x2, kp.x3, bl.b, bl.y, bl.rprime],
                        spec_sho_state_after(s0, 2),
                    ).1
                })
            }),
    {
        let mut sho = Sho::new(LABEL_ISSUE_PROFILE_KEY_CREDENTIAL_V3, &randomness);
        let check = request.proof.verify(
            request.public_key,
            request.ciphertext,
            commitment.commitment,
        );
        if check.is_err() {
            return Err(ZkGroupVerificationFailure);
        }
        let uid_attr = attr_scalar(uid_bytes.as_slice());
        let blinded = self.profile_key_credentials_v3_key_pair.create_blinded_credential(
            uid_attr,
            0,
            request.public_key,
            request.ciphertext,
            &mut sho,
        );
        let proof = ProfileKeyCredentialV3IssuanceProof::new(
            &self.profile_key_credentials_v3_key_pair,
            request.public_key,
            request.ciphertext,
            &blinded,
            uid_attr,
            &mut sho,
        );
        Ok(ProfileKeyCredentialV3Response {
            reserved: [0],
            blinded_credential: blinded.get_blinded_credential(),
            proof,
        })
    }

    /// Blind-issue a PNI credential over both identifiers and the
    /// holder's encrypted profile key.
    pub fn issue_pni_credential(
        &self,
        randomness: RandomnessBytes,
        request: &ProfileKeyCredentialRequest,
        uid_bytes: UidBytes,
        pni_bytes: UidBytes,
        commitment: ProfileKeyCommitment,
    ) -> (r: Result<PniCredentialResponse, ZkGroupVerificationFailure>)
        requires
            server_secret_params_wf(*self),
        ensures
            r is Ok <==> spec_request_verifies(
                request.public_key,
                request.ciphertext.e1,
                request.ciphertext.e2,
                commitment.commitment,
                request.proof.pok.challenge,
                request.proof.pok.responses@,
            ),
            r matches Ok(resp) ==> spec_blinded_issuance_verifies(
                LABEL_ISSUANCE_PNI,
                self.pni_credentials_key_pair.public_key,
                request.public_key,
                request.ciphertext.e1,
                request.ciphertext.e2,
                spec_attr_scalar(uid_bytes@),
                spec_attr_scalar(pni_bytes@),
                resp.blinded_credential,
                resp.proof.y_point,
                resp.proof.pok.challenge,
                resp.proof.pok.responses@,
            ),
            r matches Ok(resp) ==> exists|bl: crate::credentials::BlindedCredentialWithSecretNonce|
                crate::credentials::blinded_wf(
                    self.pni_credentials_key_pair,
                    spec_attr_scalar(uid_bytes@),
                    spec_attr_scalar(pni_bytes@),
                    request.public_key,
                    request.ciphertext.e1,
                    request.ciphertext.e2,
                    bl,
                ) && resp.blinded_credential.u_point == bl.u_point
                    && resp.blinded_credential.s1 == bl.s1 && resp.blinded_credential.s2 == bl.s2,
            ({
                let s0 = operation_stream(LABEL_ISSUE_PNI_CREDENTIAL, randomness);
                let bl = spec_create_blinded_credential(
                    self.pni_credentials_key_pair,
                    spec_attr_scalar(uid_bytes@),
                    spec_attr_scalar(pni_bytes@),
                    request.public_key,
                    request.ciphertext.e1,
                    request.ciphertext.e2,
                    s0,
                );
                let kp = self.pni_credentials_key_pair;
                r matches Ok(resp) ==> ({
                    &&& resp.reserved == [0u8]
                    &&& resp.blinded_credential.u_point == bl.u_point
                    &&& resp.blinded_credential.s1 == bl.s1
                    &&& resp.blinded_credential.s2 == bl.s2
                    &&& resp.proof.y_point == fmul(bl.y, GEN_G)
                    &&& resp.proof.pok.challenge == spec_prove(
                        LABEL_ISSUANCE_PNI,
                        blinded_issuance_rows(
                            kp.public_key.x1_g,
                            bl.u_point,
                            request.ciphertext.e1,
                            request.ciphertext.e2,
                            request.public_key,
                            spec_attr_scalar(uid_bytes@),
                            spec_attr_scalar(pni_bytes@),
                        ),
                        blinded_issuance_publics(
                            kp.public_key,
                            bl.u_point,
                            fmul(bl.y, GEN_G),
                            bl.s1,
                            bl.s2,
                        ),
                        seq![kp.x0, kp.x1, kp.x2, kp.x3, bl.b, bl.y, bl.rprime],
                        spec_sho_state_after(s0, 2),
                    ).0
                    &&& resp.proof.pok.responses@ == spec_prove(
                        LABEL_ISSUANCE_PNI,
                        blinded_issuance_rows(
                            kp.public_key.x1_g,
                            bl.u_point,
                            request.ciphertext.e1,
                            request.ciphertext.e2,
                            request.public_key,
                            spec_attr_scalar(uid_bytes@),
                            spec_attr_scalar(pni_bytes@),
                        ),
                        blinded_issuance_publics(
                            kp.public_key,
                            bl.u_point,
                            fmul(bl.y, GEN_G),
                            bl.s1,
                            bl.s2,
                        ),
                        seq![kp.x0, kp.x1, kp.x2, kp.x3, bl.b, bl.y, bl.rprime],
                        spec_sho_state_after(s0, 2),
                    ).1
                })
            }),
    {
        let mut sho = Sho::new(LABEL_ISSUE_PNI_CREDENTIAL, &randomness);
        let check = request.proof.verify(
            request.public_key,
            request.ciphertext,
            commitment.commitment,
        );
        if check.is_err() {
            return Err(ZkGroupVerificationFailure);
        }
        let uid_attr = attr_scalar(uid_bytes.as_slice());
        let pni_attr = attr_scalar(pni_bytes.as_slice());
        let blinded = self.pni_credentials_key_pair.create_blinded_credential(
            uid_attr,
            pni_attr,
            request.public_key,
            request.ciphertext,
            &mut sho,
        );
        let proof = PniCredentialIssuanceProof::new(
            &self.pni_credentials_key_pair,
            request.public_key,
            request.ciphertext,
            &blinded,
            uid_attr,
            pni_attr,
            &mut sho,
        );
        Ok(PniCredentialResponse {
            reserved: [0],
            blinded_credential: blinded.get_blinded_credential(),
            proof,
        })
    }

    /// Blind-issue a receipt credential; receipts have no request proof
    /// to check, the serial arrives only as a ciphertext.
    pub fn issue_receipt_credential(
        &self,
        randomness: RandomnessBytes,
        request: &ReceiptCredentialRequest,
        receipt_expiration_time: ReceiptExpirationTime,
        receipt_level: ReceiptLevel,
    ) -> (r: ReceiptCredentialResponse)
        requires
            server_secret_params_wf(*self),
            request.public_key < Q,
            request.ciphertext.e1 < Q,
            request.ciphertext.e2 < Q,
        ensures
            r.receipt_expiration_time == receipt_expiration_time,
            r.receipt_level == receipt_level,
            spec_blinded_issuance_verifies(
                LABEL_ISSUANCE_RECEIPT,
                self.receipt_credentials_key_pair.public_key,
                request.public_key,
                request.ciphertext.e1,
                request.ciphertext.e2,
                time_attr(receipt_expiration_time),
                time_attr(receipt_level),
                r.blinded_credential,
                r.proof.y_point,
                r.proof.pok.challenge,
                r.proof.pok.responses@,
            ),
            exists|bl: crate::credentials::BlindedCredentialWithSecretNonce|
                crate::credentials::blinded_wf(
                    self.receipt_credentials_key_pair,
                    time_attr(receipt_expiration_time),
                    time_attr(receipt_level),
                    request.public_key,
                    request.ciphertext.e1,
                    request.ciphertext.e2,
                    bl,
                ) && r.blinded_credential.u_point == bl.u_point && r.blinded_credential.s1
                    == bl.s1 && r.blinded_credential.s2 == bl.s2,
            ({
                let s0 = operation_stream(LABEL_ISSUE_RECEIPT_CREDENTIAL, randomness);
                let bl = spec_create_blinded_credential(
                    self.receipt_credentials_key_pair,
                    time_attr(receipt_expiration_time),
                    time_attr(receipt_level),
                    request.public_key,
                    request.ciphertext.e1,
                    request.ciphertext.e2,
                    s0,
                );
                let kp = self.receipt_credentials_key_pair;
                ({
                    &&& r.reserved == [0u8]
                    &&& r.blinded_credential.u_point == bl.u_point
                    &&& r.blinded_credential.s1 == bl.s1
                    &&& r.blinded_credential.s2 == bl.s2
                    &&& r.proof.y_point == fmul(bl.y, GEN_G)
                    &&& r.proof.pok.challenge == spec_prove(
                        LABEL_ISSUANCE_RECEIPT,
                        blinded_issuance_rows(
                            kp.public_key.x1_g,
                            bl.u_point,
                            request.ciphertext.e1,
                            request.ciphertext.e2,
                            request.public_key,
                            time_attr(receipt_expiration_time),
                            time_attr(receipt_level),
                        ),
                        blinded_issuance_publics(
                            kp.public_key,
                            bl.u_point,
                            fmul(bl.y, GEN_G),
                            bl.s1,
                            bl.s2,
                        ),
                        seq![kp.x0, kp.x1, kp.x2, kp.x3, bl.b, bl.y, bl.rprime],
                        spec_sho_state_after(s0, 2),
                    ).0
                    &&& r.proof.pok.responses@ == spec_prove(
                        LABEL_ISSUANCE_RECEIPT,
                        blinded_issuance_rows(
                            kp.public_key.x1_g,
                            bl.u_point,
                            request.ciphertext.e1,
                            request.ciphertext.e2,
                            request.public_key,
                            time_attr(receipt_expiration_time),
                            time_attr(receipt_level),
                        ),
                        blinded_issuance_publics(
                            kp.public_key,
                            bl.u_point,
                            fmul(bl.y, GEN_G),
                            bl.s1,
                            bl.s2,
                        ),
                        seq![kp.x0, kp.x1, kp.x2, kp.x3, bl.b, bl.y, bl.rprime],
                        spec_sho_state_after(s0, 2),
                    ).1
                })
            }),
    {
        let mut sho = Sho::new(LABEL_ISSUE_RECEIPT_CREDENTIAL, &randomness);
        let exp_attr = sc_reduce(receipt_expiration_time);
        let level_attr = sc_reduce(receipt_level);
        let blinded = self.receipt_credentials_key_pair.create_blinded_credential(
            exp_attr,
            level_attr,
            request.public_key,
            request.ciphertext,
            &mut sho,
        );
        let proof = ReceiptCredentialIssuanceProof::new(
            &self.receipt_credentials_key_pair,
            request.public_key,
            request.ciphertext,
            &blinded,
            exp_attr,
            level_attr,
            &mut sho,
        );
        ReceiptCredentialResponse {
            reserved: [0],
            receipt_expiration_time,
            receipt_level,
            blinded_credential: blinded.get_blinded_credential(),
            proof,
        }
    }

    /// Verify a receipt presentation against its disclosed fields.
    pub fn verify_receipt_credential_presentation(
        &self,
        presentation: &ReceiptCredentialPresentation,
    ) -> (r: Result<(), ZkGroupVerificationFailure>)
        requires
            server_secret_params_wf(*self),
        ensures
            r is Ok <==> spec_pres0_accepts(
                LABEL_PRESENTATION_RECEIPT,
                self.receipt_credentials_key_pair,
                spec_attr_scalar(presentation.receipt_serial_bytes@),
                time_attr(presentation.receipt_expiration_time),
                time_attr(presentation.receipt_level),
                presentation.proof.commitments,
                presentation.proof.pok.challenge,
                presentation.proof.pok.responses@,
            ),
    {
        let serial_attr = attr_scalar(presentation.receipt_serial_bytes.as_slice());
        let exp_attr = sc_reduce(presentation.receipt_expiration_time);
        let level_attr = sc_reduce(presentation.receipt_level);
        presentation.proof.verify(
            LABEL_PRESENTATION_RECEIPT,
            &self.receipt_credentials_key_pair,
            serial_attr,
            exp_attr,
            level_attr,
        )
    }
}

impl ServerPublicParams {
    /// Check a notary signature over a message.
    pub fn verify_signature(
        &self,
        message: &[u8],
        signature: NotarySignature,
    ) -> (r: Result<(), ZkGroupVerificationFailure>)
        requires
            server_public_params_wf(*self),
        ensures
            r is Ok <==> spec_sig_verifies(self.sig_public_key, message@, signature),
    {
        verify_notary_signature(self.sig_public_key, message, signature)
    }

    /// Check an issuer's auth response and accept the credential.
    pub fn receive_auth_credential(
        &self,
        uid_bytes: UidBytes,
        redemption_time: RedemptionTime,
        response: &AuthCredentialResponse,
    ) -> (r: Result<AuthCredential, ZkGroupVerificationFailure>)
        requires
            server_public_params_wf(*self),
        ensures
            r is Ok <==> spec_plain_issuance_verifies(
                LABEL_ISSUANCE_AUTH,
                self.auth_credentials_public_key,
                response.credential,
                spec_attr_scalar(uid_bytes@),
                redemption_time as u64,
                0,
                response.proof.pok.challenge,
                response.proof.pok.responses@,
            ) && response.credential.u_point != 0,
            r matches Ok(c) ==> c.credential == response.credential && c.uid_bytes == uid_bytes
                && c.redemption_time == redemption_time && auth_credential_wf(c),
    {
        let uid_attr = attr_scalar(uid_bytes.as_slice());
        let check = response.proof.verify(
            &self.auth_credentials_public_key,
            response.credential,
            uid_attr,
            redemption_time as u64,
        );
        if check.is_err() {
            return Err(ZkGroupVerificationFailure);
        }
        if response.credential.u_point == 0 {
            return Err(ZkGroupVerificationFailure);
        }
        Ok(AuthCredential {
            reserved: [0],
            credential: response.credential,
            uid_bytes,
            redemption_time,
        })
    }

    /// Present an auth credential at the current version.
    pub fn create_auth_credential_presentation(
        &self,
        randomness: RandomnessBytes,
        group_secret_params: GroupSecretParams,
        auth_credential: AuthCredential,
    ) -> (r: AnyAuthCredentialPresentation)
        requires
            server_public_params_wf(*self),
            group_secret_params_wf(group_secret_params),
            auth_credential_wf(auth_credential),
        ensures
            r matches AnyAuthCredentialPresentation::V2(p) ==> p.redemption_time
                == auth_credential.redemption_time && forall|kp: CredentialKeyPair|
                keypair_wf(kp) && kp.public_key == self.auth_credentials_public_key
                    && credential_valid(
                    kp,
                    auth_credential.credential,
                    spec_attr_scalar(auth_credential.uid_bytes@),
                    auth_credential.redemption_time as u64,
                    0,
                ) ==> spec_pres1_accepts(
                    LABEL_PRESENTATION_AUTH_V2,
                    kp,
                    group_secret_params.uid_enc_key_pair.public,
                    auth_credential.redemption_time as u64,
                    0,
                    p.ciphertext,
                    p.proof.commitments,
                    p.proof.pok.challenge,
                    p.proof.pok.responses@,
                ),
            r matches AnyAuthCredentialPresentation::V2(p) ==> ({
                &&& p.version == [PRESENTATION_VERSION_2]
                &&& ({
                let s0 = operation_stream(LABEL_CREATE_AUTH_PRESENTATION_V2, randomness);
                let ua = spec_attr_scalar(auth_credential.uid_bytes@);
                let rt = auth_credential.redemption_time as u64;
                let ct = crate::elgamal::spec_encrypt(
                    group_secret_params.uid_enc_key_pair.public,
                    fmul(ua, GEN_G),
                    spec_sho_nonzero_scalar(s0),
                );
                let z = spec_sho_scalar(spec_sho_state_after(s0, 1));
                let ip = self.auth_credentials_public_key.i_point;
                &&& p.ciphertext == crate::elgamal::Ciphertext { e1: ct.e1, e2: ct.e2 }
                &&& p.proof.commitments == crate::presentation_proofs::honest_commitments(
                    z,
                    auth_credential.credential,
                    ua,
                    rt,
                    0,
                )
                &&& p.proof.pok.challenge == spec_prove(
                    LABEL_PRESENTATION_AUTH_V2,
                    crate::presentation_proofs::pres1_rows(
                        ip,
                        auth_credential.credential.u_point,
                        group_secret_params.uid_enc_key_pair.public,
                    ),
                    crate::presentation_proofs::pres1_publics(
                        fmul(z, ip),
                        crate::presentation_proofs::honest_commitments(
                            z,
                            auth_credential.credential,
                            ua,
                            rt,
                            0,
                        ),
                        rt,
                        0,
                        ct.e1,
                        ct.e2,
                    ),
                    seq![z, ua, rt, 0u64, ct.r, 0u64, 0u64],
                    spec_sho_state_after(s0, 2),
                ).0
                &&& p.proof.pok.responses@ == spec_prove(
                    LABEL_PRESENTATION_AUTH_V2,
                    crate::presentation_proofs::pres1_rows(
                        ip,
                        auth_credential.credential.u_point,
                        group_secret_params.uid_enc_key_pair.public,
                    ),
                    crate::presentation_proofs::pres1_publics(
                        fmul(z, ip),
                        crate::presentation_proofs::honest_commitments(
                            z,
                            auth_credential.credential,
                            ua,
                            rt,
                            0,
                        ),
                        rt,
                        0,
                        ct.e1,
                        ct.e2,
                    ),
                    seq![z, ua, rt, 0u64, ct.r, 0u64, 0u64],
                    spec_sho_state_after(s0, 2),
                ).1
                &&& crate::elgamal::spec_decrypt(
                    group_secret_params.uid_enc_key_pair.secret,
                    ct.e1,
                    ct.e2,
                ) == fmul(ua, GEN_G)
            })
            }),
            r is V2,
    {
        let presentation_v2 = self.create_auth_credential_presentation_v2(
            randomness,
            group_secret_params,
            auth_credential,
        );
        AnyAuthCredentialPresentation::V2(presentation_v2)
    }

    /// Present an auth credential at the first version.
    #[verifier::rlimit(100)]
    #[verifier::spinoff_prover]
    pub fn create_auth_credential_presentation_v1(
        &self,
        randomness: RandomnessBytes,
        group_secret_params: GroupSecretParams,
        auth_credential: AuthCredential,
    ) -> (r: AuthCredentialPresentationV1)
        requires
            server_public_params_wf(*self),
            group_secret_params_wf(group_secret_params),
            auth_credential_wf(auth_credential),
        ensures
            r.redemption_time == auth_credential.redemption_time,
            forall|kp: CredentialKeyPair|
                keypair_wf(kp) && kp.public_key == self.auth_credentials_public_key
                    && credential_valid(
                    kp,
                    auth_credential.credential,
                    spec_attr_scalar(auth_credential.uid_bytes@),
                    auth_credential.redemption_time as u64,
                    0,
                ) ==> spec_pres1_accepts(
                    LABEL_PRESENTATION_AUTH_V1,
                    kp,
                    group_secret_params.uid_enc_key_pair.public,
                    auth_credential.redemption_time as u64,
                    0,
                    r.ciphertext,
                    r.proof.commitments,
                    r.proof.pok.challenge,
                    r.proof.pok.responses@,
                ),
            r.reserved == [PRESENTATION_VERSION_1],
            ({
                let s0 = operation_stream(LABEL_CREATE_AUTH_PRESENTATION_V1, randomness);
                let ua = spec_attr_scalar(auth_credential.uid_bytes@);
                let rt = auth_credential.redemption_time as u64;
                let ct = crate::elgamal::spec_encrypt(
                    group_secret_params.uid_enc_key_pair.public,
                    fmul(ua, GEN_G),
                    spec_sho_nonzero_scalar(s0),
                );
                let z = spec_sho_scalar(spec_sho_state_after(s0, 1));
                let ip = self.auth_credentials_public_key.i_point;
                &&& r.ciphertext == crate::elgamal::Ciphertext { e1: ct.e1, e2: ct.e2 }
                &&& r.proof.commitments == crate::presentation_proofs::honest_commitments(
                    z,
                    auth_credential.credential,
                    ua,
                    rt,
                    0,
                )
                &&& r.proof.pok.challenge == spec_prove(
                    LABEL_PRESENTATION_AUTH_V1,
                    crate::presentation_proofs::pres1_rows(
                        ip,
                        auth_credential.credential.u_point,
                        group_secret_params.uid_enc_key_pair.public,
                    ),
                    crate::presentation_proofs::pres1_publics(
                        fmul(z, ip),
                        crate::presentation_proofs::honest_commitments(
                            z,
                            auth_credential.credential,
                            ua,
                            rt,
                            0,
                        ),
                        rt,
                        0,
                        ct.e1,
                        ct.e2,
                    ),
                    seq![z, ua, rt, 0u64, ct.r, 0u64, 0u64],
                    spec_sho_state_after(s0, 2),
                ).0
                &&& r.proof.pok.responses@ == spec_prove(
                    LABEL_PRESENTATION_AUTH_V1,
                    crate::presentation_proofs::pres1_rows(
                        ip,
                        auth_credential.credential.u_point,
                        group_secret_params.uid_enc_key_pair.public,
                    ),
                    crate::presentation_proofs::pres1_publics(
                        fmul(z, ip),
                        crate::presentation_proofs::honest_commitments(
                            z,
                            auth_credential.credential,
                            ua,
                            rt,
                            0,
                        ),
                        rt,
                        0,
                        ct.e1,
                        ct.e2,
                    ),
                    seq![z, ua, rt, 0u64, ct.r, 0u64, 0u64],
                    spec_sho_state_after(s0, 2),
                ).1
                &&& crate::elgamal::spec_decrypt(
                    group_secret_params.uid_enc_key_pair.secret,
                    ct.e1,
                    ct.e2,
                ) == fmul(ua, GEN_G)
            }),
    {
        let mut sho = Sho::new(LABEL_CREATE_AUTH_PRESENTATION_V1, &randomness);
        proof {
            crate::sho::lemma_sho_state_unroll(sho.state);
            crate::sho::lemma_sho_state_compose(sho.state, 1, 1);
        }
        let uid_attr = attr_scalar(auth_credential.uid_bytes.as_slice());
        let uuid_ciphertext = group_secret_params.uid_enc_key_pair.encrypt(
            sc_mul(uid_attr, GEN_G),
            &mut sho,
        );
        proof {
            crate::elgamal::lemma_encrypt_decrypt(
                group_secret_params.uid_enc_key_pair,
                fmul(uid_attr, GEN_G),
                uuid_ciphertext.r,
            );
        }
        let proof = AuthCredentialPresentationProof::new(
            LABEL_PRESENTATION_AUTH_V1,
            &self.auth_credentials_public_key,
            group_secret_params.uid_enc_key_pair.public,
            auth_credential.credential,
            uid_attr,
            auth_credential.redemption_time as u64,
            0,
            &uuid_ciphertext,
            &mut sho,
        );
        AuthCredentialPresentationV1 {
            reserved: [PRESENTATION_VERSION_1],
            proof,
            ciphertext: uuid_ciphertext.get_ciphertext(),
            redemption_time: auth_credential.redemption_time,
        }
    }

    /// Present an auth credential at the second version.
    #[verifier::rlimit(100)]
    #[verifier::spinoff_prover]
    pub fn create_auth_credential_presentation_v2(
        &self,
        randomness: RandomnessBytes,
        group_secret_params: GroupSecretParams,
        auth_credential: AuthCredential,
    ) -> (r: AuthCredentialPresentationV2)
        requires
            server_public_params_wf(*self),
            group_secret_params_wf(group_secret_params),
            auth_credential_wf(auth_credential),
        ensures
            r.redemption_time == auth_credential.redemption_time,
            forall|kp: CredentialKeyPair|
                keypair_wf(kp) && kp.public_key == self.auth_credentials_public_key
                    && credential_valid(
                    kp,
                    auth_credential.credential,
                    spec_attr_scalar(auth_credential.uid_bytes@),
                    auth_credential.redemption_time as u64,
                    0,
                ) ==> spec_pres1_accepts(
                    LABEL_PRESENTATION_AUTH_V2,
                    kp,
                    group_secret_params.uid_enc_key_pair.public,
                    auth_credential.redemption_time as u64,
                    0,
                    r.ciphertext,
                    r.proof.commitments,
                    r.proof.pok.challenge,
                    r.proof.pok.responses@,
                ),
            r.version == [PRESENTATION_VERSION_2],
            ({
                let s0 = operation_stream(LABEL_CREATE_AUTH_PRESENTATION_V2, randomness);
                let ua = spec_attr_scalar(auth_credential.uid_bytes@);
                let rt = auth_credential.redemption_time as u64;
                let ct = crate::elgamal::spec_encrypt(
                    group_secret_params.uid_enc_key_pair.public,
                    fmul(ua, GEN_G),
                    spec_sho_nonzero_scalar(s0),
                );
                let z = spec_sho_scalar(spec_sho_state_after(s0, 1));
                let ip = self.auth_credentials_public_key.i_point;
                &&& r.ciphertext == crate::elgamal::Ciphertext { e1: ct.e1, e2: ct.e2 }
                &&& r.proof.commitments == crate::presentation_proofs::honest_commitments(
                    z,
                    auth_credential.credential,
                    ua,
                    rt,
                    0,
                )
                &&& r.proof.pok.challenge == spec_prove(
                    LABEL_PRESENTATION_AUTH_V2,
                    crate::presentation_proofs::pres1_rows(
                        ip,
                        auth_credential.credential.u_point,
                        group_secret_params.uid_enc_key_pair.public,
                    ),
                    crate::presentation_proofs::pres1_publics(
                        fmul(z, ip),
                        crate::presentation_proofs::honest_commitments(
                            z,
                            auth_credential.credential,
                            ua,
                            rt,
                            0,
                        ),
                        rt,
                        0,
                        ct.e1,
                        ct.e2,
                    ),
                    seq![z, ua, rt, 0u64, ct.r, 0u64, 0u64],
                    spec_sho_state_after(s0, 2),
                ).0
                &&& r.proof.pok.responses@ == spec_prove(
                    LABEL_PRESENTATION_AUTH_V2,
                    crate::presentation_proofs::pres1_rows(
                        ip,
                        auth_credential.credential.u_point,
                        group_secret_params.uid_enc_key_pair.public,
                    ),
                    crate::presentation_proofs::pres1_publics(
                        fmul(z, ip),
                        crate::presentation_proofs::honest_commitments(
                            z,
                            auth_credential.credential,
                            ua,
                            rt,
                            0,
                        ),
                        rt,
                        0,
                        ct.e1,
                        ct.e2,
                    ),
                    seq![z, ua, rt, 0u64, ct.r, 0u64, 0u64],
                    spec_sho_state_after(s0, 2),
                ).1
                &&& crate::elgamal::spec_decrypt(
                    group_secret_params.uid_enc_key_pair.secret,
                    ct.e1,
                    ct.e2,
                ) == fmul(ua, GEN_G)
            }),
    {
        let mut sho = Sho::new(LABEL_CREATE_AUTH_PRESENTATION_V2, &randomness);
        proof {
            crate::sho::lemma_sho_state_unroll(sho.state);
            crate::sho::lemma_sho_state_compose(sho.state, 1, 1);
        }
        let uid_attr = attr_scalar(auth_credential.uid_bytes.as_slice());
        let uuid_ciphertext = group_secret_params.uid_enc_key_pair.encrypt(
            sc_mul(uid_attr, GEN_G),
            &mut sho,
        );
        proof {
            crate::elgamal::lemma_encrypt_decrypt(
                group_secret_params.uid_enc_key_pair,
                fmul(uid_attr, GEN_G),
                uuid_ciphertext.r,
            );
        }
        let proof = AuthCredentialPresentationProof::new(
            LABEL_PRESENTATION_AUTH_V2,
            &self.auth_credentials_public_key,
            group_secret_params.uid_enc_key_pair.public,
            auth_credential.credential,
            uid_attr,
            auth_credential.redemption_time as u64,
            0,
            &uuid_ciphertext,
            &mut sho,
        );
        AuthCredentialPresentationV2 {
            version: [PRESENTATION_VERSION_2],
            proof,
            ciphertext: uuid_ciphertext.get_ciphertext(),
            redemption_time: auth_credential.redemption_time,
        }
    }

    /// Build a profile key issuance request context.
    pub fn create_profile_key_credential_request_context(
        &self,
        randomness: RandomnessBytes,
        uid_bytes: UidBytes,
        profile_key: ProfileKey,
    ) -> (r: ProfileKeyCredentialRequestContext)
        requires
            server_public_params_wf(*self),
        ensures
            pk_request_context_wf(r),
            r.uid_bytes == uid_bytes,
            r.profile_key_bytes == profile_key.bytes,
            r.reserved == [0u8],
            ({
                let s0 = operation_stream(LABEL_CREATE_PROFILE_KEY_REQUEST_CONTEXT, randomness);
                let m = spec_attr_scalar(profile_key.bytes@);
                let j = spec_commitment_nonce(profile_key.bytes@, uid_bytes@);
                &&& r.key_pair == crate::elgamal::spec_keypair_generate(s0)
                &&& r.ciphertext_with_secret_nonce == crate::elgamal::spec_encrypt(
                    r.key_pair.public,
                    fmul(m, GEN_G),
                    spec_sho_nonzero_scalar(spec_sho_state_after(s0, 1)),
                )
                &&& r.proof.pok.challenge == spec_prove(
                    crate::request_proof::LABEL_REQUEST_PROOF,
                    request_rows(r.key_pair.public),
                    request_publics(
                        r.key_pair.public,
                        r.ciphertext_with_secret_nonce.e1,
                        r.ciphertext_with_secret_nonce.e2,
                        commitment_point(m, j),
                    ),
                    seq![r.key_pair.secret, r.ciphertext_with_secret_nonce.r, m, j],
                    spec_sho_state_after(s0, 2),
                ).0
                &&& r.proof.pok.responses@ == spec_prove(
                    crate::request_proof::LABEL_REQUEST_PROOF,
                    request_rows(r.key_pair.public),
                    request_publics(
                        r.key_pair.public,
                        r.ciphertext_with_secret_nonce.e1,
                        r.ciphertext_with_secret_nonce.e2,
                        commitment_point(m, j),
                    ),
                    seq![r.key_pair.secret, r.ciphertext_with_secret_nonce.r, m, j],
                    spec_sho_state_after(s0, 2),
                ).1
            }),
    {
        let mut sho = Sho::new(LABEL_CREATE_PROFILE_KEY_REQUEST_CONTEXT, &randomness);
        proof {
            crate::sho::lemma_sho_state_unroll(sho.state);
        }
        let m = attr_scalar(profile_key.bytes.as_slice());
        let j = crate::encoding::commitment_nonce(
            profile_key.bytes.as_slice(),
            uid_bytes.as_slice(),
        );
        let commitment = CommitmentWithSecretNonce::new(m, j);
        let key_pair = elgamal::EncryptionKeyPair::generate(&mut sho);
        let ciphertext_with_secret_nonce = key_pair.encrypt(sc_mul(m, GEN_G), &mut sho);
        let proof = ProfileKeyCredentialRequestProof::new(
            &key_pair,
            &ciphertext_with_secret_nonce,
            m,
            &commitment,
            &mut sho,
        );
        ProfileKeyCredentialRequestContext {
            reserved: [0],
            uid_bytes,
            profile_key_bytes: profile_key.bytes,
            key_pair,
            ciphertext_with_secret_nonce,
            proof,
        }
    }

    /// Build a third-family issuance request context.
    pub fn create_profile_key_credential_v3_request_context(
        &self,
        randomness: RandomnessBytes,
        uid_bytes: UidBytes,
        profile_key: ProfileKey,
    ) -> (r: ProfileKeyCredentialV3RequestContext)
        requires
            server_public_params_wf(*self),
        ensures
            pkv3_request_context_wf(r),
            r.uid_bytes == uid_bytes,
            r.profile_key_bytes == profile_key.bytes,
            r.reserved == [0u8],
            ({
                let s0 = operation_stream(LABEL_CREATE_PROFILE_KEY_V3_REQUEST_CONTEXT, randomness);
                let m = spec_attr_scalar(profile_key.bytes@);
                let j = spec_commitment_nonce(profile_key.bytes@, uid_bytes@);
                &&& r.key_pair == crate::elgamal::spec_keypair_generate(s0)
                &&& r.ciphertext_with_secret_nonce == crate::elgamal::spec_encrypt(
                    r.key_pair.public,
                    fmul(m, GEN_G),
                    spec_sho_nonzero_scalar(spec_sho_state_after(s0, 1)),
                )
                &&& r.proof.pok.challenge == spec_prove(
                    crate::request_proof::LABEL_REQUEST_PROOF,
                    request_rows(r.key_pair.public),
                    request_publics(
                        r.key_pair.public,
                        r.ciphertext_with_secret_nonce.e1,
                        r.ciphertext_with_secret_nonce.e2,
                        commitment_point(m, j),
                    ),
                    seq![r.key_pair.secret, r.ciphertext_with_secret_nonce.r, m, j],
                    spec_sho_state_after(s0, 2),
                ).0
                &&& r.proof.pok.responses@ == spec_prove(
                    crate::request_proof::LABEL_REQUEST_PROOF,
                    request_rows(r.key_pair.public),
                    request_publics(
                        r.key_pair.public,
                        r.ciphertext_with_secret_nonce.e1,
                        r.ciphertext_with_secret_nonce.e2,
                        commitment_point(m, j),
                    ),
                    seq![r.key_pair.secret, r.ciphertext_with_secret_nonce.r, m, j],
                    spec_sho_state_after(s0, 2),
                ).1
            }),
    {
        let mut sho = Sho::new(LABEL_CREATE_PROFILE_KEY_V3_REQUEST_CONTEXT, &randomness);
        proof {
            crate::sho::lemma_sho_state_unroll(sho.state);
        }
        let m = attr_scalar(profile_key.bytes.as_slice());
        let j = crate::encoding::commitment_nonce(
            profile_key.bytes.as_slice(),
            uid_bytes.as_slice(),
        );
        let commitment = CommitmentWithSecretNonce::new(m, j);
        let key_pair = elgamal::EncryptionKeyPair::generate(&mut sho);
        let ciphertext_with_secret_nonce = key_pair.encrypt(sc_mul(m, GEN_G), &mut sho);
        let proof = ProfileKeyCredentialRequestProof::new(
            &key_pair,
            &ciphertext_with_secret_nonce,
            m,
            &commitment,
            &mut sho,
        );
        ProfileKeyCredentialV3RequestContext {
            reserved: [0],
            uid_bytes,
            profile_key_bytes: profile_key.bytes,
            key_pair,
            ciphertext_with_secret_nonce,
            proof,
        }
    }

    /// Build a PNI issuance request context: the encryption and request
    /// proof are exactly those of a profile key request, with the PNI
    /// added alongside.
    pub fn create_pni_credential_request_context(
        &self,
        randomness: RandomnessBytes,
        aci_bytes: UidBytes,
        pni_bytes: UidBytes,
        profile_key: ProfileKey,
    ) -> (r: PniCredentialRequestContext)
        requires
            server_public_params_wf(*self),
        ensures
            pni_request_context_wf(r),
            r.aci_bytes == aci_bytes,
            r.pni_bytes == pni_bytes,
            r.profile_key_bytes == profile_key.bytes,
            r.reserved == [0u8],
            ({
                let s0 = operation_stream(LABEL_CREATE_PROFILE_KEY_REQUEST_CONTEXT, randomness);
                let m = spec_attr_scalar(profile_key.bytes@);
                let j = spec_commitment_nonce(profile_key.bytes@, aci_bytes@);
                &&& r.key_pair == crate::elgamal::spec_keypair_generate(s0)
                &&& r.ciphertext_with_secret_nonce == crate::elgamal::spec_encrypt(
                    r.key_pair.public,
                    fmul(m, GEN_G),
                    spec_sho_nonzero_scalar(spec_sho_state_after(s0, 1)),
                )
                &&& r.proof.pok.challenge == spec_prove(
                    crate::request_proof::LABEL_REQUEST_PROOF,
                    request_rows(r.key_pair.public),
                    request_publics(
                        r.key_pair.public,
                        r.ciphertext_with_secret_nonce.e1,
                        r.ciphertext_with_secret_nonce.e2,
                        commitment_point(m, j),
                    ),
                    seq![r.key_pair.secret, r.ciphertext_with_secret_nonce.r, m, j],
                    spec_sho_state_after(s0, 2),
                ).0
                &&& r.proof.pok.responses@ == spec_prove(
                    crate::request_proof::LABEL_REQUEST_PROOF,
                    request_rows(r.key_pair.public),
                    request_publics(
                        r.key_pair.public,
                        r.ciphertext_with_secret_nonce.e1,
                        r.ciphertext_with_secret_nonce.e2,
                        commitment_point(m, j),
                    ),
                    seq![r.key_pair.secret, r.ciphertext_with_secret_nonce.r, m, j],
                    spec_sho_state_after(s0, 2),
                ).1
            }),
    {
        let profile_key_request_context = self.create_profile_key_credential_request_context(
            randomness,
            aci_bytes,
            profile_key,
        );
        PniCredentialRequestContext {
            reserved: [0],
            aci_bytes,
            pni_bytes,
            profile_key_bytes: profile_key_request_context.profile_key_bytes,
            key_pair: profile_key_request_context.key_pair,
            ciphertext_with_secret_nonce: profile_key_request_context.ciphertext_with_secret_nonce,
            proof: profile_key_request_context.proof,
        }
    }

    /// Check an issuer's blinded response and unblind the credential.
    pub fn receive_profile_key_credential(
        &self,
        context: &ProfileKeyCredentialRequestContext,
        response: &ProfileKeyCredentialResponse,
    ) -> (r: Result<ProfileKeyCredential, ZkGroupVerificationFailure>)
        requires
            server_public_params_wf(*self),
            pk_request_context_wf(*context),
        ensures
            r is Ok <==> spec_blinded_issuance_verifies(
                LABEL_ISSUANCE_PROFILE_KEY,
                self.profile_key_credentials_public_key,
                context.key_pair.public,
                context.ciphertext_with_secret_nonce.e1,
                context.ciphertext_with_secret_nonce.e2,
                spec_attr_scalar(context.uid_bytes@),
                0,
                response.blinded_credential,
                response.proof.y_point,
                response.proof.pok.challenge,
                response.proof.pok.responses@,
            ) && response.blinded_credential.u_point != 0,
            r matches Ok(c) ==> c.credential.u_point == response.blinded_credential.u_point
                && c.credential.v_point == elgamal::spec_decrypt(
                context.key_pair.secret,
                response.blinded_credential.s1,
                response.blinded_credential.s2,
            ) && c.uid_bytes == context.uid_bytes && c.profile_key_bytes
                == context.profile_key_bytes && profile_key_credential_wf(c),
    {
        let uid_attr = attr_scalar(context.uid_bytes.as_slice());
        let check = response.proof.verify(
            &self.profile_key_credentials_public_key,
            context.key_pair.public,
            context.ciphertext_with_secret_nonce.get_ciphertext(),
            uid_attr,
            response.blinded_credential,
        );
        if check.is_err() {
            return Err(ZkGroupVerificationFailure);
        }
        if response.blinded_credential.u_point == 0 {
            return Err(ZkGroupVerificationFailure);
        }
        let credential = decrypt_blinded_credential(
            &context.key_pair,
            &response.blinded_credential,
        );
        Ok(ProfileKeyCredential {
            reserved: [0],
            credential,
            uid_bytes: context.uid_bytes,
            profile_key_bytes: context.profile_key_bytes,
        })
    }

    /// Check and unblind a third-family response.
    pub fn receive_profile_key_credential_v3(
        &self,
        context: &ProfileKeyCredentialV3RequestContext,
        response: &ProfileKeyCredentialV3Response,
    ) -> (r: Result<ProfileKeyCredentialV3, ZkGroupVerificationFailure>)
        requires
            server_public_params_wf(*self),
            pkv3_request_context_wf(*context),
        ensures
            r is Ok <==> spec_blinded_issuance_verifies(
                LABEL_ISSUANCE_PROFILE_KEY_V3,
                self.profile_key_credentials_v3_public_key,
                context.key_pair.public,
                context.ciphertext_with_secret_nonce.e1,
                context.ciphertext_with_secret_nonce.e2,
                spec_attr_scalar(context.uid_bytes@),
                0,
                response.blinded_credential,
                response.proof.y_point,
                response.proof.pok.challenge,
                response.proof.pok.responses@,
            ) && response.blinded_credential.u_point != 0,
            r matches Ok(c) ==> c.credential.u_point == response.blinded_credential.u_point
                && c.credential.v_point == elgamal::spec_decrypt(
                context.key_pair.secret,
                response.blinded_credential.s1,
                response.blinded_credential.s2,
            ) && c.uid_bytes == context.uid_bytes && c.profile_key_bytes
                == context.profile_key_bytes && profile_key_credential_v3_wf(c),
    {
        let uid_attr = attr_scalar(context.uid_bytes.as_slice());
        let check = response.proof.verify(
            &self.profile_key_credentials_v3_public_key,
            context.key_pair.public,
            context.ciphertext_with_secret_nonce.get_ciphertext(),
            uid_attr,
            response.blinded_credential,
        );
        if check.is_err() {
            return Err(ZkGroupVerificationFailure);
        }
        if response.blinded_credential.u_point == 0 {
            return Err(ZkGroupVerificationFailure);
        }
        let credential = decrypt_blinded_credential(
            &context.key_pair,
            &response.blinded_credential,
        );
        Ok(ProfileKeyCredentialV3 {
            reserved: [0],
            credential,
            uid_bytes: context.uid_bytes,
            profile_key_bytes: context.profile_key_bytes,
        })
    }

    /// Check and unblind a PNI response.
    pub fn receive_pni_credential(
        &self,
        context: &PniCredentialRequestContext,
        response: &PniCredentialResponse,
    ) -> (r: Result<PniCredential, ZkGroupVerificationFailure>)
        requires
            server_public_params_wf(*self),
            pni_request_context_wf(*context),
        ensures
            r is Ok <==> spec_blinded_issuance_verifies(
                LABEL_ISSUANCE_PNI,
                self.pni_credentials_public_key,
                context.key_pair.public,
                context.ciphertext_with_secret_nonce.e1,
                context.ciphertext_with_secret_nonce.e2,
                spec_attr_scalar(context.aci_bytes@),
                spec_attr_scalar(context.pni_bytes@),
                response.blinded_credential,
                response.proof.y_point,
                response.proof.pok.challenge,
                response.proof.pok.responses@,
            ) && response.blinded_credential.u_point != 0,
            r matches Ok(c) ==> c.credential.u_point == response.blinded_credential.u_point
                && c.credential.v_point == elgamal::spec_decrypt(
                context.key_pair.secret,
                response.blinded_credential.s1,
                response.blinded_credential.s2,
            ) && c.aci_bytes == context.aci_bytes && c.pni_bytes == context.pni_bytes
                && c.profile_key_bytes == context.profile_key_bytes && pni_credential_wf(c),
    {
        let aci_attr = attr_scalar(context.aci_bytes.as_slice());
        let pni_attr = attr_scalar(context.pni_bytes.as_slice());
        let check = response.proof.verify(
            &self.pni_credentials_public_key,
            context.key_pair.public,
            context.ciphertext_with_secret_nonce.get_ciphertext(),
            aci_attr,
            pni_attr,
            response.blinded_credential,
        );
        if check.is_err() {
            return Err(ZkGroupVerificationFailure);
        }
        if response.blinded_credential.u_point == 0 {
            return Err(ZkGroupVerificationFailure);
        }
        let credential = decrypt_blinded_credential(
            &context.key_pair,
            &response.blinded_credential,
        );
        Ok(PniCredential {
            reserved: [0],
            credential,
            aci_bytes: context.aci_bytes,
            pni_bytes: context.pni_bytes,
            profile_key_bytes: context.profile_key_bytes,
        })
    }

    /// Present a profile key credential at the current version.
    pub fn create_profile_key_credential_presentation(
        &self,
        randomness: RandomnessBytes,
        group_secret_params: GroupSecretParams,
        profile_key_credential: ProfileKeyCredential,
    ) -> (r: AnyProfileKeyCredentialPresentation)
        requires
            server_public_params_wf(*self),
            group_secret_params_wf(group_secret_params),
            profile_key_credential_wf(profile_key_credential),
        ensures
            r matches AnyProfileKeyCredentialPresentation::V2(p) ==> ({
                &&& p.version == [PRESENTATION_VERSION_2]
                &&& ({
                let s0 = operation_stream(LABEL_CREATE_PROFILE_KEY_PRESENTATION_V2, randomness);
                let ua = spec_attr_scalar(profile_key_credential.uid_bytes@);
                let pa = spec_attr_scalar(profile_key_credential.profile_key_bytes@);
                let ct1 = crate::elgamal::spec_encrypt(
                    group_secret_params.profile_key_enc_key_pair.public,
                    fmul(pa, GEN_G),
                    spec_sho_nonzero_scalar(s0),
                );
                let ct2 = crate::elgamal::spec_encrypt(
                    group_secret_params.uid_enc_key_pair.public,
                    fmul(ua, GEN_G),
                    spec_sho_nonzero_scalar(spec_sho_state_after(s0, 1)),
                );
                let z = spec_sho_scalar(spec_sho_state_after(s0, 2));
                let ip = self.profile_key_credentials_public_key.i_point;
                &&& p.profile_key_enc_ciphertext == crate::elgamal::Ciphertext {
                    e1: ct1.e1,
                    e2: ct1.e2,
                }
                &&& p.uid_enc_ciphertext == crate::elgamal::Ciphertext { e1: ct2.e1, e2: ct2.e2 }
                &&& p.proof.commitments == crate::presentation_proofs::honest_commitments(z, profile_key_credential.credential, pa, ua, 0)
                &&& p.proof.pok.challenge == spec_prove(
                    LABEL_PRESENTATION_PROFILE_KEY_V2,
                    crate::presentation_proofs::pres2_rows(
                        ip,
                        profile_key_credential.credential.u_point,
                        group_secret_params.profile_key_enc_key_pair.public,
                        group_secret_params.uid_enc_key_pair.public,
                    ),
                    crate::presentation_proofs::pres2_publics(
                        fmul(z, ip),
                        crate::presentation_proofs::honest_commitments(z, profile_key_credential.credential, pa, ua, 0),
                        0,
                        ct1.e1,
                        ct1.e2,
                        ct2.e1,
                        ct2.e2,
                    ),
                    seq![z, pa, ua, 0u64, ct1.r, ct2.r, 0u64],
                    spec_sho_state_after(s0, 3),
                ).0
                &&& p.proof.pok.responses@ == spec_prove(
                    LABEL_PRESENTATION_PROFILE_KEY_V2,
                    crate::presentation_proofs::pres2_rows(
                        ip,
                        profile_key_credential.credential.u_point,
                        group_secret_params.profile_key_enc_key_pair.public,
                        group_secret_params.uid_enc_key_pair.public,
                    ),
                    crate::presentation_proofs::pres2_publics(
                        fmul(z, ip),
                        crate::presentation_proofs::honest_commitments(z, profile_key_credential.credential, pa, ua, 0),
                        0,
                        ct1.e1,
                        ct1.e2,
                        ct2.e1,
                        ct2.e2,
                    ),
                    seq![z, pa, ua, 0u64, ct1.r, ct2.r, 0u64],
                    spec_sho_state_after(s0, 3),
                ).1
                &&& crate::elgamal::spec_decrypt(
                    group_secret_params.profile_key_enc_key_pair.secret,
                    ct1.e1,
                    ct1.e2,
                ) == fmul(pa, GEN_G)
                &&& crate::elgamal::spec_decrypt(
                    group_secret_params.uid_enc_key_pair.secret,
                    ct2.e1,
                    ct2.e2,
                ) == fmul(ua, GEN_G)
            })
            }),
            r is V2,
            r matches AnyProfileKeyCredentialPresentation::V2(p) ==> forall|
                kp: CredentialKeyPair,
            |
                keypair_wf(kp) && kp.public_key == self.profile_key_credentials_public_key
                    && credential_valid(
                    kp,
                    profile_key_credential.credential,
                    spec_attr_scalar(profile_key_credential.profile_key_bytes@),
                    spec_attr_scalar(profile_key_credential.uid_bytes@),
                    0,
                ) ==> spec_pres2_accepts(
                    LABEL_PRESENTATION_PROFILE_KEY_V2,
                    kp,
                    group_secret_params.profile_key_enc_key_pair.public,
                    group_secret_params.uid_enc_key_pair.public,
                    0,
                    p.profile_key_enc_ciphertext,
                    p.uid_enc_ciphertext,
                    p.proof.commitments,
                    p.proof.pok.challenge,
                    p.proof.pok.responses@,
                ),
    {
        let presentation_v2 = self.create_profile_key_credential_presentation_v2(
            randomness,
            group_secret_params,
            profile_key_credential,
        );
        AnyProfileKeyCredentialPresentation::V2(presentation_v2)
    }

    /// Present a profile key credential at the first version.
    #[verifier::rlimit(100)]
    #[verifier::spinoff_prover]
    pub fn create_profile_key_credential_presentation_v1(
        &self,
        randomness: RandomnessBytes,
        group_secret_params: GroupSecretParams,
        profile_key_credential: ProfileKeyCredential,
    ) -> (r: ProfileKeyCredentialPresentationV1)
        requires
            server_public_params_wf(*self),
            group_secret_params_wf(group_secret_params),
            profile_key_credential_wf(profile_key_credential),
        ensures
            forall|kp: CredentialKeyPair|
                keypair_wf(kp) && kp.public_key == self.profile_key_credentials_public_key
                    && credential_valid(
                    kp,
                    profile_key_credential.credential,
                    spec_attr_scalar(profile_key_credential.profile_key_bytes@),
                    spec_attr_scalar(profile_key_credential.uid_bytes@),
                    0,
                ) ==> spec_pres2_accepts(
                    LABEL_PRESENTATION_PROFILE_KEY_V1,
                    kp,
                    group_secret_params.profile_key_enc_key_pair.public,
                    group_secret_params.uid_enc_key_pair.public,
                    0,
                    r.profile_key_enc_ciphertext,
                    r.uid_enc_ciphertext,
                    r.proof.commitments,
                    r.proof.pok.challenge,
                    r.proof.pok.responses@,
                ),
            r.reserved == [PRESENTATION_VERSION_1],
            ({
                let s0 = operation_stream(LABEL_CREATE_PROFILE_KEY_PRESENTATION_V1, randomness);
                let ua = spec_attr_scalar(profile_key_credential.uid_bytes@);
                let pa = spec_attr_scalar(profile_key_credential.profile_key_bytes@);
                let ct1 = crate::elgamal::spec_encrypt(
                    group_secret_params.profile_key_enc_key_pair.public,
                    fmul(pa, GEN_G),
                    spec_sho_nonzero_scalar(s0),
                );
                let ct2 = crate::elgamal::spec_encrypt(
                    group_secret_params.uid_enc_key_pair.public,
                    fmul(ua, GEN_G),
                    spec_sho_nonzero_scalar(spec_sho_state_after(s0, 1)),
                );
                let z = spec_sho_scalar(spec_sho_state_after(s0, 2));
                let ip = self.profile_key_credentials_public_key.i_point;
                &&& r.profile_key_enc_ciphertext == crate::elgamal::Ciphertext {
                    e1: ct1.e1,
                    e2: ct1.e2,
                }
                &&& r.uid_enc_ciphertext == crate::elgamal::Ciphertext { e1: ct2.e1, e2: ct2.e2 }
                &&& r.proof.commitments == crate::presentation_proofs::honest_commitments(z, profile_key_credential.credential, pa, ua, 0)
                &&& r.proof.pok.challenge == spec_prove(
                    LABEL_PRESENTATION_PROFILE_KEY_V1,
                    crate::presentation_proofs::pres2_rows(
                        ip,
                        profile_key_credential.credential.u_point,
                        group_secret_params.profile_key_enc_key_pair.public,
                        group_secret_params.uid_enc_key_pair.public,
                    ),
                    crate::presentation_proofs::pres2_publics(
                        fmul(z, ip),
                        crate::presentation_proofs::honest_commitments(z, profile_key_credential.credential, pa, ua, 0),
                        0,
                        ct1.e1,
                        ct1.e2,
                        ct2.e1,
                        ct2.e2,
                    ),
                    seq![z, pa, ua, 0u64, ct1.r, ct2.r, 0u64],
                    spec_sho_state_after(s0, 3),
                ).0
                &&& r.proof.pok.responses@ == spec_prove(
                    LABEL_PRESENTATION_PROFILE_KEY_V1,
                    crate::presentation_proofs::pres2_rows(
                        ip,
                        profile_key_credential.credential.u_point,
                        group_secret_params.profile_key_enc_key_pair.public,
                        group_secret_params.uid_enc_key_pair.public,
                    ),
                    crate::presentation_proofs::pres2_publics(
                        fmul(z, ip),
                        crate::presentation_proofs::honest_commitments(z, profile_key_credential.credential, pa, ua, 0),
                        0,
                        ct1.e1,
                        ct1.e2,
                        ct2.e1,
                        ct2.e2,
                    ),
                    seq![z, pa, ua, 0u64, ct1.r, ct2.r, 0u64],
                    spec_sho_state_after(s0, 3),
                ).1
                &&& crate::elgamal::spec_decrypt(
                    group_secret_params.profile_key_enc_key_pair.secret,
                    ct1.e1,
                    ct1.e2,
                ) == fmul(pa, GEN_G)
                &&& crate::elgamal::spec_decrypt(
                    group_secret_params.uid_enc_key_pair.secret,
                    ct2.e1,
                    ct2.e2,
                ) == fmul(ua, GEN_G)
            }),
    {
        let mut sho = Sho::new(LABEL_CREATE_PROFILE_KEY_PRESENTATION_V1, &randomness);
        proof {
            crate::sho::lemma_sho_state_unroll(sho.state);
            crate::sho::lemma_sho_state_compose(sho.state, 1, 1);
            crate::sho::lemma_sho_state_compose(sho.state, 2, 1);
        }
        let uid_attr = attr_scalar(profile_key_credential.uid_bytes.as_slice());
        let pk_attr = attr_scalar(profile_key_credential.profile_key_bytes.as_slice());
        let pk_ciphertext = group_secret_params.profile_key_enc_key_pair.encrypt(
            sc_mul(pk_attr, GEN_G),
            &mut sho,
        );
        let uuid_ciphertext = group_secret_params.uid_enc_key_pair.encrypt(
            sc_mul(uid_attr, GEN_G),
            &mut sho,
        );
        proof {
            crate::elgamal::lemma_encrypt_decrypt(
                group_secret_params.profile_key_enc_key_pair,
                fmul(pk_attr, GEN_G),
                pk_ciphertext.r,
            );
            crate::elgamal::lemma_encrypt_decrypt(
                group_secret_params.uid_enc_key_pair,
                fmul(uid_attr, GEN_G),
                uuid_ciphertext.r,
            );
        }
        let proof = ProfileKeyCredentialPresentationProof::new(
            LABEL_PRESENTATION_PROFILE_KEY_V1,
            &self.profile_key_credentials_public_key,
            group_secret_params.profile_key_enc_key_pair.public,
            group_secret_params.uid_enc_key_pair.public,
            profile_key_credential.credential,
            pk_attr,
            uid_attr,
            0,
            &pk_ciphertext,
            &uuid_ciphertext,
            &mut sho,
        );
        ProfileKeyCredentialPresentationV1 {
            reserved: [PRESENTATION_VERSION_1],
            proof,
            uid_enc_ciphertext: uuid_ciphertext.get_ciphertext(),
            profile_key_enc_ciphertext: pk_ciphertext.get_ciphertext(),
        }
    }

    /// Present a profile key credential at the second version.
    #[verifier::rlimit(100)]
    #[verifier::spinoff_prover]
    pub fn create_profile_key_credential_presentation_v2(
        &self,
        randomness: RandomnessBytes,
        group_secret_params: GroupSecretParams,
        profile_key_credential: ProfileKeyCredential,
    ) -> (r: ProfileKeyCredentialPresentationV2)
        requires
            server_public_params_wf(*self),
            group_secret_params_wf(group_secret_params),
            profile_key_credential_wf(profile_key_credential),
        ensures
            forall|kp: CredentialKeyPair|
                keypair_wf(kp) && kp.public_key == self.profile_key_credentials_public_key
                    && credential_valid(
                    kp,
                    profile_key_credential.credential,
                    spec_attr_scalar(profile_key_credential.profile_key_bytes@),
                    spec_attr_scalar(profile_key_credential.uid_bytes@),
                    0,
                ) ==> spec_pres2_accepts(
                    LABEL_PRESENTATION_PROFILE_KEY_V2,
                    kp,
                    group_secret_params.profile_key_enc_key_pair.public,
                    group_secret_params.uid_enc_key_pair.public,
                    0,
                    r.profile_key_enc_ciphertext,
                    r.uid_enc_ciphertext,
                    r.proof.commitments,
                    r.proof.pok.challenge,
                    r.proof.pok.responses@,
                ),
            r.version == [PRESENTATION_VERSION_2],
            ({
                let s0 = operation_stream(LABEL_CREATE_PROFILE_KEY_PRESENTATION_V2, randomness);
                let ua = spec_attr_scalar(profile_key_credential.uid_bytes@);
                let pa = spec_attr_scalar(profile_key_credential.profile_key_bytes@);
                let ct1 = crate::elgamal::spec_encrypt(
                    group_secret_params.profile_key_enc_key_pair.public,
                    fmul(pa, GEN_G),
                    spec_sho_nonzero_scalar(s0),
                );
                let ct2 = crate::elgamal::spec_encrypt(
                    group_secret_params.uid_enc_key_pair.public,
                    fmul(ua, GEN_G),
                    spec_sho_nonzero_scalar(spec_sho_state_after(s0, 1)),
                );
                let z = spec_sho_scalar(spec_sho_state_after(s0, 2));
                let ip = self.profile_key_credentials_public_key.i_point;
                &&& r.profile_key_enc_ciphertext == crate::elgamal::Ciphertext {
                    e1: ct1.e1,
                    e2: ct1.e2,
                }
                &&& r.uid_enc_ciphertext == crate::elgamal::Ciphertext { e1: ct2.e1, e2: ct2.e2 }
                &&& r.proof.commitments == crate::presentation_proofs::honest_commitments(z, profile_key_credential.credential, pa, ua, 0)
                &&& r.proof.pok.challenge == spec_prove(
                    LABEL_PRESENTATION_PROFILE_KEY_V2,
                    crate::presentation_proofs::pres2_rows(
                        ip,
                        profile_key_credential.credential.u_point,
                        group_secret_params.profile_key_enc_key_pair.public,
                        group_secret_params.uid_enc_key_pair.public,
                    ),
                    crate::presentation_proofs::pres2_publics(
                        fmul(z, ip),
                        crate::presentation_proofs::honest_commitments(z, profile_key_credential.credential, pa, ua, 0),
                        0,
                        ct1.e1,
                        ct1.e2,
                        ct2.e1,
                        ct2.e2,
                    ),
                    seq![z, pa, ua, 0u64, ct1.r, ct2.r, 0u64],
                    spec_sho_state_after(s0, 3),
                ).0
                &&& r.proof.pok.responses@ == spec_prove(
                    LABEL_PRESENTATION_PROFILE_KEY_V2,
                    crate::presentation_proofs::pres2_rows(
                        ip,
                        profile_key_credential.credential.u_point,
                        group_secret_params.profile_key_enc_key_pair.public,
                        group_secret_params.uid_enc_key_pair.public,
                    ),
                    crate::presentation_proofs::pres2_publics(
                        fmul(z, ip),
                        crate::presentation_proofs::honest_commitments(z, profile_key_credential.credential, pa, ua, 0),
                        0,
                        ct1.e1,
                        ct1.e2,
                        ct2.e1,
                        ct2.e2,
                    ),
                    seq![z, pa, ua, 0u64, ct1.r, ct2.r, 0u64],
                    spec_sho_state_after(s0, 3),
                ).1
                &&& crate::elgamal::spec_decrypt(
                    group_secret_params.profile_key_enc_key_pair.secret,
                    ct1.e1,
                    ct1.e2,
                ) == fmul(pa, GEN_G)
                &&& crate::elgamal::spec_decrypt(
                    group_secret_params.uid_enc_key_pair.secret,
                    ct2.e1,
                    ct2.e2,
                ) == fmul(ua, GEN_G)
            }),
    {
        let mut sho = Sho::new(LABEL_CREATE_PROFILE_KEY_PRESENTATION_V2, &randomness);
        proof {
            crate::sho::lemma_sho_state_unroll(sho.state);
            crate::sho::lemma_sho_state_compose(sho.state, 1, 1);
            crate::sho::lemma_sho_state_compose(sho.state, 2, 1);
        }
        let uid_attr = attr_scalar(profile_key_credential.uid_bytes.as_slice());
        let pk_attr = attr_scalar(profile_key_credential.profile_key_bytes.as_slice());
        let pk_ciphertext = group_secret_params.profile_key_enc_key_pair.encrypt(
            sc_mul(pk_attr, GEN_G),
            &mut sho,
        );
        let uuid_ciphertext = group_secret_params.uid_enc_key_pair.encrypt(
            sc_mul(uid_attr, GEN_G),
            &mut sho,
        );
        proof {
            crate::elgamal::lemma_encrypt_decrypt(
                group_secret_params.profile_key_enc_key_pair,
                fmul(pk_attr, GEN_G),
                pk_ciphertext.r,
            );
            crate::elgamal::lemma_encrypt_decrypt(
                group_secret_params.uid_enc_key_pair,
                fmul(uid_attr, GEN_G),
                uuid_ciphertext.r,
            );
        }
        let proof = ProfileKeyCredentialPresentationProof::new(
            LABEL_PRESENTATION_PROFILE_KEY_V2,
            &self.profile_key_credentials_public_key,
            group_secret_params.profile_key_enc_key_pair.public,
            group_secret_params.uid_enc_key_pair.public,
            profile_key_credential.credential,
            pk_attr,
            uid_attr,
            0,
            &pk_ciphertext,
            &uuid_ciphertext,
            &mut sho,
        );
        ProfileKeyCredentialPresentationV2 {
            version: [PRESENTATION_VERSION_2],
            proof,
            uid_enc_ciphertext: uuid_ciphertext.get_ciphertext(),
            profile_key_enc_ciphertext: pk_ciphertext.get_ciphertext(),
        }
    }

    /// Present a third-family profile key credential.
    #[verifier::rlimit(100)]
    #[verifier::spinoff_prover]
    pub fn create_profile_key_credential_v3_presentation(
        &self,
        randomness: RandomnessBytes,
        group_secret_params: GroupSecretParams,
        profile_key_credential_v3: ProfileKeyCredentialV3,
    ) -> (r: ProfileKeyCredentialV3Presentation)
        requires
            server_public_params_wf(*self),
            group_secret_params_wf(group_secret_params),
            profile_key_credential_v3_wf(profile_key_credential_v3),
        ensures
            forall|kp: CredentialKeyPair|
                keypair_wf(kp) && kp.public_key == self.profile_key_credentials_v3_public_key
                    && credential_valid(
                    kp,
                    profile_key_credential_v3.credential,
                    spec_attr_scalar(profile_key_credential_v3.profile_key_bytes@),
                    spec_attr_scalar(profile_key_credential_v3.uid_bytes@),
                    0,
                ) ==> spec_pres2_accepts(
                    LABEL_PRESENTATION_PROFILE_KEY_V3,
                    kp,
                    group_secret_params.profile_key_enc_key_pair.public,
                    group_secret_params.uid_enc_key_pair.public,
                    0,
                    r.profile_key_enc_ciphertext,
                    r.uid_enc_ciphertext,
                    r.proof.commitments,
                    r.proof.pok.challenge,
                    r.proof.pok.responses@,
                ),
            r.version == [PROFILE_KEY_CREDENTIAL_VERSION_3],
            ({
                let s0 = operation_stream(LABEL_CREATE_PROFILE_KEY_PRESENTATION_V3, randomness);
                let ua = spec_attr_scalar(profile_key_credential_v3.uid_bytes@);
                let pa = spec_attr_scalar(profile_key_credential_v3.profile_key_bytes@);
                let ct1 = crate::elgamal::spec_encrypt(
                    group_secret_params.profile_key_enc_key_pair.public,
                    fmul(pa, GEN_G),
                    spec_sho_nonzero_scalar(s0),
                );
                let ct2 = crate::elgamal::spec_encrypt(
                    group_secret_params.uid_enc_key_pair.public,
                    fmul(ua, GEN_G),
                    spec_sho_nonzero_scalar(spec_sho_state_after(s0, 1)),
                );
                let z = spec_sho_scalar(spec_sho_state_after(s0, 2));
                let ip = self.profile_key_credentials_v3_public_key.i_point;
                &&& r.profile_key_enc_ciphertext == crate::elgamal::Ciphertext {
                    e1: ct1.e1,
                    e2: ct1.e2,
                }
                &&& r.uid_enc_ciphertext == crate::elgamal::Ciphertext { e1: ct2.e1, e2: ct2.e2 }
                &&& r.proof.commitments == crate::presentation_proofs::honest_commitments(z, profile_key_credential_v3.credential, pa, ua, 0)
                &&& r.proof.pok.challenge == spec_prove(
                    LABEL_PRESENTATION_PROFILE_KEY_V3,
                    crate::presentation_proofs::pres2_rows(
                        ip,
                        profile_key_credential_v3.credential.u_point,
                        group_secret_params.profile_key_enc_key_pair.public,
                        group_secret_params.uid_enc_key_pair.public,
                    ),
                    crate::presentation_proofs::pres2_publics(
                        fmul(z, ip),
                        crate::presentation_proofs::honest_commitments(z, profile_key_credential_v3.credential, pa, ua, 0),
                        0,
                        ct1.e1,
                        ct1.e2,
                        ct2.e1,
                        ct2.e2,
                    ),
                    seq![z, pa, ua, 0u64, ct1.r, ct2.r, 0u64],
                    spec_sho_state_after(s0, 3),
                ).0
                &&& r.proof.pok.responses@ == spec_prove(
                    LABEL_PRESENTATION_PROFILE_KEY_V3,
                    crate::presentation_proofs::pres2_rows(
                        ip,
                        profile_key_credential_v3.credential.u_point,
                        group_secret_params.profile_key_enc_key_pair.public,
                        group_secret_params.uid_enc_key_pair.public,
                    ),
                    crate::presentation_proofs::pres2_publics(
                        fmul(z, ip),
                        crate::presentation_proofs::honest_commitments(z, profile_key_credential_v3.credential, pa, ua, 0),
                        0,
                        ct1.e1,
                        ct1.e2,
                        ct2.e1,
                        ct2.e2,
                    ),
                    seq![z, pa, ua, 0u64, ct1.r, ct2.r, 0u64],
                    spec_sho_state_after(s0, 3),
                ).1
                &&& crate::elgamal::spec_decrypt(
                    group_secret_params.profile_key_enc_key_pair.secret,
                    ct1.e1,
                    ct1.e2,
                ) == fmul(pa, GEN_G)
                &&& crate::elgamal::spec_decrypt(
                    group_secret_params.uid_enc_key_pair.secret,
                    ct2.e1,
                    ct2.e2,
                ) == fmul(ua, GEN_G)
            }),
    {
        let mut sho = Sho::new(LABEL_CREATE_PROFILE_KEY_PRESENTATION_V3, &randomness);
        proof {
            crate::sho::lemma_sho_state_unroll(sho.state);
            crate::sho::lemma_sho_state_compose(sho.state, 1, 1);
            crate::sho::lemma_sho_state_compose(sho.state, 2, 1);
        }
        let uid_attr = attr_scalar(profile_key_credential_v3.uid_bytes.as_slice());
        let pk_attr = attr_scalar(profile_key_credential_v3.profile_key_bytes.as_slice());
        let pk_ciphertext = group_secret_params.profile_key_enc_key_pair.encrypt(
            sc_mul(pk_attr, GEN_G),
            &mut sho,
        );
        let uuid_ciphertext = group_secret_params.uid_enc_key_pair.encrypt(
            sc_mul(uid_attr, GEN_G),
            &mut sho,
        );
        proof {
            crate::elgamal::lemma_encrypt_decrypt(
                group_secret_params.profile_key_enc_key_pair,
                fmul(pk_attr, GEN_G),
                pk_ciphertext.r,
            );
            crate::elgamal::lemma_encrypt_decrypt(
                group_secret_params.uid_enc_key_pair,
                fmul(uid_attr, GEN_G),
                uuid_ciphertext.r,
            );
        }
        let proof = ProfileKeyCredentialPresentationProof::new(
            LABEL_PRESENTATION_PROFILE_KEY_V3,
            &self.profile_key_credentials_v3_public_key,
            group_secret_params.profile_key_enc_key_pair.public,
            group_secret_params.uid_enc_key_pair.public,
            profile_key_credential_v3.credential,
            pk_attr,
            uid_attr,
            0,
            &pk_ciphertext,
            &uuid_ciphertext,
            &mut sho,
        );
        ProfileKeyCredentialV3Presentation {
            version: [PROFILE_KEY_CREDENTIAL_VERSION_3],
            proof,
            uid_enc_ciphertext: uuid_ciphertext.get_ciphertext(),
            profile_key_enc_ciphertext: pk_ciphertext.get_ciphertext(),
        }
    }

    /// Present a PNI credential at the current version.
    pub fn create_pni_credential_presentation(
        &self,
        randomness: RandomnessBytes,
        group_secret_params: GroupSecretParams,
        pni_credential: PniCredential,
    ) -> (r: AnyPniCredentialPresentation)
        requires
            server_public_params_wf(*self),
            group_secret_params_wf(group_secret_params),
            pni_credential_wf(pni_credential),
        ensures
            r matches AnyPniCredentialPresentation::V2(p) ==> ({
                &&& p.version == [PRESENTATION_VERSION_2]
                &&& ({
                let s0 = operation_stream(LABEL_CREATE_PNI_PRESENTATION_V2, randomness);
                let aa = spec_attr_scalar(pni_credential.aci_bytes@);
                let na = spec_attr_scalar(pni_credential.pni_bytes@);
                let pa = spec_attr_scalar(pni_credential.profile_key_bytes@);
                let ct1 = crate::elgamal::spec_encrypt(
                    group_secret_params.profile_key_enc_key_pair.public,
                    fmul(pa, GEN_G),
                    spec_sho_nonzero_scalar(s0),
                );
                let ct2 = crate::elgamal::spec_encrypt(
                    group_secret_params.uid_enc_key_pair.public,
                    fmul(aa, GEN_G),
                    spec_sho_nonzero_scalar(spec_sho_state_after(s0, 1)),
                );
                let ct3 = crate::elgamal::spec_encrypt(
                    group_secret_params.uid_enc_key_pair.public,
                    fmul(na, GEN_G),
                    spec_sho_nonzero_scalar(spec_sho_state_after(s0, 2)),
                );
                let z = spec_sho_scalar(spec_sho_state_after(s0, 3));
                let ip = self.pni_credentials_public_key.i_point;
                &&& p.profile_key_enc_ciphertext == crate::elgamal::Ciphertext {
                    e1: ct1.e1,
                    e2: ct1.e2,
                }
                &&& p.aci_enc_ciphertext == crate::elgamal::Ciphertext { e1: ct2.e1, e2: ct2.e2 }
                &&& p.pni_enc_ciphertext == crate::elgamal::Ciphertext { e1: ct3.e1, e2: ct3.e2 }
                &&& p.proof.commitments == crate::presentation_proofs::honest_commitments(z, pni_credential.credential, pa, aa, na)
                &&& p.proof.pok.challenge == spec_prove(
                    LABEL_PRESENTATION_PNI_V2,
                    crate::presentation_proofs::pres3_rows(
                        ip,
                        pni_credential.credential.u_point,
                        group_secret_params.profile_key_enc_key_pair.public,
                        group_secret_params.uid_enc_key_pair.public,
                        group_secret_params.uid_enc_key_pair.public,
                    ),
                    crate::presentation_proofs::pres3_publics(
                        fmul(z, ip),
                        crate::presentation_proofs::honest_commitments(z, pni_credential.credential, pa, aa, na),
                        ct1.e1,
                        ct1.e2,
                        ct2.e1,
                        ct2.e2,
                        ct3.e1,
                        ct3.e2,
                    ),
                    seq![z, pa, aa, na, ct1.r, ct2.r, ct3.r],
                    spec_sho_state_after(s0, 4),
                ).0
                &&& p.proof.pok.responses@ == spec_prove(
                    LABEL_PRESENTATION_PNI_V2,
                    crate::presentation_proofs::pres3_rows(
                        ip,
                        pni_credential.credential.u_point,
                        group_secret_params.profile_key_enc_key_pair.public,
                        group_secret_params.uid_enc_key_pair.public,
                        group_secret_params.uid_enc_key_pair.public,
                    ),
                    crate::presentation_proofs::pres3_publics(
                        fmul(z, ip),
                        crate::presentation_proofs::honest_commitments(z, pni_credential.credential, pa, aa, na),
                        ct1.e1,
                        ct1.e2,
                        ct2.e1,
                        ct2.e2,
                        ct3.e1,
                        ct3.e2,
                    ),
                    seq![z, pa, aa, na, ct1.r, ct2.r, ct3.r],
                    spec_sho_state_after(s0, 4),
                ).1
                &&& crate::elgamal::spec_decrypt(
                    group_secret_params.profile_key_enc_key_pair.secret,
                    ct1.e1,
                    ct1.e2,
                ) == fmul(pa, GEN_G)
                &&& crate::elgamal::spec_decrypt(
                    group_secret_params.uid_enc_key_pair.secret,
                    ct2.e1,
                    ct2.e2,
                ) == fmul(aa, GEN_G)
                &&& crate::elgamal::spec_decrypt(
                    group_secret_params.uid_enc_key_pair.secret,
                    ct3.e1,
                    ct3.e2,
                ) == fmul(na, GEN_G)
            })
            }),
            r is V2,
            r matches AnyPniCredentialPresentation::V2(p) ==> forall|kp: CredentialKeyPair|
                keypair_wf(kp) && kp.public_key == self.pni_credentials_public_key
                    && credential_valid(
                    kp,
                    pni_credential.credential,
                    spec_attr_scalar(pni_credential.profile_key_bytes@),
                    spec_attr_scalar(pni_credential.aci_bytes@),
                    spec_attr_scalar(pni_credential.pni_bytes@),
                ) ==> spec_pres3_accepts(
                    LABEL_PRESENTATION_PNI_V2,
                    kp,
                    group_secret_params.profile_key_enc_key_pair.public,
                    group_secret_params.uid_enc_key_pair.public,
                    group_secret_params.uid_enc_key_pair.public,
                    p.profile_key_enc_ciphertext,
                    p.aci_enc_ciphertext,
                    p.pni_enc_ciphertext,
                    p.proof.commitments,
                    p.proof.pok.challenge,
                    p.proof.pok.responses@,
                ),
    {
        let presentation_v2 = self.create_pni_credential_presentation_v2(
            randomness,
            group_secret_params,
            pni_credential,
        );
        AnyPniCredentialPresentation::V2(presentation_v2)
    }

    /// Present a PNI credential at the first version.
    #[verifier::rlimit(100)]
    #[verifier::spinoff_prover]
    pub fn create_pni_credential_presentation_v1(
        &self,
        randomness: RandomnessBytes,
        group_secret_params: GroupSecretParams,
        pni_credential: PniCredential,
    ) -> (r: PniCredentialPresentationV1)
        requires
            server_public_params_wf(*self),
            group_secret_params_wf(group_secret_params),
            pni_credential_wf(pni_credential),
        ensures
            forall|kp: CredentialKeyPair|
                keypair_wf(kp) && kp.public_key == self.pni_credentials_public_key
                    && credential_valid(
                    kp,
                    pni_credential.credential,
                    spec_attr_scalar(pni_credential.profile_key_bytes@),
                    spec_attr_scalar(pni_credential.aci_bytes@),
                    spec_attr_scalar(pni_credential.pni_bytes@),
                ) ==> spec_pres3_accepts(
                    LABEL_PRESENTATION_PNI_V1,
                    kp,
                    group_secret_params.profile_key_enc_key_pair.public,
                    group_secret_params.uid_enc_key_pair.public,
                    group_secret_params.uid_enc_key_pair.public,
                    r.profile_key_enc_ciphertext,
                    r.aci_enc_ciphertext,
                    r.pni_enc_ciphertext,
                    r.proof.commitments,
                    r.proof.pok.challenge,
                    r.proof.pok.responses@,
                ),
            r.reserved == [PRESENTATION_VERSION_1],
            ({
                let s0 = operation_stream(LABEL_CREATE_PNI_PRESENTATION_V1, randomness);
                let aa = spec_attr_scalar(pni_credential.aci_bytes@);
                let na = spec_attr_scalar(pni_credential.pni_bytes@);
                let pa = spec_attr_scalar(pni_credential.profile_key_bytes@);
                let ct1 = crate::elgamal::spec_encrypt(
                    group_secret_params.profile_key_enc_key_pair.public,
                    fmul(pa, GEN_G),
                    spec_sho_nonzero_scalar(s0),
                );
                let ct2 = crate::elgamal::spec_encrypt(
                    group_secret_params.uid_enc_key_pair.public,
                    fmul(aa, GEN_G),
                    spec_sho_nonzero_scalar(spec_sho_state_after(s0, 1)),
                );
                let ct3 = crate::elgamal::spec_encrypt(
                    group_secret_params.uid_enc_key_pair.public,
                    fmul(na, GEN_G),
                    spec_sho_nonzero_scalar(spec_sho_state_after(s0, 2)),
                );
                let z = spec_sho_scalar(spec_sho_state_after(s0, 3));
                let ip = self.pni_credentials_public_key.i_point;
                &&& r.profile_key_enc_ciphertext == crate::elgamal::Ciphertext {
                    e1: ct1.e1,
                    e2: ct1.e2,
                }
                &&& r.aci_enc_ciphertext == crate::elgamal::Ciphertext { e1: ct2.e1, e2: ct2.e2 }
                &&& r.pni_enc_ciphertext == crate::elgamal::Ciphertext { e1: ct3.e1, e2: ct3.e2 }
                &&& r.proof.commitments == crate::presentation_proofs::honest_commitments(z, pni_credential.credential, pa, aa, na)
                &&& r.proof.pok.challenge == spec_prove(
                    LABEL_PRESENTATION_PNI_V1,
                    crate::presentation_proofs::pres3_rows(
                        ip,
                        pni_credential.credential.u_point,
                        group_secret_params.profile_key_enc_key_pair.public,
                        group_secret_params.uid_enc_key_pair.public,
                        group_secret_params.uid_enc_key_pair.public,
                    ),
                    crate::presentation_proofs::pres3_publics(
                        fmul(z, ip),
                        crate::presentation_proofs::honest_commitments(z, pni_credential.credential, pa, aa, na),
                        ct1.e1,
                        ct1.e2,
                        ct2.e1,
                        ct2.e2,
                        ct3.e1,
                        ct3.e2,
                    ),
                    seq![z, pa, aa, na, ct1.r, ct2.r, ct3.r],
                    spec_sho_state_after(s0, 4),
                ).0
                &&& r.proof.pok.responses@ == spec_prove(
                    LABEL_PRESENTATION_PNI_V1,
                    crate::presentation_proofs::pres3_rows(
                        ip,
                        pni_credential.credential.u_point,
                        group_secret_params.profile_key_enc_key_pair.public,
                        group_secret_params.uid_enc_key_pair.public,
                        group_secret_params.uid_enc_key_pair.public,
                    ),
                    crate::presentation_proofs::pres3_publics(
                        fmul(z, ip),
                        crate::presentation_proofs::honest_commitments(z, pni_credential.credential, pa, aa, na),
                        ct1.e1,
                        ct1.e2,
                        ct2.e1,
                        ct2.e2,
                        ct3.e1,
                        ct3.e2,
                    ),
                    seq![z, pa, aa, na, ct1.r, ct2.r, ct3.r],
                    spec_sho_state_after(s0, 4),
                ).1
                &&& crate::elgamal::spec_decrypt(
                    group_secret_params.profile_key_enc_key_pair.secret,
                    ct1.e1,
                    ct1.e2,
                ) == fmul(pa, GEN_G)
                &&& crate::elgamal::spec_decrypt(
                    group_secret_params.uid_enc_key_pair.secret,
                    ct2.e1,
                    ct2.e2,
                ) == fmul(aa, GEN_G)
                &&& crate::elgamal::spec_decrypt(
                    group_secret_params.uid_enc_key_pair.secret,
                    ct3.e1,
                    ct3.e2,
                ) == fmul(na, GEN_G)
            }),
    {
        let mut sho = Sho::new(LABEL_CREATE_PNI_PRESENTATION_V1, &randomness);
        proof {
            crate::sho::lemma_sho_state_unroll(sho.state);
            crate::sho::lemma_sho_state_compose(sho.state, 1, 1);
            crate::sho::lemma_sho_state_compose(sho.state, 2, 1);
            crate::sho::lemma_sho_state_compose(sho.state, 3, 1);
        }
        let aci_attr = attr_scalar(pni_credential.aci_bytes.as_slice());
        let pni_attr = attr_scalar(pni_credential.pni_bytes.as_slice());
        let pk_attr = attr_scalar(pni_credential.profile_key_bytes.as_slice());
        let pk_ciphertext = group_secret_params.profile_key_enc_key_pair.encrypt(
            sc_mul(pk_attr, GEN_G),
            &mut sho,
        );
        let aci_ciphertext = group_secret_params.uid_enc_key_pair.encrypt(
            sc_mul(aci_attr, GEN_G),
            &mut sho,
        );
        let pni_ciphertext = group_secret_params.uid_enc_key_pair.encrypt(
            sc_mul(pni_attr, GEN_G),
            &mut sho,
        );
        proof {
            crate::elgamal::lemma_encrypt_decrypt(
                group_secret_params.profile_key_enc_key_pair,
                fmul(pk_attr, GEN_G),
                pk_ciphertext.r,
            );
            crate::elgamal::lemma_encrypt_decrypt(
                group_secret_params.uid_enc_key_pair,
                fmul(aci_attr, GEN_G),
                aci_ciphertext.r,
            );
            crate::elgamal::lemma_encrypt_decrypt(
                group_secret_params.uid_enc_key_pair,
                fmul(pni_attr, GEN_G),
                pni_ciphertext.r,
            );
        }
        let proof = PniCredentialPresentationProof::new(
            LABEL_PRESENTATION_PNI_V1,
            &self.pni_credentials_public_key,
            group_secret_params.profile_key_enc_key_pair.public,
            group_secret_params.uid_enc_key_pair.public,
            group_secret_params.uid_enc_key_pair.public,
            pni_credential.credential,
            pk_attr,
            aci_attr,
            pni_attr,
            &pk_ciphertext,
            &aci_ciphertext,
            &pni_ciphertext,
            &mut sho,
        );
        PniCredentialPresentationV1 {
            reserved: [PRESENTATION_VERSION_1],
            proof,
            aci_enc_ciphertext: aci_ciphertext.get_ciphertext(),
            pni_enc_ciphertext: pni_ciphertext.get_ciphertext(),
            profile_key_enc_ciphertext: pk_ciphertext.get_ciphertext(),
        }
    }

    /// Present a PNI credential at the second version.
    #[verifier::rlimit(100)]
    #[verifier::spinoff_prover]
    pub fn create_pni_credential_presentation_v2(
        &self,
        randomness: RandomnessBytes,
        group_secret_params: GroupSecretParams,
        pni_credential: PniCredential,
    ) -> (r: PniCredentialPresentationV2)
        requires
            server_public_params_wf(*self),
            group_secret_params_wf(group_secret_params),
            pni_credential_wf(pni_credential),
        ensures
            forall|kp: CredentialKeyPair|
                keypair_wf(kp) && kp.public_key == self.pni_credentials_public_key
                    && credential_valid(
                    kp,
                    pni_credential.credential,
                    spec_attr_scalar(pni_credential.profile_key_bytes@),
                    spec_attr_scalar(pni_credential.aci_bytes@),
                    spec_attr_scalar(pni_credential.pni_bytes@),
                ) ==> spec_pres3_accepts(
                    LABEL_PRESENTATION_PNI_V2,
                    kp,
                    group_secret_params.profile_key_enc_key_pair.public,
                    group_secret_params.uid_enc_key_pair.public,
                    group_secret_params.uid_enc_key_pair.public,
                    r.profile_key_enc_ciphertext,
                    r.aci_enc_ciphertext,
                    r.pni_enc_ciphertext,
                    r.proof.commitments,
                    r.proof.pok.challenge,
                    r.proof.pok.responses@,
                ),
            r.version == [PRESENTATION_VERSION_2],
            ({
                let s0 = operation_stream(LABEL_CREATE_PNI_PRESENTATION_V2, randomness);
                let aa = spec_attr_scalar(pni_credential.aci_bytes@);
                let na = spec_attr_scalar(pni_credential.pni_bytes@);
                let pa = spec_attr_scalar(pni_credential.profile_key_bytes@);
                let ct1 = crate::elgamal::spec_encrypt(
                    group_secret_params.profile_key_enc_key_pair.public,
                    fmul(pa, GEN_G),
                    spec_sho_nonzero_scalar(s0),
                );
                let ct2 = crate::elgamal::spec_encrypt(
                    group_secret_params.uid_enc_key_pair.public,
                    fmul(aa, GEN_G),
                    spec_sho_nonzero_scalar(spec_sho_state_after(s0, 1)),
                );
                let ct3 = crate::elgamal::spec_encrypt(
                    group_secret_params.uid_enc_key_pair.public,
                    fmul(na, GEN_G),
                    spec_sho_nonzero_scalar(spec_sho_state_after(s0, 2)),
                );
                let z = spec_sho_scalar(spec_sho_state_after(s0, 3));
                let ip = self.pni_credentials_public_key.i_point;
                &&& r.profile_key_enc_ciphertext == crate::elgamal::Ciphertext {
                    e1: ct1.e1,
                    e2: ct1.e2,
                }
                &&& r.aci_enc_ciphertext == crate::elgamal::Ciphertext { e1: ct2.e1, e2: ct2.e2 }
                &&& r.pni_enc_ciphertext == crate::elgamal::Ciphertext { e1: ct3.e1, e2: ct3.e2 }
                &&& r.proof.commitments == crate::presentation_proofs::honest_commitments(z, pni_credential.credential, pa, aa, na)
                &&& r.proof.pok.challenge == spec_prove(
                    LABEL_PRESENTATION_PNI_V2,
                    crate::presentation_proofs::pres3_rows(
                        ip,
                        pni_credential.credential.u_point,
                        group_secret_params.profile_key_enc_key_pair.public,
                        group_secret_params.uid_enc_key_pair.public,
                        group_secret_params.uid_enc_key_pair.public,
                    ),
                    crate::presentation_proofs::pres3_publics(
                        fmul(z, ip),
                        crate::presentation_proofs::honest_commitments(z, pni_credential.credential, pa, aa, na),
                        ct1.e1,
                        ct1.e2,
                        ct2.e1,
                        ct2.e2,
                        ct3.e1,
                        ct3.e2,
                    ),
                    seq![z, pa, aa, na, ct1.r, ct2.r, ct3.r],
                    spec_sho_state_after(s0, 4),
                ).0
                &&& r.proof.pok.responses@ == spec_prove(
                    LABEL_PRESENTATION_PNI_V2,
                    crate::presentation_proofs::pres3_rows(
                        ip,
                        pni_credential.credential.u_point,
                        group_secret_params.profile_key_enc_key_pair.public,
                        group_secret_params.uid_enc_key_pair.public,
                        group_secret_params.uid_enc_key_pair.public,
                    ),
                    crate::presentation_proofs::pres3_publics(
                        fmul(z, ip),
                        crate::presentation_proofs::honest_commitments(z, pni_credential.credential, pa, aa, na),
                        ct1.e1,
                        ct1.e2,
                        ct2.e1,
                        ct2.e2,
                        ct3.e1,
                        ct3.e2,
                    ),
                    seq![z, pa, aa, na, ct1.r, ct2.r, ct3.r],
                    spec_sho_state_after(s0, 4),
                ).1
                &&& crate::elgamal::spec_decrypt(
                    group_secret_params.profile_key_enc_key_pair.secret,
                    ct1.e1,
                    ct1.e2,
                ) == fmul(pa, GEN_G)
                &&& crate::elgamal::spec_decrypt(
                    group_secret_params.uid_enc_key_pair.secret,
                    ct2.e1,
                    ct2.e2,
                ) == fmul(aa, GEN_G)
                &&& crate::elgamal::spec_decrypt(
                    group_secret_params.uid_enc_key_pair.secret,
                    ct3.e1,
                    ct3.e2,
                ) == fmul(na, GEN_G)
            }),
    {
        let mut sho = Sho::new(LABEL_CREATE_PNI_PRESENTATION_V2, &randomness);
        proof {
            crate::sho::lemma_sho_state_unroll(sho.state);
            crate::sho::lemma_sho_state_compose(sho.state, 1, 1);
            crate::sho::lemma_sho_state_compose(sho.state, 2, 1);
            crate::sho::lemma_sho_state_compose(sho.state, 3, 1);
        }
        let aci_attr = attr_scalar(pni_credential.aci_bytes.as_slice());
        let pni_attr = attr_scalar(pni_credential.pni_bytes.as_slice());
        let pk_attr = attr_scalar(pni_credential.profile_key_bytes.as_slice());
        let pk_ciphertext = group_secret_params.profile_key_enc_key_pair.encrypt(
            sc_mul(pk_attr, GEN_G),
            &mut sho,
        );
        let aci_ciphertext = group_secret_params.uid_enc_key_pair.encrypt(
            sc_mul(aci_attr, GEN_G),
            &mut sho,
        );
        let pni_ciphertext = group_secret_params.uid_enc_key_pair.encrypt(
            sc_mul(pni_attr, GEN_G),
            &mut sho,
        );
        proof {
            crate::elgamal::lemma_encrypt_decrypt(
                group_secret_params.profile_key_enc_key_pair,
                fmul(pk_attr, GEN_G),
                pk_ciphertext.r,
            );
            crate::elgamal::lemma_encrypt_decrypt(
                group_secret_params.uid_enc_key_pair,
                fmul(aci_attr, GEN_G),
                aci_ciphertext.r,
            );
            crate::elgamal::lemma_encrypt_decrypt(
                group_secret_params.uid_enc_key_pair,
                fmul(pni_attr, GEN_G),
                pni_ciphertext.r,
            );
        }
        let proof = PniCredentialPresentationProof::new(
            LABEL_PRESENTATION_PNI_V2,
            &self.pni_credentials_public_key,
            group_secret_params.profile_key_enc_key_pair.public,
            group_secret_params.uid_enc_key_pair.public,
            group_secret_params.uid_enc_key_pair.public,
            pni_credential.credential,
            pk_attr,
            aci_attr,
            pni_attr,
            &pk_ciphertext,
            &aci_ciphertext,
            &pni_ciphertext,
            &mut sho,
        );
        PniCredentialPresentationV2 {
            version: [PRESENTATION_VERSION_2],
            proof,
            aci_enc_ciphertext: aci_ciphertext.get_ciphertext(),
            pni_enc_ciphertext: pni_ciphertext.get_ciphertext(),
            profile_key_enc_ciphertext: pk_ciphertext.get_ciphertext(),
        }
    }

    /// Build a receipt issuance request context.
    pub fn create_receipt_credential_request_context(
        &self,
        randomness: RandomnessBytes,
        receipt_serial_bytes: ReceiptSerialBytes,
    ) -> (r: ReceiptCredentialRequestContext)
        requires
            server_public_params_wf(*self),
        ensures
            receipt_request_context_wf(r),
            r.receipt_serial_bytes == receipt_serial_bytes,
            r.reserved == [0u8],
            ({
                let s0 = operation_stream(LABEL_CREATE_RECEIPT_REQUEST_CONTEXT, randomness);
                &&& r.key_pair == crate::elgamal::spec_keypair_generate(s0)
                &&& r.ciphertext_with_secret_nonce == crate::elgamal::spec_encrypt(
                    r.key_pair.public,
                    fmul(spec_attr_scalar(receipt_serial_bytes@), GEN_G),
                    spec_sho_nonzero_scalar(spec_sho_state_after(s0, 1)),
                )
            }),
    {
        let mut sho = Sho::new(LABEL_CREATE_RECEIPT_REQUEST_CONTEXT, &randomness);
        proof {
            crate::sho::lemma_sho_state_unroll(sho.state);
        }
        let serial_attr = attr_scalar(receipt_serial_bytes.as_slice());
        let key_pair = elgamal::EncryptionKeyPair::generate(&mut sho);
        let ciphertext_with_secret_nonce = key_pair.encrypt(
            sc_mul(serial_attr, GEN_G),
            &mut sho,
        );
        ReceiptCredentialRequestContext {
            reserved: [0],
            receipt_serial_bytes,
            key_pair,
            ciphertext_with_secret_nonce,
        }
    }

    /// Check and unblind a receipt response.
    pub fn receive_receipt_credential(
        &self,
        context: &ReceiptCredentialRequestContext,
        response: &ReceiptCredentialResponse,
    ) -> (r: Result<ReceiptCredential, ZkGroupVerificationFailure>)
        requires
            server_public_params_wf(*self),
            receipt_request_context_wf(*context),
        ensures
            r is Ok <==> spec_blinded_issuance_verifies(
                LABEL_ISSUANCE_RECEIPT,
                self.receipt_credentials_public_key,
                context.key_pair.public,
                context.ciphertext_with_secret_nonce.e1,
                context.ciphertext_with_secret_nonce.e2,
                time_attr(response.receipt_expiration_time),
                time_attr(response.receipt_level),
                response.blinded_credential,
                response.proof.y_point,
                response.proof.pok.challenge,
                response.proof.pok.responses@,
            ) && response.blinded_credential.u_point != 0,
            r matches Ok(c) ==> c.credential.u_point == response.blinded_credential.u_point
                && c.credential.v_point == elgamal::spec_decrypt(
                context.key_pair.secret,
                response.blinded_credential.s1,
                response.blinded_credential.s2,
            ) && c.receipt_serial_bytes == context.receipt_serial_bytes
                && c.receipt_expiration_time == response.receipt_expiration_time
                && c.receipt_level == response.receipt_level && receipt_credential_wf(c),
    {
        let exp_attr = sc_reduce(response.receipt_expiration_time);
        let level_attr = sc_reduce(response.receipt_level);
        let check = response.proof.verify(
            &self.receipt_credentials_public_key,
            context.key_pair.public,
            context.ciphertext_with_secret_nonce.get_ciphertext(),
            exp_attr,
            level_attr,
            response.blinded_credential,
        );
        if check.is_err() {
            return Err(ZkGroupVerificationFailure);
        }
        if response.blinded_credential.u_point == 0 {
            return Err(ZkGroupVerificationFailure);
        }
        let credential = decrypt_blinded_credential(
            &context.key_pair,
            &response.blinded_credential,
        );
        Ok(ReceiptCredential {
            reserved: [0],
            credential,
            receipt_expiration_time: response.receipt_expiration_time,
            receipt_level: response.receipt_level,
            receipt_serial_bytes: context.receipt_serial_bytes,
        })
    }

    /// Present a receipt credential; all of its fields are disclosed.
    #[verifier::rlimit(100)]
    #[verifier::spinoff_prover]
    pub fn create_receipt_credential_presentation(
        &self,
        randomness: RandomnessBytes,
        receipt_credential: &ReceiptCredential,
    ) -> (r: ReceiptCredentialPresentation)
        requires
            server_public_params_wf(*self),
            receipt_credential_wf(*receipt_credential),
        ensures
            r.receipt_expiration_time == receipt_credential.receipt_expiration_time,
            r.receipt_level == receipt_credential.receipt_level,
            r.receipt_serial_bytes == receipt_credential.receipt_serial_bytes,
            forall|kp: CredentialKeyPair|
                keypair_wf(kp) && kp.public_key == self.receipt_credentials_public_key
                    && credential_valid(
                    kp,
                    receipt_credential.credential,
                    spec_attr_scalar(receipt_credential.receipt_serial_bytes@),
                    time_attr(receipt_credential.receipt_expiration_time),
                    time_attr(receipt_credential.receipt_level),
                ) ==> spec_pres0_accepts(
                    LABEL_PRESENTATION_RECEIPT,
                    kp,
                    spec_attr_scalar(receipt_credential.receipt_serial_bytes@),
                    time_attr(receipt_credential.receipt_expiration_time),
                    time_attr(receipt_credential.receipt_level),
                    r.proof.commitments,
                    r.proof.pok.challenge,
                    r.proof.pok.responses@,
                ),
            r.reserved == [0u8],
            ({
                let s0 = operation_stream(LABEL_CREATE_RECEIPT_PRESENTATION, randomness);
                let z = spec_sho_scalar(s0);
                &&& r.proof.commitments == crate::presentation_proofs::honest_commitments(
                    z,
                    receipt_credential.credential,
                    spec_attr_scalar(receipt_credential.receipt_serial_bytes@),
                    time_attr(receipt_credential.receipt_expiration_time),
                    time_attr(receipt_credential.receipt_level),
                )
                &&& r.proof.pok.challenge == spec_prove(
                    LABEL_PRESENTATION_RECEIPT,
                    crate::presentation_proofs::pres0_rows(
                        self.receipt_credentials_public_key.i_point,
                    ),
                    crate::presentation_proofs::pres0_publics(
                        fmul(z, self.receipt_credentials_public_key.i_point),
                        crate::presentation_proofs::honest_commitments(
                            z,
                            receipt_credential.credential,
                            spec_attr_scalar(receipt_credential.receipt_serial_bytes@),
                            time_attr(receipt_credential.receipt_expiration_time),
                            time_attr(receipt_credential.receipt_level),
                        ),
                        spec_attr_scalar(receipt_credential.receipt_serial_bytes@),
                        time_attr(receipt_credential.receipt_expiration_time),
                        time_attr(receipt_credential.receipt_level),
                    ),
                    seq![z, 0u64, 0u64, 0u64, 0u64, 0u64, 0u64],
                    spec_sho_state_after(s0, 1),
                ).0
                &&& r.proof.pok.responses@ == spec_prove(
                    LABEL_PRESENTATION_RECEIPT,
                    crate::presentation_proofs::pres0_rows(
                        self.receipt_credentials_public_key.i_point,
                    ),
                    crate::presentation_proofs::pres0_publics(
                        fmul(z, self.receipt_credentials_public_key.i_point),
                        crate::presentation_proofs::honest_commitments(
                            z,
                            receipt_credential.credential,
                            spec_attr_scalar(receipt_credential.receipt_serial_bytes@),
                            time_attr(receipt_credential.receipt_expiration_time),
                            time_attr(receipt_credential.receipt_level),
                        ),
                        spec_attr_scalar(receipt_credential.receipt_serial_bytes@),
                        time_attr(receipt_credential.receipt_expiration_time),
                        time_attr(receipt_credential.receipt_level),
                    ),
                    seq![z, 0u64, 0u64, 0u64, 0u64, 0u64, 0u64],
                    spec_sho_state_after(s0, 1),
                ).1
            }),
    {
        let mut sho = Sho::new(LABEL_CREATE_RECEIPT_PRESENTATION, &randomness);
        proof {
            crate::sho::lemma_sho_state_unroll(sho.state);
        }
        let serial_attr = attr_scalar(receipt_credential.receipt_serial_bytes.as_slice());
        let exp_attr = sc_reduce(receipt_credential.receipt_expiration_time);
        let level_attr = sc_reduce(receipt_credential.receipt_level);
        let proof = ReceiptCredentialPresentationProof::new(
            LABEL_PRESENTATION_RECEIPT,
            &self.receipt_credentials_public_key,
            receipt_credential.credential,
            serial_attr,
            exp_attr,
            level_attr,
            &mut sho,
        );
        ReceiptCredentialPresentation {
            reserved: [0],
            proof,
            receipt_expiration_time: receipt_credential.receipt_expiration_time,
            receipt_level: receipt_credential.receipt_level,
            receipt_serial_bytes: receipt_credential.receipt_serial_bytes,
        }
    }
}

} // verus!
