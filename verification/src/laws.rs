//! End-to-end properties of the protocol, stated and proved once over
//! the specification predicates that the executable functions' contracts
//! expose.
//!
//! Completeness of each sigma relation is proved in its own module; the
//! lemmas here compose those facts across the issue / receive / present /
//! verify flows: an honest issuance is always accepted by the holder and
//! unblinds to a credential over the original attributes, and an honest
//! presentation of a valid credential is always accepted by the issuer
//! that published the parameters it was built against.

use vstd::prelude::*;

use crate::api::{
    pk_request_context_wf, pkv3_request_context_wf, pni_request_context_wf,
    receipt_request_context_wf, AuthCredential, GroupSecretParams, PniCredential,
    ProfileKeyCredential, ProfileKeyCredentialRequestContext,
    ProfileKeyCredentialV3RequestContext, PniCredentialRequestContext, ReceiptCredential,
    ReceiptCredentialRequestContext,
};
use crate::credentials::{
    blinded_wf, credential_valid, keypair_wf, lemma_blind_unblind, BlindedCredential,
    Credential, CredentialKeyPair,
};
use crate::elgamal;
use crate::encoding::spec_attr_scalar;
use crate::field::Q;
use crate::issuance_proofs::{
    spec_blinded_issuance_verifies, spec_plain_issuance_verifies, LABEL_ISSUANCE_AUTH,
    LABEL_ISSUANCE_PNI, LABEL_ISSUANCE_PROFILE_KEY, LABEL_ISSUANCE_PROFILE_KEY_V3,
    LABEL_ISSUANCE_RECEIPT,
};
use crate::presentation_proofs::{
    spec_pres0_accepts, spec_pres1_accepts, spec_pres2_accepts, spec_pres3_accepts,
    PresentationCommitments,
};
use crate::server_params::{
    params_match, server_secret_params_wf, time_attr, ServerPublicParams, ServerSecretParams,
};

verus! {

/// Issuance round trip, auth kind: a response satisfying the issuer's
/// contract is accepted by `receive_auth_credential` against the
/// matching public parameters, and the accepted credential is a valid
/// MAC over the original user identifier and redemption time.
pub proof fn lemma_auth_issuance_round_trip(
    server: ServerSecretParams,
    public_params: ServerPublicParams,
    credential: Credential,
    uid_attr: u64,
    redemption_time_attr: u64,
    challenge: u64,
    responses: Seq<u64>,
)
    requires
        server_secret_params_wf(server),
        params_match(server, public_params),
        credential_valid(
            server.auth_credentials_key_pair,
            credential,
            uid_attr,
            redemption_time_attr,
            0,
        ),
        spec_plain_issuance_verifies(
            LABEL_ISSUANCE_AUTH,
            server.auth_credentials_key_pair.public_key,
            credential,
            uid_attr,
            redemption_time_attr,
            0,
            challenge,
            responses,
        ),
    ensures
        spec_plain_issuance_verifies(
            LABEL_ISSUANCE_AUTH,
            public_params.auth_credentials_public_key,
            credential,
            uid_attr,
            redemption_time_attr,
            0,
            challenge,
            responses,
        ),
        credential.u_point != 0,
        credential_valid(
            server.auth_credentials_key_pair,
            credential,
            uid_attr,
            redemption_time_attr,
            0,
        ),
{
}

/// Issuance round trip, profile key kind: a blinded response built
/// honestly over the holder's request context passes the holder's check
/// against the matching public parameters, and decrypting it with the
/// context's one-time secret key yields a valid MAC over the original
/// profile key and user identifier — although the issuer never saw the
/// profile key in the clear.
pub proof fn lemma_profile_key_issuance_round_trip(
    server: ServerSecretParams,
    public_params: ServerPublicParams,
    context: ProfileKeyCredentialRequestContext,
    blinded: BlindedCredential,
    y_point: u64,
    challenge: u64,
    responses: Seq<u64>,
)
    requires
        server_secret_params_wf(server),
        params_match(server, public_params),
        pk_request_context_wf(context),
        exists|bl: crate::credentials::BlindedCredentialWithSecretNonce|
            blinded_wf(
                server.profile_key_credentials_key_pair,
                spec_attr_scalar(context.uid_bytes@),
                0,
                context.key_pair.public,
                context.ciphertext_with_secret_nonce.e1,
                context.ciphertext_with_secret_nonce.e2,
                bl,
            ) && blinded.u_point == bl.u_point && blinded.s1 == bl.s1 && blinded.s2 == bl.s2,
        spec_blinded_issuance_verifies(
            LABEL_ISSUANCE_PROFILE_KEY,
            server.profile_key_credentials_key_pair.public_key,
            context.key_pair.public,
            context.ciphertext_with_secret_nonce.e1,
            context.ciphertext_with_secret_nonce.e2,
            spec_attr_scalar(context.uid_bytes@),
            0,
            blinded,
            y_point,
            challenge,
            responses,
        ),
    ensures
        spec_blinded_issuance_verifies(
            LABEL_ISSUANCE_PROFILE_KEY,
            public_params.profile_key_credentials_public_key,
            context.key_pair.public,
            context.ciphertext_with_secret_nonce.e1,
            context.ciphertext_with_secret_nonce.e2,
            spec_attr_scalar(context.uid_bytes@),
            0,
            blinded,
            y_point,
            challenge,
            responses,
        ),
        blinded.u_point != 0,
        credential_valid(
            server.profile_key_credentials_key_pair,
            Credential {
                u_point: blinded.u_point,
                v_point: elgamal::spec_decrypt(context.key_pair.secret, blinded.s1, blinded.s2),
            },
            spec_attr_scalar(context.profile_key_bytes@),
            spec_attr_scalar(context.uid_bytes@),
            0,
        ),
{
    let bl = choose|bl: crate::credentials::BlindedCredentialWithSecretNonce|
        blinded_wf(
            server.profile_key_credentials_key_pair,
            spec_attr_scalar(context.uid_bytes@),
            0,
            context.key_pair.public,
            context.ciphertext_with_secret_nonce.e1,
            context.ciphertext_with_secret_nonce.e2,
            bl,
        ) && blinded.u_point == bl.u_point && blinded.s1 == bl.s1 && blinded.s2 == bl.s2;
    lemma_blind_unblind(
        server.profile_key_credentials_key_pair,
        context.key_pair,
        spec_attr_scalar(context.profile_key_bytes@),
        spec_attr_scalar(context.uid_bytes@),
        0,
        context.ciphertext_with_secret_nonce.r,
        context.ciphertext_with_secret_nonce.e1,
        context.ciphertext_with_secret_nonce.e2,
        bl,
    );
}

/// Presentation round trip, auth kind: a presentation satisfying the
/// holder's contract — produced for any valid credential under the
/// published key — is accepted by the issuer whose secret parameters
/// derive those public parameters.
pub proof fn lemma_auth_presentation_round_trip(
    server: ServerSecretParams,
    public_params: ServerPublicParams,
    label: u64,
    enc_public: u64,
    credential: AuthCredential,
    uid_attr: u64,
    ciphertext: elgamal::Ciphertext,
    commitments: PresentationCommitments,
    challenge: u64,
    responses: Seq<u64>,
)
    requires
        server_secret_params_wf(server),
        params_match(server, public_params),
        uid_attr == spec_attr_scalar(credential.uid_bytes@),
        credential_valid(
            server.auth_credentials_key_pair,
            credential.credential,
            uid_attr,
            credential.redemption_time as u64,
            0,
        ),
        forall|kp: CredentialKeyPair|
            keypair_wf(kp) && kp.public_key == public_params.auth_credentials_public_key
                && credential_valid(
                kp,
                credential.credential,
                uid_attr,
                credential.redemption_time as u64,
                0,
            ) ==> spec_pres1_accepts(
                label,
                kp,
                enc_public,
                credential.redemption_time as u64,
                0,
                ciphertext,
                commitments,
                challenge,
                responses,
            ),
    ensures
        spec_pres1_accepts(
            label,
            server.auth_credentials_key_pair,
            enc_public,
            credential.redemption_time as u64,
            0,
            ciphertext,
            commitments,
            challenge,
            responses,
        ),
{
}

/// Presentation round trip, profile key kind.
pub proof fn lemma_profile_key_presentation_round_trip(
    server: ServerSecretParams,
    public_params: ServerPublicParams,
    label: u64,
    group: GroupSecretParams,
    credential: ProfileKeyCredential,
    ct1: elgamal::Ciphertext,
    ct2: elgamal::Ciphertext,
    commitments: PresentationCommitments,
    challenge: u64,
    responses: Seq<u64>,
)
    requires
        server_secret_params_wf(server),
        params_match(server, public_params),
        credential_valid(
            server.profile_key_credentials_key_pair,
            credential.credential,
            spec_attr_scalar(credential.profile_key_bytes@),
            spec_attr_scalar(credential.uid_bytes@),
            0,
        ),
        forall|kp: CredentialKeyPair|
            keypair_wf(kp) && kp.public_key == public_params.profile_key_credentials_public_key
                && credential_valid(
                kp,
                credential.credential,
                spec_attr_scalar(credential.profile_key_bytes@),
                spec_attr_scalar(credential.uid_bytes@),
                0,
            ) ==> spec_pres2_accepts(
                label,
                kp,
                group.profile_key_enc_key_pair.public,
                group.uid_enc_key_pair.public,
                0,
                ct1,
                ct2,
                commitments,
                challenge,
                responses,
            ),
    ensures
        spec_pres2_accepts(
            label,
            server.profile_key_credentials_key_pair,
            group.profile_key_enc_key_pair.public,
            group.uid_enc_key_pair.public,
            0,
            ct1,
            ct2,
            commitments,
            challenge,
            responses,
        ),
{
}


/// Issuance round trip, third profile key family: same shape as the
/// first family, under its own independent key pair and label.
pub proof fn lemma_profile_key_v3_issuance_round_trip(
    server: ServerSecretParams,
    public_params: ServerPublicParams,
    context: ProfileKeyCredentialV3RequestContext,
    blinded: BlindedCredential,
    y_point: u64,
    challenge: u64,
    responses: Seq<u64>,
)
    requires
        server_secret_params_wf(server),
        params_match(server, public_params),
        pkv3_request_context_wf(context),
        exists|bl: crate::credentials::BlindedCredentialWithSecretNonce|
            blinded_wf(
                server.profile_key_credentials_v3_key_pair,
                spec_attr_scalar(context.uid_bytes@),
                0,
                context.key_pair.public,
                context.ciphertext_with_secret_nonce.e1,
                context.ciphertext_with_secret_nonce.e2,
                bl,
            ) && blinded.u_point == bl.u_point && blinded.s1 == bl.s1 && blinded.s2 == bl.s2,
        spec_blinded_issuance_verifies(
            LABEL_ISSUANCE_PROFILE_KEY_V3,
            server.profile_key_credentials_v3_key_pair.public_key,
            context.key_pair.public,
            context.ciphertext_with_secret_nonce.e1,
            context.ciphertext_with_secret_nonce.e2,
            spec_attr_scalar(context.uid_bytes@),
            0,
            blinded,
            y_point,
            challenge,
            responses,
        ),
    ensures
        spec_blinded_issuance_verifies(
            LABEL_ISSUANCE_PROFILE_KEY_V3,
            public_params.profile_key_credentials_v3_public_key,
            context.key_pair.public,
            context.ciphertext_with_secret_nonce.e1,
            context.ciphertext_with_secret_nonce.e2,
            spec_attr_scalar(context.uid_bytes@),
            0,
            blinded,
            y_point,
            challenge,
            responses,
        ),
        blinded.u_point != 0,
        credential_valid(
            server.profile_key_credentials_v3_key_pair,
            Credential {
                u_point: blinded.u_point,
                v_point: elgamal::spec_decrypt(context.key_pair.secret, blinded.s1, blinded.s2),
            },
            spec_attr_scalar(context.profile_key_bytes@),
            spec_attr_scalar(context.uid_bytes@),
            0,
        ),
{
    let bl = choose|bl: crate::credentials::BlindedCredentialWithSecretNonce|
        blinded_wf(
            server.profile_key_credentials_v3_key_pair,
            spec_attr_scalar(context.uid_bytes@),
            0,
            context.key_pair.public,
            context.ciphertext_with_secret_nonce.e1,
            context.ciphertext_with_secret_nonce.e2,
            bl,
        ) && blinded.u_point == bl.u_point && blinded.s1 == bl.s1 && blinded.s2 == bl.s2;
    lemma_blind_unblind(
        server.profile_key_credentials_v3_key_pair,
        context.key_pair,
        spec_attr_scalar(context.profile_key_bytes@),
        spec_attr_scalar(context.uid_bytes@),
        0,
        context.ciphertext_with_secret_nonce.r,
        context.ciphertext_with_secret_nonce.e1,
        context.ciphertext_with_secret_nonce.e2,
        bl,
    );
}

/// Issuance round trip, PNI kind: the profile key stays hidden while
/// both identifiers are bound as disclosed attributes.
pub proof fn lemma_pni_issuance_round_trip(
    server: ServerSecretParams,
    public_params: ServerPublicParams,
    context: PniCredentialRequestContext,
    blinded: BlindedCredential,
    y_point: u64,
    challenge: u64,
    responses: Seq<u64>,
)
    requires
        server_secret_params_wf(server),
        params_match(server, public_params),
        pni_request_context_wf(context),
        exists|bl: crate::credentials::BlindedCredentialWithSecretNonce|
            blinded_wf(
                server.pni_credentials_key_pair,
                spec_attr_scalar(context.aci_bytes@),
                spec_attr_scalar(context.pni_bytes@),
                context.key_pair.public,
                context.ciphertext_with_secret_nonce.e1,
                context.ciphertext_with_secret_nonce.e2,
                bl,
            ) && blinded.u_point == bl.u_point && blinded.s1 == bl.s1 && blinded.s2 == bl.s2,
        spec_blinded_issuance_verifies(
            LABEL_ISSUANCE_PNI,
            server.pni_credentials_key_pair.public_key,
            context.key_pair.public,
            context.ciphertext_with_secret_nonce.e1,
            context.ciphertext_with_secret_nonce.e2,
            spec_attr_scalar(context.aci_bytes@),
            spec_attr_scalar(context.pni_bytes@),
            blinded,
            y_point,
            challenge,
            responses,
        ),
    ensures
        spec_blinded_issuance_verifies(
            LABEL_ISSUANCE_PNI,
            public_params.pni_credentials_public_key,
            context.key_pair.public,
            context.ciphertext_with_secret_nonce.e1,
            context.ciphertext_with_secret_nonce.e2,
            spec_attr_scalar(context.aci_bytes@),
            spec_attr_scalar(context.pni_bytes@),
            blinded,
            y_point,
            challenge,
            responses,
        ),
        blinded.u_point != 0,
        credential_valid(
            server.pni_credentials_key_pair,
            Credential {
                u_point: blinded.u_point,
                v_point: elgamal::spec_decrypt(context.key_pair.secret, blinded.s1, blinded.s2),
            },
            spec_attr_scalar(context.profile_key_bytes@),
            spec_attr_scalar(context.aci_bytes@),
            spec_attr_scalar(context.pni_bytes@),
        ),
{
    let bl = choose|bl: crate::credentials::BlindedCredentialWithSecretNonce|
        blinded_wf(
            server.pni_credentials_key_pair,
            spec_attr_scalar(context.aci_bytes@),
            spec_attr_scalar(context.pni_bytes@),
            context.key_pair.public,
            context.ciphertext_with_secret_nonce.e1,
            context.ciphertext_with_secret_nonce.e2,
            bl,
        ) && blinded.u_point == bl.u_point && blinded.s1 == bl.s1 && blinded.s2 == bl.s2;
    lemma_blind_unblind(
        server.pni_credentials_key_pair,
        context.key_pair,
        spec_attr_scalar(context.profile_key_bytes@),
        spec_attr_scalar(context.aci_bytes@),
        spec_attr_scalar(context.pni_bytes@),
        context.ciphertext_with_secret_nonce.r,
        context.ciphertext_with_secret_nonce.e1,
        context.ciphertext_with_secret_nonce.e2,
        bl,
    );
}

/// Issuance round trip, receipt kind: the serial stays hidden while the
/// expiration time and level are bound as disclosed attributes.
pub proof fn lemma_receipt_issuance_round_trip(
    server: ServerSecretParams,
    public_params: ServerPublicParams,
    context: ReceiptCredentialRequestContext,
    expiration: u64,
    level: u64,
    blinded: BlindedCredential,
    y_point: u64,
    challenge: u64,
    responses: Seq<u64>,
)
    requires
        server_secret_params_wf(server),
        params_match(server, public_params),
        receipt_request_context_wf(context),
        exists|bl: crate::credentials::BlindedCredentialWithSecretNonce|
            blinded_wf(
                server.receipt_credentials_key_pair,
                time_attr(expiration),
                time_attr(level),
                context.key_pair.public,
                context.ciphertext_with_secret_nonce.e1,
                context.ciphertext_with_secret_nonce.e2,
                bl,
            ) && blinded.u_point == bl.u_point && blinded.s1 == bl.s1 && blinded.s2 == bl.s2,
        spec_blinded_issuance_verifies(
            LABEL_ISSUANCE_RECEIPT,
            server.receipt_credentials_key_pair.public_key,
            context.key_pair.public,
            context.ciphertext_with_secret_nonce.e1,
            context.ciphertext_with_secret_nonce.e2,
            time_attr(expiration),
            time_attr(level),
            blinded,
            y_point,
            challenge,
            responses,
        ),
    ensures
        spec_blinded_issuance_verifies(
            LABEL_ISSUANCE_RECEIPT,
            public_params.receipt_credentials_public_key,
            context.key_pair.public,
            context.ciphertext_with_secret_nonce.e1,
            context.ciphertext_with_secret_nonce.e2,
            time_attr(expiration),
            time_attr(level),
            blinded,
            y_point,
            challenge,
            responses,
        ),
        blinded.u_point != 0,
        credential_valid(
            server.receipt_credentials_key_pair,
            Credential {
                u_point: blinded.u_point,
                v_point: elgamal::spec_decrypt(context.key_pair.secret, blinded.s1, blinded.s2),
            },
            spec_attr_scalar(context.receipt_serial_bytes@),
            time_attr(expiration),
            time_attr(level),
        ),
{
    let bl = choose|bl: crate::credentials::BlindedCredentialWithSecretNonce|
        blinded_wf(
            server.receipt_credentials_key_pair,
            time_attr(expiration),
            time_attr(level),
            context.key_pair.public,
            context.ciphertext_with_secret_nonce.e1,
            context.ciphertext_with_secret_nonce.e2,
            bl,
        ) && blinded.u_point == bl.u_point && blinded.s1 == bl.s1 && blinded.s2 == bl.s2;
    lemma_blind_unblind(
        server.receipt_credentials_key_pair,
        context.key_pair,
        spec_attr_scalar(context.receipt_serial_bytes@),
        time_attr(expiration),
        time_attr(level),
        context.ciphertext_with_secret_nonce.r,
        context.ciphertext_with_secret_nonce.e1,
        context.ciphertext_with_secret_nonce.e2,
        bl,
    );
}

/// Presentation round trip, PNI kind.
pub proof fn lemma_pni_presentation_round_trip(
    server: ServerSecretParams,
    public_params: ServerPublicParams,
    label: u64,
    group: GroupSecretParams,
    credential: PniCredential,
    ct1: elgamal::Ciphertext,
    ct2: elgamal::Ciphertext,
    ct3: elgamal::Ciphertext,
    commitments: PresentationCommitments,
    challenge: u64,
    responses: Seq<u64>,
)
    requires
        server_secret_params_wf(server),
        params_match(server, public_params),
        credential_valid(
            server.pni_credentials_key_pair,
            credential.credential,
            spec_attr_scalar(credential.profile_key_bytes@),
            spec_attr_scalar(credential.aci_bytes@),
            spec_attr_scalar(credential.pni_bytes@),
        ),
        forall|kp: CredentialKeyPair|
            keypair_wf(kp) && kp.public_key == public_params.pni_credentials_public_key
                && credential_valid(
                kp,
                credential.credential,
                spec_attr_scalar(credential.profile_key_bytes@),
                spec_attr_scalar(credential.aci_bytes@),
                spec_attr_scalar(credential.pni_bytes@),
            ) ==> spec_pres3_accepts(
                label,
                kp,
                group.profile_key_enc_key_pair.public,
                group.uid_enc_key_pair.public,
                group.uid_enc_key_pair.public,
                ct1,
                ct2,
                ct3,
                commitments,
                challenge,
                responses,
            ),
    ensures
        spec_pres3_accepts(
            label,
            server.pni_credentials_key_pair,
            group.profile_key_enc_key_pair.public,
            group.uid_enc_key_pair.public,
            group.uid_enc_key_pair.public,
            ct1,
            ct2,
            ct3,
            commitments,
            challenge,
            responses,
        ),
{
}

/// Presentation round trip, receipt kind.
pub proof fn lemma_receipt_presentation_round_trip(
    server: ServerSecretParams,
    public_params: ServerPublicParams,
    label: u64,
    credential: ReceiptCredential,
    commitments: PresentationCommitments,
    challenge: u64,
    responses: Seq<u64>,
)
    requires
        server_secret_params_wf(server),
        params_match(server, public_params),
        credential_valid(
            server.receipt_credentials_key_pair,
            credential.credential,
            spec_attr_scalar(credential.receipt_serial_bytes@),
            time_attr(credential.receipt_expiration_time),
            time_attr(credential.receipt_level),
        ),
        forall|kp: CredentialKeyPair|
            keypair_wf(kp) && kp.public_key == public_params.receipt_credentials_public_key
                && credential_valid(
                kp,
                credential.credential,
                spec_attr_scalar(credential.receipt_serial_bytes@),
                time_attr(credential.receipt_expiration_time),
                time_attr(credential.receipt_level),
            ) ==> spec_pres0_accepts(
                label,
                kp,
                spec_attr_scalar(credential.receipt_serial_bytes@),
                time_attr(credential.receipt_expiration_time),
                time_attr(credential.receipt_level),
                commitments,
                challenge,
                responses,
            ),
    ensures
        spec_pres0_accepts(
            label,
            server.receipt_credentials_key_pair,
            spec_attr_scalar(credential.receipt_serial_bytes@),
            time_attr(credential.receipt_expiration_time),
            time_attr(credential.receipt_level),
            commitments,
            challenge,
            responses,
        ),
{
}

/// Presentation ciphertext unlinkability, reduced to its provable core:
/// the first component of an attribute encryption is injective in the
/// encryption nonce, so two presentations of one credential whose
/// streams drew distinct nonces carry distinct ciphertexts.
pub proof fn lemma_presentation_ciphertexts_differ(
    enc_public: u64,
    m_point: u64,
    r1: u64,
    r2: u64,
)
    requires
        r1 < Q,
        r2 < Q,
        r1 != r2,
    ensures
        elgamal::spec_encrypt(enc_public, m_point, r1).e1 != elgamal::spec_encrypt(
            enc_public,
            m_point,
            r2,
        ).e1,
{
    if elgamal::spec_encrypt(enc_public, m_point, r1).e1 == elgamal::spec_encrypt(
        enc_public,
        m_point,
        r2,
    ).e1 {
        crate::field::lemma_gen_mul_injective(r1, r2);
    }
}

} // verus!
