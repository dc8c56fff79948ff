//! End-to-end exercises of the credential protocol: issuance round
//! trips, presentation verification, tampering rejection, determinism
//! and unlinkability.

use zkgroup::api::{
    AnyAuthCredentialPresentation, AnyPniCredentialPresentation,
    AnyProfileKeyCredentialPresentation, AuthCredentialPresentationV2, GroupSecretParams,
    ProfileKey,
};
use zkgroup::server_params::ServerSecretParams;
use zkgroup::sho::Sho;

const SEED_A: [u8; 32] = [1u8; 32];
const SEED_B: [u8; 32] = [2u8; 32];
const SEED_C: [u8; 32] = [3u8; 32];
const SEED_D: [u8; 32] = [4u8; 32];
const SEED_E: [u8; 32] = [5u8; 32];

const UID: [u8; 16] = [9u8; 16];
const PNI: [u8; 16] = [13u8; 16];
const PROFILE_KEY: [u8; 32] = [21u8; 32];
const SERIAL: [u8; 16] = [33u8; 16];
const REDEMPTION_TIME: u32 = 12345;

#[test]
fn sho_identical_streams_reproduce() {
    let mut a = Sho::new(7, &SEED_A);
    let mut b = Sho::new(7, &SEED_A);
    for _ in 0..8 {
        assert_eq!(a.next_u64(), b.next_u64());
    }
    assert_eq!(a.next_scalar(), b.next_scalar());
    assert_eq!(a.next_nonzero_scalar(), b.next_nonzero_scalar());
    assert_eq!(a.next_bytes(17), b.next_bytes(17));
}

#[test]
fn sho_distinct_labels_diverge() {
    let mut a = Sho::new(7, &SEED_A);
    let mut b = Sho::new(8, &SEED_A);
    assert_ne!(a.next_u64(), b.next_u64());
}

#[test]
fn sho_distinct_seeds_diverge() {
    let mut a = Sho::new(7, &SEED_A);
    let mut b = Sho::new(7, &SEED_B);
    assert_ne!(a.next_u64(), b.next_u64());
}

#[test]
fn auth_credential_round_trip() {
    let server = ServerSecretParams::generate(SEED_A);
    let public_params = server.get_public_params();
    let response = server.issue_auth_credential(SEED_B, UID, REDEMPTION_TIME);
    let credential = public_params
        .receive_auth_credential(UID, REDEMPTION_TIME, &response)
        .expect("honest auth issuance must be accepted");
    assert_eq!(credential.uid_bytes, UID);
    assert_eq!(credential.redemption_time, REDEMPTION_TIME);
}

#[test]
fn auth_receive_rejects_wrong_attributes() {
    let server = ServerSecretParams::generate(SEED_A);
    let public_params = server.get_public_params();
    let response = server.issue_auth_credential(SEED_B, UID, REDEMPTION_TIME);
    let mut other_uid = UID;
    other_uid[0] ^= 1;
    assert!(public_params
        .receive_auth_credential(other_uid, REDEMPTION_TIME, &response)
        .is_err());
    assert!(public_params
        .receive_auth_credential(UID, REDEMPTION_TIME + 1, &response)
        .is_err());
}

#[test]
fn auth_presentation_verifies_both_versions() {
    let server = ServerSecretParams::generate(SEED_A);
    let public_params = server.get_public_params();
    let group = GroupSecretParams::generate(SEED_C);
    let group_public = group.get_public_params();
    let response = server.issue_auth_credential(SEED_B, UID, REDEMPTION_TIME);
    let credential = public_params
        .receive_auth_credential(UID, REDEMPTION_TIME, &response)
        .unwrap();

    let p1 = public_params.create_auth_credential_presentation_v1(SEED_D, group, credential);
    assert!(server
        .verify_auth_credential_presentation_v1(group_public, &p1)
        .is_ok());
    assert!(server
        .verify_auth_credential_presentation(group_public, &AnyAuthCredentialPresentation::V1(p1))
        .is_ok());

    let group = GroupSecretParams::generate(SEED_C);
    let credential = public_params
        .receive_auth_credential(UID, REDEMPTION_TIME, &response)
        .unwrap();
    let p2 = public_params.create_auth_credential_presentation_v2(SEED_D, group, credential);
    assert!(server
        .verify_auth_credential_presentation_v2(group_public, &p2)
        .is_ok());

    let group = GroupSecretParams::generate(SEED_C);
    let credential = public_params
        .receive_auth_credential(UID, REDEMPTION_TIME, &response)
        .unwrap();
    let any = public_params.create_auth_credential_presentation(SEED_D, group, credential);
    assert!(server
        .verify_auth_credential_presentation(group_public, &any)
        .is_ok());
}

#[test]
fn auth_presentation_tampered_redemption_time_fails() {
    let server = ServerSecretParams::generate(SEED_A);
    let public_params = server.get_public_params();
    let group = GroupSecretParams::generate(SEED_C);
    let group_public = group.get_public_params();
    let response = server.issue_auth_credential(SEED_B, UID, REDEMPTION_TIME);
    let credential = public_params
        .receive_auth_credential(UID, REDEMPTION_TIME, &response)
        .unwrap();
    let mut p2 = public_params.create_auth_credential_presentation_v2(SEED_D, group, credential);
    p2.redemption_time += 1;
    assert!(server
        .verify_auth_credential_presentation_v2(group_public, &p2)
        .is_err());
}

#[test]
fn auth_presentation_tampered_ciphertext_fails() {
    let server = ServerSecretParams::generate(SEED_A);
    let public_params = server.get_public_params();
    let group = GroupSecretParams::generate(SEED_C);
    let group_public = group.get_public_params();
    let response = server.issue_auth_credential(SEED_B, UID, REDEMPTION_TIME);
    let credential = public_params
        .receive_auth_credential(UID, REDEMPTION_TIME, &response)
        .unwrap();
    let mut p2 = public_params.create_auth_credential_presentation_v2(SEED_D, group, credential);
    p2.ciphertext.e1 ^= 1;
    assert!(server
        .verify_auth_credential_presentation_v2(group_public, &p2)
        .is_err());
}

#[test]
fn auth_presentation_tampered_proof_fails() {
    let server = ServerSecretParams::generate(SEED_A);
    let public_params = server.get_public_params();
    let group = GroupSecretParams::generate(SEED_C);
    let group_public = group.get_public_params();
    let response = server.issue_auth_credential(SEED_B, UID, REDEMPTION_TIME);
    let credential = public_params
        .receive_auth_credential(UID, REDEMPTION_TIME, &response)
        .unwrap();
    let mut p2 = public_params.create_auth_credential_presentation_v2(SEED_D, group, credential);
    p2.proof.pok.challenge ^= 1;
    assert!(server
        .verify_auth_credential_presentation_v2(group_public, &p2)
        .is_err());
    let group = GroupSecretParams::generate(SEED_C);
    let credential = public_params
        .receive_auth_credential(UID, REDEMPTION_TIME, &response)
        .unwrap();
    let mut p2 = public_params.create_auth_credential_presentation_v2(SEED_D, group, credential);
    p2.proof.commitments.c_v ^= 1;
    assert!(server
        .verify_auth_credential_presentation_v2(group_public, &p2)
        .is_err());
}

#[test]
fn auth_presentation_wrong_issuer_fails() {
    let server = ServerSecretParams::generate(SEED_A);
    let other_server = ServerSecretParams::generate(SEED_E);
    let public_params = server.get_public_params();
    let group = GroupSecretParams::generate(SEED_C);
    let group_public = group.get_public_params();
    let response = server.issue_auth_credential(SEED_B, UID, REDEMPTION_TIME);
    let credential = public_params
        .receive_auth_credential(UID, REDEMPTION_TIME, &response)
        .unwrap();
    let p2 = public_params.create_auth_credential_presentation_v2(SEED_D, group, credential);
    assert!(other_server
        .verify_auth_credential_presentation_v2(group_public, &p2)
        .is_err());
}

#[test]
fn auth_presentation_wrong_group_fails() {
    let server = ServerSecretParams::generate(SEED_A);
    let public_params = server.get_public_params();
    let group = GroupSecretParams::generate(SEED_C);
    let other_group_public = GroupSecretParams::generate(SEED_E).get_public_params();
    let response = server.issue_auth_credential(SEED_B, UID, REDEMPTION_TIME);
    let credential = public_params
        .receive_auth_credential(UID, REDEMPTION_TIME, &response)
        .unwrap();
    let p2 = public_params.create_auth_credential_presentation_v2(SEED_D, group, credential);
    assert!(server
        .verify_auth_credential_presentation_v2(other_group_public, &p2)
        .is_err());
}

#[test]
fn auth_presentation_version_mismatch_fails() {
    let server = ServerSecretParams::generate(SEED_A);
    let public_params = server.get_public_params();
    let group = GroupSecretParams::generate(SEED_C);
    let group_public = group.get_public_params();
    let response = server.issue_auth_credential(SEED_B, UID, REDEMPTION_TIME);
    let credential = public_params
        .receive_auth_credential(UID, REDEMPTION_TIME, &response)
        .unwrap();
    let p1 = public_params.create_auth_credential_presentation_v1(SEED_D, group, credential);
    // Re-tag the first-version presentation as second-version: the
    // relations are domain-separated, so it must be rejected.
    let forged = AuthCredentialPresentationV2 {
        version: [2],
        proof: p1.proof,
        ciphertext: p1.ciphertext,
        redemption_time: p1.redemption_time,
    };
    assert!(server
        .verify_auth_credential_presentation_v2(group_public, &forged)
        .is_err());
}

#[test]
fn auth_scenario_is_deterministic() {
    let run = || {
        let server = ServerSecretParams::generate(SEED_A);
        let public_params = server.get_public_params();
        let group = GroupSecretParams::generate(SEED_C);
        let group_public = group.get_public_params();
        let response = server.issue_auth_credential(SEED_B, UID, REDEMPTION_TIME);
        let credential = public_params
            .receive_auth_credential(UID, REDEMPTION_TIME, &response)
            .unwrap();
        let cred_copy = credential.credential;
        let p2 =
            public_params.create_auth_credential_presentation_v2(SEED_D, group, credential);
        assert!(server
            .verify_auth_credential_presentation_v2(group_public, &p2)
            .is_ok());
        (cred_copy, p2)
    };
    let (c1, p1) = run();
    let (c2, p2) = run();
    assert_eq!(c1, c2);
    assert_eq!(p1.ciphertext, p2.ciphertext);
    assert_eq!(p1.redemption_time, p2.redemption_time);
    assert_eq!(p1.proof.pok.challenge, p2.proof.pok.challenge);
    assert_eq!(p1.proof.pok.responses, p2.proof.pok.responses);
    assert_eq!(p1.proof.commitments, p2.proof.commitments);
}

#[test]
fn auth_presentations_are_unlinkable() {
    let server = ServerSecretParams::generate(SEED_A);
    let public_params = server.get_public_params();
    let group = GroupSecretParams::generate(SEED_C);
    let response = server.issue_auth_credential(SEED_B, UID, REDEMPTION_TIME);
    let credential = public_params
        .receive_auth_credential(UID, REDEMPTION_TIME, &response)
        .unwrap();
    let pa = public_params.create_auth_credential_presentation_v2(SEED_D, group, credential);
    let group = GroupSecretParams::generate(SEED_C);
    let credential = public_params
        .receive_auth_credential(UID, REDEMPTION_TIME, &response)
        .unwrap();
    let pb = public_params.create_auth_credential_presentation_v2(SEED_E, group, credential);
    assert_ne!(pa.ciphertext, pb.ciphertext);
}

#[test]
fn profile_key_credential_round_trip() {
    let server = ServerSecretParams::generate(SEED_A);
    let public_params = server.get_public_params();
    let group = GroupSecretParams::generate(SEED_C);
    let group_public = group.get_public_params();
    let profile_key = ProfileKey::create(PROFILE_KEY);
    let commitment = profile_key.get_commitment(UID);

    let context =
        public_params.create_profile_key_credential_request_context(SEED_B, UID, profile_key);
    let request = context.get_request();
    let response = server
        .issue_profile_key_credential(SEED_D, &request, UID, commitment)
        .expect("valid request must be accepted by the issuer");
    let credential = public_params
        .receive_profile_key_credential(&context, &response)
        .expect("honest blinded issuance must be accepted");
    assert_eq!(credential.uid_bytes, UID);
    assert_eq!(credential.profile_key_bytes, PROFILE_KEY);

    let p1 = public_params.create_profile_key_credential_presentation_v1(
        SEED_E,
        group,
        credential,
    );
    assert!(server
        .verify_profile_key_credential_presentation_v1(group_public, &p1)
        .is_ok());
    assert!(server
        .verify_profile_key_credential_presentation(
            group_public,
            &AnyProfileKeyCredentialPresentation::V1(p1),
        )
        .is_ok());

    let group = GroupSecretParams::generate(SEED_C);
    let credential = public_params
        .receive_profile_key_credential(&context, &response)
        .unwrap();
    let any =
        public_params.create_profile_key_credential_presentation(SEED_E, group, credential);
    assert!(server
        .verify_profile_key_credential_presentation(group_public, &any)
        .is_ok());
}

#[test]
fn profile_key_presentation_tampering_fails() {
    let server = ServerSecretParams::generate(SEED_A);
    let public_params = server.get_public_params();
    let group = GroupSecretParams::generate(SEED_C);
    let group_public = group.get_public_params();
    let profile_key = ProfileKey::create(PROFILE_KEY);
    let commitment = profile_key.get_commitment(UID);
    let context =
        public_params.create_profile_key_credential_request_context(SEED_B, UID, profile_key);
    let request = context.get_request();
    let response = server
        .issue_profile_key_credential(SEED_D, &request, UID, commitment)
        .unwrap();
    let credential = public_params
        .receive_profile_key_credential(&context, &response)
        .unwrap();
    let mut p2 = public_params.create_profile_key_credential_presentation_v2(
        SEED_E,
        group,
        credential,
    );
    p2.uid_enc_ciphertext.e2 ^= 1;
    assert!(server
        .verify_profile_key_credential_presentation_v2(group_public, &p2)
        .is_err());
}

#[test]
fn profile_key_wrong_commitment_rejected() {
    let server = ServerSecretParams::generate(SEED_A);
    let public_params = server.get_public_params();
    let profile_key = ProfileKey::create(PROFILE_KEY);
    let mut other_bytes = PROFILE_KEY;
    other_bytes[0] ^= 1;
    let other_commitment = ProfileKey::create(other_bytes).get_commitment(UID);
    let context =
        public_params.create_profile_key_credential_request_context(SEED_B, UID, profile_key);
    let request = context.get_request();
    assert!(server
        .issue_profile_key_credential(SEED_D, &request, UID, other_commitment)
        .is_err());
}

#[test]
fn profile_key_v3_credential_round_trip() {
    let server = ServerSecretParams::generate(SEED_A);
    let public_params = server.get_public_params();
    let group = GroupSecretParams::generate(SEED_C);
    let group_public = group.get_public_params();
    let profile_key = ProfileKey::create(PROFILE_KEY);
    let commitment = profile_key.get_commitment(UID);

    let context = public_params.create_profile_key_credential_v3_request_context(
        SEED_B,
        UID,
        profile_key,
    );
    let request = context.get_request();
    let response = server
        .issue_profile_key_credential_v3(SEED_D, &request, UID, commitment)
        .expect("valid request must be accepted by the issuer");
    let credential = public_params
        .receive_profile_key_credential_v3(&context, &response)
        .expect("honest blinded issuance must be accepted");
    assert_eq!(credential.uid_bytes, UID);
    assert_eq!(credential.profile_key_bytes, PROFILE_KEY);

    let presentation = public_params.create_profile_key_credential_v3_presentation(
        SEED_E,
        group,
        credential,
    );
    let uuid_ct = presentation.get_uuid_ciphertext();
    let pk_ct = presentation.get_profile_key_ciphertext();
    assert_eq!(uuid_ct.ciphertext, presentation.uid_enc_ciphertext);
    assert_eq!(pk_ct.ciphertext, presentation.profile_key_enc_ciphertext);
    assert!(server
        .verify_profile_key_credential_v3_presentation(group_public, &presentation)
        .is_ok());
}

#[test]
fn profile_key_v3_rejects_other_family_key() {
    // The two profile key families use independent key pairs and
    // domain-separated relations: a second-version presentation cannot
    // pass the third-family verifier.
    let server = ServerSecretParams::generate(SEED_A);
    let public_params = server.get_public_params();
    let group = GroupSecretParams::generate(SEED_C);
    let group_public = group.get_public_params();
    let profile_key = ProfileKey::create(PROFILE_KEY);
    let commitment = profile_key.get_commitment(UID);
    let context =
        public_params.create_profile_key_credential_request_context(SEED_B, UID, profile_key);
    let request = context.get_request();
    let response = server
        .issue_profile_key_credential(SEED_D, &request, UID, commitment)
        .unwrap();
    let credential = public_params
        .receive_profile_key_credential(&context, &response)
        .unwrap();
    let p2 = public_params.create_profile_key_credential_presentation_v2(
        SEED_E,
        group,
        credential,
    );
    let forged = zkgroup::api::ProfileKeyCredentialV3Presentation {
        version: [3],
        proof: p2.proof,
        uid_enc_ciphertext: p2.uid_enc_ciphertext,
        profile_key_enc_ciphertext: p2.profile_key_enc_ciphertext,
    };
    assert!(server
        .verify_profile_key_credential_v3_presentation(group_public, &forged)
        .is_err());
}

#[test]
fn pni_credential_round_trip() {
    let server = ServerSecretParams::generate(SEED_A);
    let public_params = server.get_public_params();
    let group = GroupSecretParams::generate(SEED_C);
    let group_public = group.get_public_params();
    let profile_key = ProfileKey::create(PROFILE_KEY);
    let commitment = profile_key.get_commitment(UID);

    let context = public_params.create_pni_credential_request_context(
        SEED_B,
        UID,
        PNI,
        profile_key,
    );
    let request = context.get_request();
    let response = server
        .issue_pni_credential(SEED_D, &request, UID, PNI, commitment)
        .expect("valid request must be accepted by the issuer");
    let credential = public_params
        .receive_pni_credential(&context, &response)
        .expect("honest blinded issuance must be accepted");
    assert_eq!(credential.aci_bytes, UID);
    assert_eq!(credential.pni_bytes, PNI);
    assert_eq!(credential.profile_key_bytes, PROFILE_KEY);

    let p1 = public_params.create_pni_credential_presentation_v1(SEED_E, group, credential);
    assert!(server
        .verify_pni_credential_presentation_v1(group_public, &p1)
        .is_ok());
    assert!(server
        .verify_pni_credential_presentation(
            group_public,
            &AnyPniCredentialPresentation::V1(p1),
        )
        .is_ok());

    let group = GroupSecretParams::generate(SEED_C);
    let credential = public_params
        .receive_pni_credential(&context, &response)
        .unwrap();
    let any = public_params.create_pni_credential_presentation(SEED_E, group, credential);
    assert!(server
        .verify_pni_credential_presentation(group_public, &any)
        .is_ok());
}

#[test]
fn receipt_credential_round_trip() {
    let server = ServerSecretParams::generate(SEED_A);
    let public_params = server.get_public_params();
    let expiration: u64 = 1700000000;
    let level: u64 = 3;

    let context = public_params.create_receipt_credential_request_context(SEED_B, SERIAL);
    let request = context.get_request();
    let response = server.issue_receipt_credential(SEED_D, &request, expiration, level);
    let credential = public_params
        .receive_receipt_credential(&context, &response)
        .expect("honest blinded issuance must be accepted");
    assert_eq!(credential.receipt_serial_bytes, SERIAL);
    assert_eq!(credential.receipt_expiration_time, expiration);
    assert_eq!(credential.receipt_level, level);

    let presentation =
        public_params.create_receipt_credential_presentation(SEED_E, &credential);
    assert!(server
        .verify_receipt_credential_presentation(&presentation)
        .is_ok());

    let mut tampered =
        public_params.create_receipt_credential_presentation(SEED_E, &credential);
    tampered.receipt_level += 1;
    assert!(server
        .verify_receipt_credential_presentation(&tampered)
        .is_err());
}

#[test]
fn receipt_receive_rejects_tampered_response() {
    let server = ServerSecretParams::generate(SEED_A);
    let public_params = server.get_public_params();
    let context = public_params.create_receipt_credential_request_context(SEED_B, SERIAL);
    let request = context.get_request();
    let mut response = server.issue_receipt_credential(SEED_D, &request, 1700000000, 3);
    response.receipt_level += 1;
    assert!(public_params
        .receive_receipt_credential(&context, &response)
        .is_err());
}

#[test]
fn signature_round_trip() {
    let server = ServerSecretParams::generate(SEED_A);
    let public_params = server.get_public_params();
    let message = b"published parameters";
    let signature = server.sign(SEED_B, message);
    assert!(public_params.verify_signature(message, signature).is_ok());
    assert!(public_params
        .verify_signature(b"another message", signature)
        .is_err());
    let mut bad = signature;
    bad.z ^= 1;
    assert!(public_params.verify_signature(message, bad).is_err());
}
