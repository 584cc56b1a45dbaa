use npc_backend::registration::{
    register_url, registration_mac, registration_mac_message, registration_outcome,
    registration_request, RegistrationError,
};

#[test]
fn register_url_points_at_synapse_admin_api() {
    assert_eq!(
        register_url("matrix.npc.svc.cluster.local"),
        "https://matrix.npc.svc.cluster.local/_synapse/admin/v1/register"
    );
}

#[test]
fn mac_message_separates_fields_with_nul() {
    let m = registration_mac_message("abc", "agent_0", "pw_0", false);
    assert_eq!(m, b"abc\0agent_0\0pw_0\0notadmin".to_vec());
    let m = registration_mac_message("n", "u", "p", true);
    assert_eq!(m, b"n\0u\0p\0admin".to_vec());
}

#[test]
fn mac_message_encodes_utf8() {
    let m = registration_mac_message("é", "u", "p", true);
    assert_eq!(m, "é\0u\0p\0admin".as_bytes().to_vec());
}

#[test]
fn registration_mac_matches_hmac_sha1_hex() {
    assert_eq!(
        registration_mac("abc", "agent_0", "pw_0", false, "s3cret"),
        "ca44074ddb7ca4c22b189ece61b4e8ae9f31608c"
    );
    assert_eq!(
        registration_mac("n0nce", "controller", "hunter2", true, "shared"),
        "32ecc1b1335a0913e82cf7292d350c9abae7fe9d"
    );
}

#[test]
fn registration_mac_depends_on_role() {
    let admin = registration_mac("abc", "agent_0", "pw_0", true, "s3cret");
    let plain = registration_mac("abc", "agent_0", "pw_0", false, "s3cret");
    assert_ne!(admin, plain);
    assert_eq!(admin.len(), 40);
}

#[test]
fn registration_request_without_nonce_fails() {
    let r = registration_request(None, "agent_0", "pw_0", false, "s3cret");
    assert!(matches!(r, Err(RegistrationError::MissingNonce)));
}

#[test]
fn registration_request_carries_fields_and_mac() {
    let r = registration_request(Some("abc".to_string()), "agent_0", "pw_0", false, "s3cret");
    let req = match r {
        Ok(req) => req,
        Err(_) => panic!("nonce was given"),
    };
    assert_eq!(req.nonce, "abc");
    assert_eq!(req.username, "agent_0");
    assert_eq!(req.password, "pw_0");
    assert!(!req.admin);
    assert_eq!(req.mac, "ca44074ddb7ca4c22b189ece61b4e8ae9f31608c");
}

#[test]
fn registration_outcome_accepts_only_2xx() {
    assert_eq!(registration_outcome(200), Ok(()));
    assert_eq!(registration_outcome(201), Ok(()));
    assert_eq!(registration_outcome(299), Ok(()));
    assert_eq!(registration_outcome(199), Err(RegistrationError::Rejected));
    assert_eq!(registration_outcome(300), Err(RegistrationError::Rejected));
    assert_eq!(registration_outcome(400), Err(RegistrationError::Rejected));
}

#[test]
fn registration_request_for_example_agent() {
    let req = registration_request(Some("abc".to_string()), "agent_0", "pw_0", false, "s")
        .ok()
        .expect("a nonce gives a request");
    assert_eq!(req.mac, "38af6d4944f5366707b0d61282f89cdac889d67d");
    assert_eq!(req.mac.len(), 40);
    assert!(req.mac.chars().all(|c| c.is_ascii_digit() || ('a'..='f').contains(&c)));
}
