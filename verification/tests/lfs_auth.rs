use git_filter_bridge::lfs::{LfsAuthenticate, RemoteCallbacks};

fn valid_reply() -> Vec<u8> {
    b"{\"header\":{\"Authorization\":\"Basic SECRET-REDACTED\"},\"href\":\"https://example.com/repo/info/lfs\",\"expires_in\":3600}"
        .to_vec()
}

fn helper_with_callbacks() -> LfsAuthenticate {
    let mut helper = LfsAuthenticate::new("https://example.com/repo.git");
    helper.remote_callbacks(RemoteCallbacks {});
    helper
}

#[test]
fn auth_parses_a_valid_reply() {
    let helper = helper_with_callbacks();
    let reply = valid_reply();
    let granted = helper.auth(&reply, reply.len() as i32);
    let auth = granted.expect("a valid reply grants a credential");
    assert_eq!(auth.header.authorization, "Basic SECRET-REDACTED".to_string());
    assert_eq!(auth.href, "https://example.com/repo/info/lfs".to_string());
    assert_eq!(auth.expires_in, 3600);
}

#[test]
fn auth_without_callbacks_grants_nothing() {
    let helper = LfsAuthenticate::new("https://example.com/repo.git");
    let reply = valid_reply();
    assert!(helper.auth(&reply, reply.len() as i32).is_none());
}

#[test]
fn auth_rejects_inadmissible_lengths() {
    let helper = helper_with_callbacks();
    let reply = valid_reply();
    assert!(helper.auth(&reply, 0).is_none());
    assert!(helper.auth(&reply, -1).is_none());
    assert!(helper.auth(&reply, 4096).is_none());
    assert!(helper.auth(&reply, 5000).is_none());
    assert!(helper.auth(&reply, reply.len() as i32 + 1).is_none());
}

#[test]
fn auth_reads_only_the_reported_length() {
    let helper = helper_with_callbacks();
    let mut reply = valid_reply();
    let good_len = reply.len() as i32;
    reply.extend_from_slice(b"trailing garbage");
    let auth = helper.auth(&reply, good_len).expect("the tail past the length is not read");
    assert_eq!(auth.expires_in, 3600);
}

#[test]
fn auth_rejects_malformed_replies() {
    let helper = helper_with_callbacks();

    let not_json = b"not json at all".to_vec();
    assert!(helper.auth(&not_json, not_json.len() as i32).is_none());

    let missing_href =
        b"{\"header\":{\"Authorization\":\"x\"},\"expires_in\":1}".to_vec();
    assert!(helper.auth(&missing_href, missing_href.len() as i32).is_none());

    let missing_header = b"{\"href\":\"h\",\"expires_in\":1}".to_vec();
    assert!(helper.auth(&missing_header, missing_header.len() as i32).is_none());

    let wrong_header_key =
        b"{\"header\":{\"authorization\":\"x\"},\"href\":\"h\",\"expires_in\":1}".to_vec();
    assert!(helper.auth(&wrong_header_key, wrong_header_key.len() as i32).is_none());

    let expires_too_large =
        b"{\"header\":{\"Authorization\":\"x\"},\"href\":\"h\",\"expires_in\":4294967296}"
            .to_vec();
    assert!(helper.auth(&expires_too_large, expires_too_large.len() as i32).is_none());

    let expires_negative =
        b"{\"header\":{\"Authorization\":\"x\"},\"href\":\"h\",\"expires_in\":-1}".to_vec();
    assert!(helper.auth(&expires_negative, expires_negative.len() as i32).is_none());

    let expires_string =
        b"{\"header\":{\"Authorization\":\"x\"},\"href\":\"h\",\"expires_in\":\"1\"}".to_vec();
    assert!(helper.auth(&expires_string, expires_string.len() as i32).is_none());

    let truncated = &valid_reply()[..20];
    assert!(helper.auth(&truncated.to_vec(), 20).is_none());
}

#[test]
fn auth_with_reads_a_reply_directly() {
    let helper = LfsAuthenticate::new("https://example.com/repo.git");
    let reply = valid_reply();
    let auth = helper.auth_with(&reply, reply.len() as i32).expect("admissible length parses");
    assert_eq!(auth.href, "https://example.com/repo/info/lfs".to_string());
    assert!(helper.auth_with(&reply, 0).is_none());
}

#[test]
fn expires_at_the_32_bit_bound_is_kept() {
    let helper = helper_with_callbacks();
    let at_bound =
        b"{\"header\":{\"Authorization\":\"x\"},\"href\":\"h\",\"expires_in\":4294967295}"
            .to_vec();
    let auth = helper.auth(&at_bound, at_bound.len() as i32).expect("u32::MAX fits");
    assert_eq!(auth.expires_in, u32::MAX);
}
