use kisan_ai::token::{cache_entry, cached_token, read_token_response, CachedToken};

#[test]
fn empty_cache_has_no_token() {
    assert_eq!(cached_token(&None, 0), None);
}

#[test]
fn token_is_used_until_it_expires() {
    let cache = Some(CachedToken { token: String::from("abc"), expires_at: 100 });
    assert_eq!(cached_token(&cache, 0), Some(String::from("abc")));
    assert_eq!(cached_token(&cache, 99), Some(String::from("abc")));
    assert_eq!(cached_token(&cache, 100), None);
    assert_eq!(cached_token(&cache, 101), None);
}

#[test]
fn fresh_token_is_kept_for_55_minutes() {
    let entry = cache_entry("abc", 1000);
    assert_eq!(entry.token, "abc");
    assert_eq!(entry.expires_at, 1000 + 55 * 60);
    let cache = Some(entry);
    assert_eq!(cached_token(&cache, 1000 + 3299), Some(String::from("abc")));
    assert_eq!(cached_token(&cache, 1000 + 3300), None);
}

#[test]
fn token_is_read_from_the_response() {
    assert_eq!(
        read_token_response(true, "200 OK", r#"{"access_token":"eyJ","expires_in":3600}"#),
        Ok(String::from("eyJ"))
    );
}

#[test]
fn response_without_token() {
    for body in [r#"{"expires_in":3600}"#, r#"{"access_token":17}"#, "not json", ""] {
        assert_eq!(
            read_token_response(true, "200 OK", body),
            Err(String::from("No access token in response")),
            "{body:?}"
        );
    }
}

#[test]
fn refused_token_request() {
    assert_eq!(
        read_token_response(false, "401 Unauthorized", r#"{"access_token":"eyJ"}"#),
        Err(String::from("IAM Token Error: 401 Unauthorized - {\"access_token\":\"eyJ\"}"))
    );
    assert_eq!(read_token_response(false, "500", ""), Err(String::from("IAM Token Error: 500 - ")));
}
