use client_cache::auth::AuthOutput;
use client_cache::cache::{
    refresh_client, ClientCache, ExpiringClient, RefreshError,
};

fn token(text: &str, ttl: i64) -> Result<AuthOutput, String> {
    Ok(AuthOutput::new(String::from(text), ttl))
}

fn build_error() -> reqwest::Error {
    reqwest::Client::builder().user_agent("bad\nagent").build().unwrap_err()
}

#[test]
fn entry_is_valid_strictly_before_its_expiration() {
    let entry = ExpiringClient::new(reqwest::Client::new(), 100, 3600);
    assert_eq!(entry.expiration_time(), 3700);
    assert!(entry.is_valid(100));
    assert!(entry.is_valid(3699));
    assert!(!entry.is_valid(3700));
    assert!(!entry.is_valid(3701));
    let _handle: reqwest::Client = entry.client();
}

#[test]
fn entry_with_zero_or_negative_lifetime_is_never_valid() {
    let zero = ExpiringClient::new(reqwest::Client::new(), 50, 0);
    assert_eq!(zero.expiration_time(), 50);
    assert!(!zero.is_valid(50));
    let negative = ExpiringClient::new(reqwest::Client::new(), 50, -10);
    assert_eq!(negative.expiration_time(), 40);
    assert!(!negative.is_valid(50));
    assert!(!negative.is_valid(40));
    assert!(negative.is_valid(39));
}

#[test]
fn expiration_does_not_overflow() {
    let entry = ExpiringClient::new(reqwest::Client::new(), i64::MAX, i64::MAX);
    assert_eq!(entry.expiration_time(), 2 * (i64::MAX as i128));
    assert!(entry.is_valid(i64::MAX));
    let early = ExpiringClient::new(reqwest::Client::new(), i64::MIN, i64::MIN);
    assert_eq!(early.expiration_time(), 2 * (i64::MIN as i128));
    assert!(!early.is_valid(i64::MIN));
}

#[test]
fn new_cache_holds_nothing() {
    let cache = ClientCache::new();
    assert!(cache.lookup("ABC", 0).is_none());
    assert_eq!(cache.expiration_time("ABC"), None);
}

#[test]
fn cached_client_is_served_until_expiry_then_refreshed() {
    let mut cache = ClientCache::new();
    assert!(cache.lookup("ABC", 0).is_none());
    assert!(cache.complete_refresh("ABC", 0, token("tok1", 3600)).is_ok());
    assert_eq!(cache.expiration_time("ABC"), Some(3600));

    assert!(cache.lookup("ABC", 1000).is_some());
    assert!(cache.lookup("ABC", 3599).is_some());
    assert_eq!(cache.expiration_time("ABC"), Some(3600));

    assert!(cache.lookup("ABC", 3600).is_none());
    assert!(cache.lookup("ABC", 4000).is_none());
    assert!(cache.complete_refresh("ABC", 4000, token("tok2", 3600)).is_ok());
    assert_eq!(cache.expiration_time("ABC"), Some(4000 + 3600));
    assert!(cache.lookup("ABC", 4000).is_some());
}

#[test]
fn request_within_lifetime_does_not_authenticate_again() {
    let mut cache = ClientCache::new();
    let first = refresh_client(&mut cache, 0, String::from("ABC"), String::from("shh"));
    assert!(first.is_ok());
    assert_eq!(cache.expiration_time("ABC"), Some(3600));
    let second = refresh_client(&mut cache, 1000, String::from("ABC"), String::from("shh"));
    assert!(second.is_ok());
    assert_eq!(cache.expiration_time("ABC"), Some(3600));
    let third = refresh_client(&mut cache, 4000, String::from("ABC"), String::from("shh"));
    assert!(third.is_ok());
    assert_eq!(cache.expiration_time("ABC"), Some(7600));
}

#[test]
fn cached_client_is_served_whatever_the_secret() {
    let mut cache = ClientCache::new();
    assert!(refresh_client(&mut cache, 10, String::from("ABC"), String::from("shh")).is_ok());
    assert!(refresh_client(&mut cache, 20, String::from("ABC"), String::from("bad\n")).is_ok());
    assert_eq!(cache.expiration_time("ABC"), Some(3610));
}

#[test]
fn other_secret_is_accepted_after_expiry() {
    let mut cache = ClientCache::new();
    assert!(refresh_client(&mut cache, 0, String::from("ABC"), String::from("shh")).is_ok());
    assert!(refresh_client(&mut cache, 3600, String::from("ABC"), String::from("new")).is_ok());
    assert_eq!(cache.expiration_time("ABC"), Some(7200));
}

#[test]
fn keys_are_cached_apart() {
    let mut cache = ClientCache::new();
    assert!(cache.complete_refresh("one", 0, token("t1", 100)).is_ok());
    assert!(cache.complete_refresh("two", 50, token("t2", 100)).is_ok());
    assert_eq!(cache.expiration_time("one"), Some(100));
    assert_eq!(cache.expiration_time("two"), Some(150));
    assert_eq!(cache.expiration_time("three"), None);
    assert!(cache.lookup("one", 120).is_none());
    assert!(cache.lookup("two", 120).is_some());
    assert!(cache.complete_refresh("one", 120, token("t3", 100)).is_ok());
    assert_eq!(cache.expiration_time("one"), Some(220));
    assert_eq!(cache.expiration_time("two"), Some(150));
}

#[test]
fn token_without_lifetime_is_refreshed_at_once() {
    let mut cache = ClientCache::new();
    assert!(cache.complete_refresh("ABC", 7, token("tok1", 0)).is_ok());
    assert_eq!(cache.expiration_time("ABC"), Some(7));
    assert!(cache.lookup("ABC", 7).is_none());
    assert!(cache.complete_refresh("ABC", 7, token("tok1", -3)).is_ok());
    assert_eq!(cache.expiration_time("ABC"), Some(4));
    assert!(cache.lookup("ABC", 7).is_none());
}

#[test]
fn failed_authentication_keeps_the_prior_entry() {
    let mut cache = ClientCache::new();
    assert!(cache.complete_refresh("ABC", 0, token("tok1", 3600)).is_ok());
    let res = cache.complete_refresh("ABC", 100, Err(String::from("bad credentials")));
    match res {
        Err(RefreshError::AuthenticationFailed(cause)) => assert_eq!(cause, "bad credentials"),
        _ => panic!("authentication failure was not reported"),
    }
    assert_eq!(cache.expiration_time("ABC"), Some(3600));
    assert!(cache.lookup("ABC", 100).is_some());
    assert!(cache.lookup("ABC", 3600).is_none());
}

#[test]
fn failed_authentication_adds_no_entry() {
    let mut cache = ClientCache::new();
    let res = cache.complete_refresh("ABC", 0, Err(String::from("down")));
    assert!(matches!(res, Err(RefreshError::AuthenticationFailed(_))));
    assert_eq!(cache.expiration_time("ABC"), None);
}

#[test]
fn token_that_cannot_be_encoded_keeps_the_prior_entry() {
    let mut cache = ClientCache::new();
    assert!(cache.complete_refresh("ABC", 0, token("tok1", 10)).is_ok());
    let res = cache.complete_refresh("ABC", 20, token("tok\n2", 3600));
    assert!(matches!(res, Err(RefreshError::InvalidCredentialEncoding(_))));
    assert_eq!(cache.expiration_time("ABC"), Some(10));
}

#[test]
fn key_that_cannot_be_encoded_is_rejected() {
    let mut cache = ClientCache::new();
    let res = refresh_client(&mut cache, 0, String::from("A\nBC"), String::from("shh"));
    assert!(matches!(res, Err(RefreshError::InvalidCredentialEncoding(_))));
    assert_eq!(cache.expiration_time("A\nBC"), None);
    let res = refresh_client(&mut cache, 0, String::from("ABC"), String::from("s\nh"));
    assert!(matches!(res, Err(RefreshError::InvalidCredentialEncoding(_))));
    assert_eq!(cache.expiration_time("ABC"), None);
}

#[test]
fn failed_build_keeps_the_prior_entry() {
    let mut cache = ClientCache::new();
    assert!(cache.install("ABC", 0, 3600, Ok(reqwest::Client::new())).is_ok());
    assert_eq!(cache.expiration_time("ABC"), Some(3600));
    let res = cache.install("ABC", 5000, 3600, Err(build_error()));
    assert!(matches!(res, Err(RefreshError::ClientConstructionFailed(_))));
    assert_eq!(cache.expiration_time("ABC"), Some(3600));
    let res = cache.install("other", 5000, 3600, Err(build_error()));
    assert!(matches!(res, Err(RefreshError::ClientConstructionFailed(_))));
    assert_eq!(cache.expiration_time("other"), None);
}

#[test]
fn store_replaces_the_entry_of_its_key_only() {
    let mut cache = ClientCache::new();
    cache.store("a", reqwest::Client::new(), 0, 10);
    cache.store("b", reqwest::Client::new(), 0, 20);
    cache.store("a", reqwest::Client::new(), 5, 10);
    assert_eq!(cache.expiration_time("a"), Some(15));
    assert_eq!(cache.expiration_time("b"), Some(20));
    assert_eq!(cache.expiration_time(""), None);
}

#[test]
fn messages_name_the_failure_and_its_cause() {
    let auth = RefreshError::AuthenticationFailed(String::from("no route"));
    assert_eq!(auth.message(), "Authentication failed: no route");
    let encoding = RefreshError::InvalidCredentialEncoding(String::from("x"));
    assert_eq!(encoding.message(), "Invalid header value: x");
    let build = RefreshError::ClientConstructionFailed(String::from("y"));
    assert_eq!(build.message(), "Failed to build client: y");
}

#[test]
fn encoding_failure_carries_the_cause_of_the_header_error() {
    let mut cache = ClientCache::new();
    match cache.complete_refresh("ABC", 0, token("\n", 1)) {
        Err(error) => assert_eq!(
            error.message(),
            "Invalid header value: failed to parse header value"
        ),
        Ok(_) => panic!("a token with a line break was accepted"),
    }
}

#[test]
fn refresh_at_a_late_instant_caches_for_the_token_lifetime() {
    let mut cache = ClientCache::new();
    let now: i64 = 1_800_000_000;
    assert!(refresh_client(&mut cache, now, String::from("ABC"), String::from("shh")).is_ok());
    let first = cache.expiration_time("ABC").unwrap();
    assert_eq!(first, 1_800_003_600);
    assert!(refresh_client(&mut cache, now + 1, String::from("ABC"), String::from("shh")).is_ok());
    assert_eq!(cache.expiration_time("ABC"), Some(first));
    assert!(cache.lookup("ABC", (first - 1) as i64).is_some());
    assert!(cache.lookup("ABC", first as i64).is_none());
}

#[test]
fn new_client_sends_the_credentials_by_default() {
    let mut cache = ClientCache::new();
    let client = cache.complete_refresh("ABC", 0, token("tok1", 3600)).unwrap();
    let shown = format!("{:?}", client);
    assert!(shown.contains("\"x-api-key\": \"ABC\""));
    assert!(shown.contains("\"authorization\": Sensitive"));
    let cached = cache.lookup("ABC", 1).unwrap();
    assert_eq!(format!("{:?}", cached), shown);
}

#[test]
fn second_request_at_the_same_instant_is_served_from_the_cache() {
    let mut cache = ClientCache::new();
    assert!(cache.lookup("ABC", 500).is_none());
    let first = cache.complete_refresh("ABC", 500, token("tok1", 60)).unwrap();
    let second = cache.lookup("ABC", 500).unwrap();
    assert_eq!(format!("{:?}", first), format!("{:?}", second));
    assert_eq!(cache.expiration_time("ABC"), Some(560));
}

#[test]
fn lookup_changes_nothing() {
    let mut cache = ClientCache::new();
    cache.store("a", reqwest::Client::new(), 0, 10);
    assert!(cache.lookup("a", 9).is_some());
    assert!(cache.lookup("a", 10).is_none());
    assert!(cache.lookup("a", 9).is_some());
    assert_eq!(cache.expiration_time("a"), Some(10));
    assert!(cache.lookup("b", 0).is_none());
    assert_eq!(cache.expiration_time("b"), None);
}

#[test]
fn keys_differ_by_case_and_length() {
    let mut cache = ClientCache::new();
    cache.store("abc", reqwest::Client::new(), 0, 10);
    assert!(cache.lookup("ABC", 0).is_none());
    assert!(cache.lookup("ab", 0).is_none());
    assert!(cache.lookup("abcd", 0).is_none());
    assert!(cache.lookup("abc", 0).is_some());
}
