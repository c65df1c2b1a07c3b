use domo_pitchfork::auth::{DomoAuth, DomoClientAppCredentials, DomoScope, DomoToken};
use domo_pitchfork::client::{DomoPitchfork, RustyPitchfork};
use domo_pitchfork::clock::{datetime_to_timestamp, timestamp_after};
use domo_pitchfork::directory::ActivityLogSearchQuery;
use domo_pitchfork::error::{CliError, DomoErr, PitchforkError, PitchforkErrorKind};
use domo_pitchfork::text::convert_map_to_string;

#[test]
fn test_convert_map_to_string() {
    let map = vec![("limit".to_string(), 1.to_string()), ("offset".to_string(), 2.to_string())];
    let actual = convert_map_to_string(&map);
    let expected = format!("limit={}&offset={}", 1, 2);
    assert_eq!(actual, expected);
}

#[test]
fn empty_map_gives_empty_query() {
    assert_eq!(convert_map_to_string(&Vec::new()), "");
}

#[test]
fn test_datatime_to_timestamp() {
    let before = datetime_to_timestamp(0);
    let later = datetime_to_timestamp(3600);
    assert!(later >= before + 3600);
    assert!(later <= before + 3600 + 60);
    assert_eq!(timestamp_after(1_000, 60), 1_060);
    assert_eq!(timestamp_after(i64::MAX - 1, 5), i64::MAX);
}

#[test]
fn activity_query_string() {
    let mut q = ActivityLogSearchQuery { user_id: Some(7), start: 100, end: Some(200), limit: None, offset: Some(5) };
    assert_eq!(q.create_query_string(), "start=100&end=200&offset=5&user=7");
    assert_eq!(q.end, None);
    assert_eq!(q.create_query_string(), "start=100");
}

#[test]
fn token_builders() {
    let t = DomoToken::default().access_token("abc").token_type("bearer").expires_in(3600).scope("data");
    assert_eq!(t.access_token, "abc");
    assert_eq!(t.token_type, "bearer");
    assert_eq!(t.expires_in, 3600);
    assert_eq!(t.scope, "data");
    assert_eq!(t.customer, "");
}

#[test]
fn token_refresh_decisions() {
    assert!(DomoAuth::needs_refresh(&None, 0));
    let t = DomoToken::default().access_token("tok").expires_in(10);
    let first = DomoAuth::renewed(&None, t.clone(), 100);
    assert_eq!(first.token_refresh_count, 0);
    let cached = Some(first);
    assert!(!DomoAuth::needs_refresh(&cached, 110));
    assert!(DomoAuth::needs_refresh(&cached, 111));
    assert!(!DomoAuth::needs_refresh(&cached, 50));
    let mut second = DomoAuth::renewed(&cached, t, 111);
    assert_eq!(second.token_refresh_count, 1);
    assert_eq!(second.use_token(), "tok");
    assert_eq!(second.token_use_count, 1);
}

#[test]
fn credentials_and_scopes() {
    let all = DomoClientAppCredentials::from_settings("id".into(), "secret".into(), true, true, true, true);
    assert_eq!(all.scope_param(), "data%20user%20audit%20dashboard");
    let some = DomoClientAppCredentials::from_settings("id".into(), "".into(), false, true, true, true);
    assert_eq!(some.scope_param(), "data");
    assert!(!some.is_complete());
    let c = some
        .client_id("cid")
        .client_secret("cs")
        .client_scope(DomoScope { data: false, user: true, audit: false, dashboard: true });
    assert!(c.is_complete());
    assert_eq!(c.scope_param(), "user%20dashboard");
    assert_eq!(c.get_access_token(), None);
    let c = c.token_info(DomoToken::default().access_token("t1"));
    assert_eq!(c.get_access_token(), Some("t1".to_string()));
    let none = c.client_scope(DomoScope { data: false, user: false, audit: false, dashboard: false });
    assert_eq!(none.scope_param(), "");
}

#[test]
fn client_configuration() {
    let c = RustyPitchfork::default();
    assert_eq!(c.base_uri, "https://api.domo.com/");
    let c = c.base_uri("http://localhost/").access_token("tok").build();
    assert_eq!(c.base_uri, "http://localhost/");
    assert_eq!(c.access_token.as_deref(), Some("tok"));
    let creds = DomoClientAppCredentials::from_settings("a".into(), "b".into(), false, false, false, false);
    let c = RustyPitchfork::default().auth_manager(creds).build();
    assert!(c.auth_manager.is_some());
    assert_eq!(DomoPitchfork::with_token("t").auth, "t");
}

#[test]
fn error_constructors() {
    let e = PitchforkError::new("bad".to_string());
    assert!(matches!(e.kind, PitchforkErrorKind::Unknown));
    let mut e = PitchforkError::from("worse".to_string()).with_source("cause".to_string());
    assert_eq!(e.source.as_deref(), Some("cause"));
    e.with_kind(PitchforkErrorKind::Csv);
    assert!(matches!(e.kind, PitchforkErrorKind::Csv));
    assert_eq!(DomoErr("No Execution ID".to_string()).message(), "There is an error: No Execution ID");
    assert_eq!(CliError::Flag("--x".to_string()).message(), "--x");
}
