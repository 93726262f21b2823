use session_auth::auth::{
    cookie_value, extract_session_token, mandatory_gate, optional_gate, resolve_session,
    session_cookie_name, session_user_id, user_to_auth, UNAUTHORIZED,
};
use session_auth::clock::resolve_session_now;
use session_auth::records::{CookiePair, SessionRecord, UserRecord};
use session_auth::store::{SessionStore, UserStore};

fn s(x: &str) -> String {
    x.to_string()
}

fn session_row(token: &str, user_id: &str, expires_at_millis: i64) -> SessionRecord {
    SessionRecord {
        id: format!("session-{}", token),
        user_id: s(user_id),
        token: s(token),
        expires_at_millis,
        ip_address: None,
        user_agent: None,
        created_at_millis: 0,
        updated_at_millis: 0,
    }
}

fn user_row(id: &str, name: &str, deleted_at_millis: Option<i64>) -> UserRecord {
    UserRecord {
        id: s(id),
        name: s(name),
        email: format!("{}@example.com", name),
        email_verified: true,
        image: None,
        created_at_millis: 0,
        updated_at_millis: 0,
        deleted_at_millis,
    }
}

fn jar_with(value: &str) -> Vec<CookiePair> {
    vec![CookiePair { name: s("better-auth.session_token"), value: s(value) }]
}

const HOUR_MILLIS: i64 = 3_600_000;
const NOW: i64 = 1_700_000_000_000;

fn seeded_stores() -> (SessionStore, UserStore) {
    let mut sessions = SessionStore::new();
    sessions.add(session_row("tok1", "u1", NOW + HOUR_MILLIS));
    let mut users = UserStore::new();
    users.add(user_row("u1", "Alice", None));
    (sessions, users)
}

#[test]
fn extract_keeps_segment_before_first_dot() {
    assert_eq!(extract_session_token("abc123.sig1"), "abc123");
    assert_eq!(extract_session_token("a.b.c"), "a");
    assert_eq!(extract_session_token(".sig"), "");
    assert_eq!(extract_session_token(""), "");
}

#[test]
fn extract_without_separator_keeps_whole_value() {
    assert_eq!(extract_session_token("plaintoken"), "plaintoken");
}

#[test]
fn extract_is_idempotent_on_signature() {
    let from_sig1 = extract_session_token("abc123.sig1");
    let from_sig2 = extract_session_token("abc123.sig2");
    assert_eq!(from_sig1, from_sig2);
    assert_eq!(from_sig1, "abc123");
}

#[test]
fn cookie_lookup_finds_named_cookie() {
    let jar = vec![
        CookiePair { name: s("theme"), value: s("dark") },
        CookiePair { name: s("better-auth.session_token"), value: s("tok1.sig") },
    ];
    let found = cookie_value(&jar, &session_cookie_name());
    assert_eq!(found, Some(&s("tok1.sig")));
}

#[test]
fn cookie_lookup_takes_first_match() {
    let jar = vec![
        CookiePair { name: s("better-auth.session_token"), value: s("first.sig") },
        CookiePair { name: s("better-auth.session_token"), value: s("second.sig") },
    ];
    let found = cookie_value(&jar, &session_cookie_name());
    assert_eq!(found, Some(&s("first.sig")));
}

#[test]
fn cookie_lookup_misses_other_names() {
    let jar = vec![CookiePair { name: s("theme"), value: s("dark") }];
    assert_eq!(cookie_value(&jar, &session_cookie_name()), None);
}

#[test]
fn missing_cookie_is_unauthenticated_at_both_gates() {
    let (sessions, users) = seeded_stores();
    let jar: Vec<CookiePair> = Vec::new();
    let resolved = resolve_session(&jar, NOW, &sessions, &users);
    assert!(resolved.is_none());
    assert!(matches!(mandatory_gate(resolved), Err(UNAUTHORIZED)));
    let resolved_again = resolve_session(&jar, NOW, &sessions, &users);
    assert!(optional_gate(resolved_again).0.is_none());
}

#[test]
fn expired_session_resolves_to_absence() {
    let mut sessions = SessionStore::new();
    sessions.add(session_row("tok1", "u1", NOW - HOUR_MILLIS));
    let mut users = UserStore::new();
    users.add(user_row("u1", "Alice", None));
    let jar = jar_with("tok1.sig");
    assert!(resolve_session(&jar, NOW, &sessions, &users).is_none());
}

#[test]
fn expiry_exactly_at_now_still_resolves() {
    let mut sessions = SessionStore::new();
    sessions.add(session_row("tok1", "u1", NOW));
    let mut users = UserStore::new();
    users.add(user_row("u1", "Alice", None));
    let jar = jar_with("tok1.sig");
    assert!(resolve_session(&jar, NOW, &sessions, &users).is_some());
}

#[test]
fn deleted_user_resolves_to_absence() {
    let mut sessions = SessionStore::new();
    sessions.add(session_row("tok1", "u1", NOW + HOUR_MILLIS));
    let mut users = UserStore::new();
    users.add(user_row("u1", "Alice", Some(NOW - HOUR_MILLIS)));
    let jar = jar_with("tok1.sig");
    assert!(resolve_session(&jar, NOW, &sessions, &users).is_none());
}

#[test]
fn unknown_token_resolves_to_absence() {
    let (sessions, users) = seeded_stores();
    let jar = jar_with("unknown.sig");
    assert!(resolve_session(&jar, NOW, &sessions, &users).is_none());
}

#[test]
fn session_of_missing_user_resolves_to_absence() {
    let mut sessions = SessionStore::new();
    sessions.add(session_row("tok1", "ghost", NOW + HOUR_MILLIS));
    let users = UserStore::new();
    let jar = jar_with("tok1.sig");
    assert!(resolve_session(&jar, NOW, &sessions, &users).is_none());
}

#[test]
fn valid_session_resolves_to_user() {
    let (sessions, users) = seeded_stores();
    let jar = jar_with("tok1.anything");
    let resolved = resolve_session(&jar, NOW, &sessions, &users);
    let auth = resolved.expect("valid session should resolve");
    assert_eq!(auth.id, "u1");
    assert_eq!(auth.name, "Alice");
    assert_eq!(auth.email, "Alice@example.com");
    assert!(auth.email_verified);
    assert_eq!(auth.image, None);
}

#[test]
fn bare_token_cookie_resolves_too() {
    let (sessions, users) = seeded_stores();
    let jar = jar_with("tok1");
    assert!(resolve_session(&jar, NOW, &sessions, &users).is_some());
}

#[test]
fn session_step_rejects_expired_and_passes_user_id() {
    let expired = session_row("tok1", "u1", NOW - 1);
    assert_eq!(session_user_id(Some(&expired), NOW), None);
    let live = session_row("tok1", "u1", NOW);
    assert_eq!(session_user_id(Some(&live), NOW), Some(s("u1")));
    assert_eq!(session_user_id(None, NOW), None);
}

#[test]
fn user_step_rejects_deleted_and_copies_fields() {
    let gone = user_row("u1", "Alice", Some(0));
    assert!(user_to_auth(Some(&gone)).is_none());
    assert!(user_to_auth(None).is_none());
    let live = user_row("u1", "Alice", None);
    let auth = user_to_auth(Some(&live)).expect("live user is exposed");
    assert_eq!(auth.id, "u1");
    assert_eq!(auth.name, "Alice");
}

#[test]
fn mandatory_gate_attaches_user_or_rejects() {
    let auth = user_to_auth(Some(&user_row("u1", "Alice", None))).unwrap();
    let ext = mandatory_gate(Some(auth)).expect("a resolved user is attached");
    assert_eq!(ext.0.id, "u1");
    assert!(matches!(mandatory_gate(None), Err(UNAUTHORIZED)));
}

#[test]
fn optional_gate_never_rejects() {
    let auth = user_to_auth(Some(&user_row("u1", "Alice", None))).unwrap();
    assert!(optional_gate(Some(auth)).0.is_some());
    assert!(optional_gate(None).0.is_none());
}

#[test]
fn store_lookup_finds_seeded_rows() {
    let (sessions, users) = seeded_stores();
    let found = sessions.find_by_token(&s("tok1")).expect("token was seeded");
    assert_eq!(found.user_id, "u1");
    assert!(sessions.find_by_token(&s("tok2")).is_none());
    let found_user = users.find_by_id(&s("u1")).expect("user was seeded");
    assert_eq!(found_user.name, "Alice");
    assert!(users.find_by_id(&s("u2")).is_none());
}

#[test]
fn resolving_at_current_time_without_cookie_is_absent() {
    let (sessions, users) = seeded_stores();
    let jar: Vec<CookiePair> = Vec::new();
    assert!(resolve_session_now(&jar, &sessions, &users).is_none());
}
