use messenger_core::auth::{
    auth_middleware, identity_read, session_checked, session_looked_up, token_validated,
    unauthorized_response, validate_session, AuthProgress, AuthenticatedUser, Claims, Response,
};
use messenger_core::clock::Timestamp;
use messenger_core::ids::Uuid;
use messenger_core::json::Json;
use messenger_core::server::{connected_clients, listen_address};
use messenger_core::store::StoreCommand;

const USER: &str = "67e55044-10b1-426f-9247-bb680e5fe0c8";
const SESSION: &str = "00000000-0000-0000-0000-00000000000f";
const TEMP: &str = "00000000-0000-0000-0000-000000000000";

fn user() -> AuthenticatedUser {
    AuthenticatedUser {
        user_id: Uuid { bits: 0x67e5504410b1426f9247bb680e5fe0c8 },
        session_id: Uuid { bits: 15 },
    }
}

fn refused(message: &str) -> AuthProgress {
    AuthProgress::Rejected {
        response: Response {
            status: 401,
            body: Json::Object(vec![("error".to_string(), Json::Text(message.to_string()))]),
        },
    }
}

fn claims(sub: &str, sid: &str) -> Option<Claims> {
    Some(Claims { sub: sub.to_string(), sid: sid.to_string() })
}

#[test]
fn identifiers_are_written_and_read() {
    assert_eq!(user().user_id.text(), USER);
    assert_eq!(Uuid { bits: 15 }.text(), SESSION);
    assert_eq!(Uuid { bits: u128::MAX }.text(), "ffffffff-ffff-ffff-ffff-ffffffffffff");
    assert_eq!(Uuid::parse_str(USER), Some(user().user_id));
    assert_eq!(Uuid::parse_str(&USER.to_uppercase()), Some(user().user_id));
    assert_eq!(Uuid::parse_str(&USER.replace('-', "")), Some(user().user_id));
    assert_eq!(Uuid::parse_str(&format!("{{{}}}", USER)), Some(user().user_id));
    assert_eq!(Uuid::parse_str(&format!("urn:uuid:{}", USER)), Some(user().user_id));
    assert_eq!(Uuid::parse_str(""), None);
    assert_eq!(Uuid::parse_str("67e55044-10b1-426f-9247-bb680e5fe0cx"), None);
}

#[test]
fn fresh_identifiers_are_random() {
    let a = Uuid::new_v4();
    let b = Uuid::new_v4();
    assert_ne!(a, b);
    assert_eq!(a.text().as_bytes()[14], b'4');
    assert!(b"89ab".contains(&b.text().as_bytes()[19]));
    assert_eq!(Uuid::parse_str(&a.text()), Some(a));
}

#[test]
fn times_are_written_as_rfc3339() {
    let at = |secs, nanos| Timestamp { secs, nanos }.to_rfc3339();
    assert_eq!(at(0, 0), "1970-01-01T00:00:00+00:00");
    assert_eq!(at(1_431_648_000, 250_000_000), "2015-05-15T00:00:00.250+00:00");
    assert_eq!(at(8_210_266_876_799, 999_999_999), "+262142-12-31T23:59:59.999999999+00:00");
    assert!(Timestamp::now().secs > 1_600_000_000);
}

#[test]
fn headers_are_taken_apart() {
    assert_eq!(auth_middleware(None), refused("Missing bearer token"));
    assert_eq!(auth_middleware(Some("")), refused("Invalid authorization scheme"));
    assert_eq!(auth_middleware(Some("Bearer")), refused("Invalid authorization scheme"));
    assert_eq!(auth_middleware(Some("bearer x")), refused("Invalid authorization scheme"));
    assert_eq!(
        auth_middleware(Some("Bearer abc.def")),
        AuthProgress::ValidateToken { token: "abc.def".to_string() }
    );
    assert_eq!(
        auth_middleware(Some("Bearer ")),
        AuthProgress::ValidateToken { token: String::new() }
    );
}

#[test]
fn claims_are_checked_in_order() {
    assert_eq!(token_validated(None, TEMP), refused("Invalid or expired token"));
    assert_eq!(token_validated(claims("x", TEMP), TEMP), refused("Malformed token subject"));
    assert_eq!(
        token_validated(claims(USER, TEMP), TEMP),
        refused("Temporary 2FA token cannot be used for this endpoint")
    );
    assert_eq!(token_validated(claims(USER, "x"), TEMP), refused("Malformed token session"));
    assert_eq!(
        token_validated(claims(USER, SESSION), TEMP),
        AuthProgress::LookUpSession {
            user: user(),
            lookup: StoreCommand::Get { key: format!("session:{}", SESSION) },
        }
    );
}

#[test]
fn remembered_sessions_are_let_through() {
    assert_eq!(
        session_looked_up(user(), true),
        AuthProgress::Admitted { user: user(), remember: None }
    );
    assert_eq!(session_looked_up(user(), false), AuthProgress::CheckSession { user: user() });
}

#[test]
fn confirmed_sessions_are_remembered() {
    assert_eq!(
        session_checked(user(), Some(true), 900),
        AuthProgress::Admitted {
            user: user(),
            remember: Some(StoreCommand::SetEx {
                key: format!("session:{}", SESSION),
                value: "active".to_string(),
                seconds: 900,
            }),
        }
    );
    for valid in [Some(false), None] {
        assert_eq!(session_checked(user(), valid, 900), refused("Session revoked or expired"));
    }
}

#[test]
fn refusals_carry_their_message() {
    let response = unauthorized_response("no");
    assert_eq!(response.status, 401);
    assert_eq!(
        response.body,
        Json::Object(vec![("error".to_string(), Json::Text("no".to_string()))])
    );
}

#[test]
fn the_number_of_clients_is_found_in_the_report() {
    let info = "# Clients\r\nconnected_clients:12\r\ncluster_connections:0\r\n";
    assert_eq!(connected_clients(info), Some(12));
    assert_eq!(connected_clients("connected_clients: \t+7 \u{a0}"), Some(7));
    assert_eq!(connected_clients("connected_clients:-3"), Some(-3));
    assert_eq!(connected_clients("connected_clients:1\nconnected_clients:2\n"), Some(2));
    assert_eq!(connected_clients("connected_clients:1\nconnected_clients:x"), Some(1));
    assert_eq!(connected_clients(" connected_clients:1"), None);
    assert_eq!(connected_clients("connected_clients:"), None);
    assert_eq!(connected_clients("connected_clients:-"), None);
    assert_eq!(connected_clients(""), None);
}

#[test]
fn numbers_of_clients_are_limited_to_64_bits() {
    let read = |n: &str| connected_clients(&format!("connected_clients:{}", n));
    assert_eq!(read("9223372036854775807"), Some(i64::MAX));
    assert_eq!(read("9223372036854775808"), None);
    assert_eq!(read("-9223372036854775808"), Some(i64::MIN));
    assert_eq!(read("-9223372036854775809"), None);
    assert_eq!(read("00000000000000000000000000000005"), Some(5));
    assert_eq!(read("99999999999999999999999999999999"), None);
}

#[test]
fn white_space_is_that_of_unicode() {
    for n in 0..=0x10ffffu32 {
        if let Some(c) = char::from_u32(n) {
            if c != '\n' && !c.is_ascii_digit() && (n < 0x3100 || n % 251 == 0) {
                let told = connected_clients(&format!("connected_clients:{}5", c));
                let expected = if c == '-' {
                    Some(-5)
                } else if c == '+' || c.is_whitespace() {
                    Some(5)
                } else {
                    None
                };
                assert_eq!(told, expected, "U+{:04X}", n);
            }
        }
    }
}

#[test]
fn addresses_are_host_and_port() {
    assert_eq!(listen_address("0.0.0.0", 8080), "0.0.0.0:8080");
    assert_eq!(listen_address("::1", 0), "::1:0");
}

#[test]
fn identities_are_checked_in_order() {
    let (u, s) = (Some(user().user_id), Some(user().session_id));
    assert_eq!(identity_read(None, true, None), refused("Malformed token subject"));
    assert_eq!(
        identity_read(u, true, None),
        refused("Temporary 2FA token cannot be used for this endpoint")
    );
    assert_eq!(identity_read(u, false, None), refused("Malformed token session"));
    assert_eq!(identity_read(u, false, s), validate_session(user()));
}
