use messenger_core::auth::{AuthenticatedUser, Response};
use messenger_core::clock::Timestamp;
use messenger_core::error::DomainError;
use messenger_core::ids::Uuid;
use messenger_core::json::Json;
use messenger_core::store::StoreCommand;
use messenger_core::ws::connections::Connections;
use messenger_core::ws::socket::{
    end_socket, event_received, frame_received, handle_socket, socket_closed, Frame, FrameStep,
};
use messenger_core::ws::ticket::{
    create_ws_ticket, issue_ticket, ticket_looked_up, ticket_stored, user_identified, ws_handler,
    TicketLookup,
};

const ALICE: Uuid = Uuid { bits: 0xa };
const BOB: Uuid = Uuid { bits: 0xb };
const ALICE_TEXT: &str = "00000000-0000-0000-0000-00000000000a";
const TICKET: Uuid = Uuid { bits: 0x123e4567e89b42d3a456426614174000 };
const TICKET_TEXT: &str = "123e4567-e89b-42d3-a456-426614174000";

#[test]
fn tickets_are_made_out_for_a_user() {
    let grant = issue_ticket(TICKET, ALICE);
    assert_eq!(
        grant.store,
        StoreCommand::SetEx {
            key: format!("ws:ticket:{}", TICKET_TEXT),
            value: ALICE_TEXT.to_string(),
            seconds: 30,
        }
    );
    assert_eq!(
        grant.response,
        Response {
            status: 201,
            body: Json::Object(vec![(
                "ticket".to_string(),
                Json::Text(TICKET_TEXT.to_string())
            )]),
        }
    );
}

#[test]
fn fresh_tickets_differ() {
    let user = AuthenticatedUser { user_id: ALICE, session_id: BOB };
    let first = create_ws_ticket(&user);
    let second = create_ws_ticket(&user);
    assert_ne!(first.store, second.store);
    match (first.store, first.response.body) {
        (StoreCommand::SetEx { key, value, seconds }, Json::Object(members)) => {
            assert_eq!(value, ALICE_TEXT);
            assert_eq!(seconds, 30);
            let ticket = key.strip_prefix("ws:ticket:").unwrap().to_string();
            assert!(Uuid::parse_str(&ticket).is_some());
            assert_eq!(members, vec![("ticket".to_string(), Json::Text(ticket))]);
        }
        _ => panic!("a ticket is stored with a time to live"),
    }
}

#[test]
fn tickets_are_handed_out_once_stored() {
    let response = ticket_stored(issue_ticket(TICKET, ALICE), true).unwrap();
    assert_eq!(response.status, 201);
    let error = ticket_stored(issue_ticket(TICKET, ALICE), false).unwrap_err();
    assert_eq!(error.message(), "Internal error: Database connection error");
}

#[test]
fn tickets_are_looked_up_where_they_were_stored() {
    assert_eq!(
        ws_handler(TICKET_TEXT),
        StoreCommand::Get { key: format!("ws:ticket:{}", TICKET_TEXT) }
    );
}

#[test]
fn found_tickets_are_deleted() {
    let delete = Some(StoreCommand::Del { key: "ws:ticket:t".to_string() });
    let good = ticket_looked_up("t", TicketLookup::Found(ALICE_TEXT.to_string()));
    assert_eq!(good.delete, delete);
    assert_eq!(good.user.unwrap(), ALICE);
    let bad = ticket_looked_up("t", TicketLookup::Found("nobody".to_string()));
    assert_eq!(bad.delete, delete);
    assert_eq!(
        bad.user.unwrap_err().message(),
        "Unauthorized: Invalid ticket user identity"
    );
}

#[test]
fn missing_and_unreachable_tickets_are_refused() {
    let missing = ticket_looked_up("t", TicketLookup::Missing);
    assert_eq!(missing.delete, None);
    assert_eq!(
        missing.user.unwrap_err().message(),
        "Unauthorized: Invalid or expired WebSocket ticket"
    );
    let failed = ticket_looked_up("t", TicketLookup::Failed);
    assert_eq!(failed.delete, None);
    assert_eq!(
        failed.user.unwrap_err().message(),
        "Internal error: Database connection error"
    );
}

fn none() -> Vec<u64> {
    vec![]
}

#[test]
fn five_connections_are_the_maximum() {
    let mut connections = Connections::new();
    for n in 0..5 {
        assert!(connections.may_connect(ALICE, &none()).is_ok());
        connections.register(ALICE, n);
    }
    let error = connections.may_connect(ALICE, &none()).unwrap_err();
    assert!(matches!(error, DomainError::Conflict(_)));
    assert_eq!(
        error.message(),
        "Conflict: Too many concurrent WebSocket connections. Maximum is 5."
    );
    assert!(connections.may_connect(BOB, &none()).is_ok());
    assert!(user_identified(&mut connections, Ok(ALICE), &none()).is_err());
    assert_eq!(user_identified(&mut connections, Ok(BOB), &none()).unwrap(), BOB);
}

#[test]
fn closed_connections_do_not_count() {
    let mut connections = Connections::new();
    for n in 0..5 {
        connections.register(ALICE, n);
    }
    assert_eq!(connections.active_connections(ALICE, &vec![1, 3, 77]), 3);
    assert_eq!(connections.active_connections(ALICE, &none()), 3);
    assert_eq!(connections.active_connections(BOB, &none()), 0);
    assert_eq!(user_identified(&mut connections, Ok(ALICE), &vec![0]).unwrap(), ALICE);
    assert_eq!(connections.active_connections(ALICE, &none()), 2);
}

#[test]
fn refused_tickets_leave_the_connections_alone() {
    let mut connections = Connections::new();
    connections.register(ALICE, 1);
    let refused = Err(DomainError::Unauthorized("x".to_string()));
    let error = user_identified(&mut connections, refused, &vec![1]).unwrap_err();
    assert_eq!(error.message(), "Unauthorized: x");
    assert_eq!(connections.active_connections(ALICE, &none()), 1);
}

#[test]
fn clean_up_keeps_what_is_open() {
    let mut connections = Connections::new();
    connections.register(ALICE, 1);
    connections.register(ALICE, 2);
    connections.register(BOB, 3);
    connections.clean_up(ALICE, &vec![1, 3]);
    assert_eq!(connections.active_connections(ALICE, &none()), 1);
    connections.clean_up(ALICE, &vec![2]);
    assert_eq!(connections.active_connections(ALICE, &none()), 0);
    connections.clean_up(ALICE, &none());
    assert_eq!(connections.active_connections(BOB, &none()), 1);
}

#[test]
fn a_socket_marks_its_user_as_present() {
    let mut connections = Connections::new();
    let start = handle_socket(&mut connections, ALICE, 9);
    assert_eq!(connections.active_connections(ALICE, &none()), 1);
    assert_eq!(
        start.announce,
        StoreCommand::SetEx {
            key: format!("presence:{}", ALICE_TEXT),
            value: "1".to_string(),
            seconds: 65,
        }
    );
    assert_eq!(start.gauge_change, 1);
    assert_eq!(start.channel, format!("user:{}:events", ALICE_TEXT));

    let now = Timestamp { secs: 17, nanos: 4 };
    let end = end_socket(&mut connections, ALICE, &vec![9], now);
    assert_eq!(end.retract, StoreCommand::Del { key: format!("presence:{}", ALICE_TEXT) });
    assert_eq!(end.last_seen, now);
    assert_eq!(end.gauge_change, -1);
    assert_eq!(connections.active_connections(ALICE, &none()), 0);
}

#[test]
fn a_socket_ends_now() {
    let mut connections = Connections::new();
    let before = Timestamp::now();
    let end = socket_closed(&mut connections, ALICE, &none());
    assert!(before.secs <= end.last_seen.secs);
    assert_eq!(end.retract, StoreCommand::Del { key: format!("presence:{}", ALICE_TEXT) });
}

#[test]
fn frames_are_sorted() {
    assert_eq!(
        frame_received(Frame::Text("{}".to_string())),
        FrameStep::Handle("{}".to_string())
    );
    assert_eq!(frame_received(Frame::Binary), FrameStep::Ignore);
    assert_eq!(frame_received(Frame::Ping), FrameStep::Ignore);
    assert_eq!(frame_received(Frame::Pong), FrameStep::Ignore);
    assert_eq!(frame_received(Frame::Close), FrameStep::Stop);
    assert_eq!(frame_received(Frame::Failed), FrameStep::Stop);
}

#[test]
fn events_are_passed_on() {
    assert_eq!(event_received(Some("e".to_string())), "e");
    assert_eq!(event_received(None), "");
}
