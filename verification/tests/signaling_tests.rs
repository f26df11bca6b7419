use messenger_core::clock::Timestamp;
use messenger_core::ids::Uuid;
use messenger_core::json::Json;
use messenger_core::ws::signaling::{
    begin, handle_client_message, resume, resume_client_message, sync_messages_after, Call,
    CallStatus, CallType, Effect, Outcome, Progress, PushNotificationJob, StoredMessage, Wait,
    WsClientMessage,
};

const ALICE: Uuid = Uuid { bits: 0xa };
const BOB: Uuid = Uuid { bits: 0xb };
const CALL: Uuid = Uuid { bits: 0xc };
const CHAT: Uuid = Uuid { bits: 0xd };
const NOW: &str = "2024-01-01T00:00:00+00:00";

fn name(id: Uuid) -> String {
    format!("00000000-0000-0000-0000-00000000000{:x}", id.bits)
}

fn text(s: &str) -> Json {
    Json::Text(s.to_string())
}

fn raw(s: &str) -> Json {
    Json::Raw(s.to_string())
}

fn object(members: Vec<(&str, Json)>) -> Json {
    Json::Object(members.into_iter().map(|(k, v)| (k.to_string(), v)).collect())
}

fn id(id: Uuid) -> Json {
    Json::Text(name(id))
}

fn to_user(user: Uuid, event: Json) -> Effect {
    Effect::Publish { channel: format!("user:{}:events", name(user)), event }
}

fn done(effects: Vec<Effect>) -> Progress {
    Progress { effects, wait: Wait::Nothing }
}

fn waiting(wait: Wait) -> Progress {
    Progress { effects: vec![], wait }
}

fn placed() -> Call {
    Call { id: CALL, caller_id: ALICE, receiver_id: BOB, status: "ended".to_string() }
}

fn typing(kind: &str) -> Effect {
    Effect::Publish {
        channel: format!("chat:{}:events", name(CHAT)),
        event: object(vec![
            ("type", text(kind)),
            ("payload", object(vec![("chat_id", id(CHAT)), ("user_id", id(ALICE))])),
            ("timestamp", text(NOW)),
        ]),
    }
}

#[test]
fn typing_is_announced_and_stops_after_a_while() {
    let start = begin(WsClientMessage::TypingStart { chat_id: CHAT }, ALICE, NOW);
    assert_eq!(start.effects, vec![typing("typing_start")]);
    assert_eq!(start.wait, Wait::Typing { seconds: 5, chat_id: CHAT, user_id: ALICE });
    assert_eq!(
        resume(start.wait, Outcome::Elapsed, NOW),
        done(vec![typing("typing_stop")])
    );
    assert_eq!(
        begin(WsClientMessage::TypingStop { chat_id: CHAT }, ALICE, NOW),
        done(vec![typing("typing_stop")])
    );
}

fn sync_reply(messages: Vec<Json>) -> Progress {
    done(vec![Effect::Reply {
        event: object(vec![
            ("type", text("sync_response")),
            ("payload", object(vec![("messages", Json::List(messages))])),
            ("timestamp", text(NOW)),
        ]),
    }])
}

fn message(n: u128) -> StoredMessage {
    StoredMessage {
        chat_id: CHAT,
        id: Uuid { bits: n },
        sender_id: BOB,
        content_encrypted: raw("\"c\""),
        content_iv: raw("null"),
        message_type: raw("\"text\""),
        created_at: raw("1"),
    }
}

fn message_json(n: u128) -> Json {
    object(vec![
        ("chat_id", id(CHAT)),
        ("message_id", id(Uuid { bits: n })),
        ("sender_id", id(BOB)),
        ("content_encrypted", raw("\"c\"")),
        ("content_iv", raw("null")),
        ("message_type", raw("\"text\"")),
        ("created_at", raw("1")),
    ])
}

#[test]
fn missed_messages_are_sent_in_order() {
    let since = Timestamp { secs: 1, nanos: 2 };
    let wait = || begin(WsClientMessage::SyncRequest { since: Some(since) }, ALICE, NOW);
    assert_eq!(
        wait(),
        waiting(Wait::Messages { user_id: ALICE, since, limit: 100 })
    );
    let found = Outcome::Messages(Some(vec![message(1), message(2)]));
    assert_eq!(
        resume(wait().wait, found, NOW),
        sync_reply(vec![message_json(1), message_json(2)])
    );
    assert_eq!(
        resume(wait().wait, Outcome::Messages(None), NOW),
        sync_reply(vec![])
    );
    assert_eq!(sync_messages_after(Some(vec![message(3)])), Ok(vec![message_json(3)]));
    assert_eq!(sync_messages_after(Some(vec![])), Ok(vec![]));
    assert_eq!(sync_messages_after(None), Err(()));
}

#[test]
fn a_sync_from_no_time_is_answered_at_once() {
    assert_eq!(
        begin(WsClientMessage::SyncRequest { since: None }, ALICE, NOW),
        sync_reply(vec![])
    );
}

fn initiate(call_type: &str) -> Progress {
    begin(
        WsClientMessage::CallInitiate {
            receiver_id: BOB,
            call_type: call_type.to_string(),
            offer: "{\"sdp\":1}".to_string(),
        },
        ALICE,
        NOW,
    )
}

#[test]
fn calls_are_video_calls_or_audio_calls() {
    for (asked, kind) in [
        ("video", CallType::Video),
        ("audio", CallType::Audio),
        ("Video", CallType::Audio),
        ("", CallType::Audio),
    ] {
        assert_eq!(
            initiate(asked),
            waiting(Wait::Initiate {
                caller_id: ALICE,
                receiver_id: BOB,
                call_type: kind,
                offer: "{\"sdp\":1}".to_string(),
            })
        );
    }
    assert_eq!(CallType::Video.as_db_str(), "video");
    assert_eq!(CallType::Audio.as_db_str(), "audio");
}

#[test]
fn placed_calls_ring_and_push() {
    let incoming = object(vec![
        ("type", text("call:incoming")),
        (
            "payload",
            object(vec![
                ("call_id", id(CALL)),
                ("caller_id", id(ALICE)),
                ("call_type", text("video")),
                ("offer", raw("{\"sdp\":1}")),
                ("timestamp", text(NOW)),
            ]),
        ),
    ]);
    let push = PushNotificationJob {
        user_id: BOB,
        notification_type: "call".to_string(),
        payload: object(vec![
            ("call_id", id(CALL)),
            ("caller_id", id(ALICE)),
            ("call_type", text("video")),
            ("title", text("Incoming Call")),
            ("body", text("You have an incoming video call")),
        ]),
    };
    assert_eq!(
        resume(initiate("video").wait, Outcome::Call(Ok(placed())), NOW),
        done(vec![
            to_user(BOB, incoming),
            Effect::MarkRinging { call_id: CALL },
            Effect::Push { job: push },
        ])
    );
}

#[test]
fn calls_that_cannot_be_placed_are_told_to_the_caller() {
    let outcome = Outcome::Call(Err("Conflict: busy".to_string()));
    assert_eq!(
        resume(initiate("audio").wait, outcome, NOW),
        done(vec![Effect::Reply {
            event: object(vec![
                ("type", text("call:error")),
                ("payload", object(vec![("message", text("Conflict: busy"))])),
                ("timestamp", text(NOW)),
            ]),
        }])
    );
}

fn call_event(kind: &str, who: (&str, Uuid), what: (&str, Json)) -> Json {
    object(vec![
        ("type", text(kind)),
        (
            "payload",
            object(vec![
                ("call_id", id(CALL)),
                (who.0, id(who.1)),
                what,
                ("timestamp", text(NOW)),
            ]),
        ),
    ])
}

#[test]
fn accepted_calls_are_told_to_the_caller() {
    let accept = || {
        begin(
            WsClientMessage::CallAccept { call_id: CALL, answer: "[]".to_string() },
            BOB,
            NOW,
        )
    };
    assert_eq!(
        accept(),
        waiting(Wait::Accept { call_id: CALL, receiver_id: BOB, answer: "[]".to_string() })
    );
    assert_eq!(
        resume(accept().wait, Outcome::Call(Ok(placed())), NOW),
        done(vec![to_user(
            ALICE,
            call_event("call:accepted", ("receiver_id", BOB), ("answer", raw("[]")))
        )])
    );
    assert_eq!(
        resume(accept().wait, Outcome::Call(Err("no".to_string())), NOW),
        done(vec![])
    );
}

#[test]
fn rejected_calls_are_told_to_the_caller() {
    for (given, reason, status) in [
        (None, "rejected", CallStatus::Rejected),
        (Some("busy"), "busy", CallStatus::Busy),
        (Some("later"), "later", CallStatus::Rejected),
    ] {
        let reject = || {
            begin(
                WsClientMessage::CallReject {
                    call_id: CALL,
                    reason: given.map(|r| r.to_string()),
                },
                BOB,
                NOW,
            )
        };
        assert_eq!(
            reject(),
            waiting(Wait::Reject {
                call_id: CALL,
                user_id: BOB,
                status,
                reason: reason.to_string(),
            })
        );
        assert_eq!(
            resume(reject().wait, Outcome::Call(Ok(placed())), NOW),
            done(vec![to_user(
                ALICE,
                call_event("call:rejected", ("receiver_id", BOB), ("reason", text(reason)))
            )])
        );
        assert_eq!(
            resume(reject().wait, Outcome::Call(Err("no".to_string())), NOW),
            done(vec![])
        );
    }
}

#[test]
fn candidates_are_relayed() {
    assert_eq!(
        begin(
            WsClientMessage::CallIceCandidate {
                call_id: CALL,
                receiver_id: BOB,
                candidate: "{}".to_string(),
            },
            ALICE,
            NOW,
        ),
        done(vec![to_user(
            BOB,
            call_event("call:ice-candidate", ("sender_id", ALICE), ("candidate", raw("{}")))
        )])
    );
}

fn hangup(user_id: Uuid, status: CallStatus) -> Wait {
    Wait::Hangup { call_id: CALL, user_id, status }
}

#[test]
fn both_sides_hear_of_a_hangup() {
    for who in [ALICE, BOB] {
        let start = begin(WsClientMessage::CallHangup { call_id: CALL }, who, NOW);
        assert_eq!(start, waiting(hangup(who, CallStatus::Ended)));
        assert_eq!(
            resume(start.wait, Outcome::Call(Ok(placed())), NOW),
            done(vec![
                to_user(
                    ALICE,
                    call_event("call:ended", ("ended_by", who), ("status", text("ended")))
                ),
                to_user(
                    BOB,
                    call_event("call:ended", ("ended_by", who), ("status", text("ended")))
                ),
            ])
        );
    }
}

#[test]
fn a_call_that_was_not_answered_is_missed() {
    let failed = || Outcome::Call(Err("not answered".to_string()));
    let again = resume(hangup(ALICE, CallStatus::Ended), failed(), NOW);
    assert_eq!(again, waiting(hangup(ALICE, CallStatus::Missed)));
    assert_eq!(resume(hangup(ALICE, CallStatus::Missed), failed(), NOW), done(vec![]));
    let missed = Call { status: "missed".to_string(), ..placed() };
    assert_eq!(
        resume(again.wait, Outcome::Call(Ok(missed)), NOW),
        done(vec![
            to_user(
                ALICE,
                call_event("call:ended", ("ended_by", ALICE), ("status", text("missed")))
            ),
            to_user(
                BOB,
                call_event("call:ended", ("ended_by", ALICE), ("status", text("missed")))
            ),
        ])
    );
}

#[test]
fn outcomes_of_something_else_lead_to_nothing() {
    assert_eq!(resume(Wait::Nothing, Outcome::Elapsed, NOW), done(vec![]));
    assert_eq!(
        resume(hangup(ALICE, CallStatus::Ended), Outcome::Elapsed, NOW),
        done(vec![])
    );
}

fn time_of(event: &Json) -> String {
    match event {
        Json::Object(members) => match &members[2] {
            (key, Json::Text(time)) if key == "timestamp" => time.clone(),
            _ => panic!("the third member tells the time"),
        },
        _ => panic!("an event is an object"),
    }
}

#[test]
fn events_carry_the_current_time() {
    let start = handle_client_message(WsClientMessage::TypingStart { chat_id: CHAT }, ALICE);
    let stop = resume_client_message(start.wait, Outcome::Elapsed);
    for effects in [start.effects, stop.effects] {
        match &effects[0] {
            Effect::Publish { event, .. } => {
                let time = time_of(event);
                let parsed = chrono::DateTime::parse_from_rfc3339(&time).unwrap();
                assert!((Timestamp::now().secs - parsed.timestamp()).abs() < 20);
            }
            _ => panic!("typing is published"),
        }
    }
}
