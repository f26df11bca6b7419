//! What the messages of a client lead to: typing indicators, missed messages and calls.
//!
//! A message leads to effects that are carried out at once, and to something that is waited for.
//! What comes of it leads to effects again, until nothing is waited for.

use crate::clock::Timestamp;
use crate::ids::Uuid;
use crate::json::{member, object, Json, JsonView};
use crate::text::{join3, same_text};
use crate::ws::events;
use crate::ws::socket::{user_channel, user_channel_name};
use vstd::prelude::*;

verus! {

/// How many missed messages a client gets at once.
pub const SYNC_LIMIT: i64 = 100;

/// After how many seconds someone who started typing counts as having stopped.
pub const TYPING_SECONDS: u64 = 5;

/// A message of a client. Offers, answers and candidates are passed on as they are.
pub enum WsClientMessage {
    TypingStart { chat_id: Uuid },
    TypingStop { chat_id: Uuid },
    SyncRequest { since: Option<Timestamp> },
    CallInitiate { receiver_id: Uuid, call_type: String, offer: String },
    CallAccept { call_id: Uuid, answer: String },
    CallReject { call_id: Uuid, reason: Option<String> },
    CallIceCandidate { call_id: Uuid, receiver_id: Uuid, candidate: String },
    CallHangup { call_id: Uuid },
}

#[derive(Clone, Copy, Debug, PartialEq, Eq, Structural)]
pub enum CallType {
    Audio,
    Video,
}

/// How a call can be ended.
#[derive(Clone, Copy, Debug, PartialEq, Eq, Structural)]
pub enum CallStatus {
    Busy,
    Rejected,
    Ended,
    Missed,
}

/// A call, with its status as it is stored.
pub struct Call {
    pub id: Uuid,
    pub caller_id: Uuid,
    pub receiver_id: Uuid,
    pub status: String,
}

/// A message of a chat. What is not an identifier is kept as the document it is sent as.
pub struct StoredMessage {
    pub chat_id: Uuid,
    pub id: Uuid,
    pub sender_id: Uuid,
    pub content_encrypted: Json,
    pub content_iv: Json,
    pub message_type: Json,
    pub created_at: Json,
}

/// A push notification for the devices of a user.
#[derive(Debug, PartialEq, Eq)]
pub struct PushNotificationJob {
    pub user_id: Uuid,
    pub notification_type: String,
    pub payload: Json,
}

/// Something to be done at once. What comes of it makes no difference.
#[derive(Debug, PartialEq, Eq)]
pub enum Effect {
    /// Publishes an event on a channel.
    Publish { channel: String, event: Json },
    /// Sends an event to the client.
    Reply { event: Json },
    /// Marks a call as ringing.
    MarkRinging { call_id: Uuid },
    /// Puts a push notification into the queue.
    Push { job: PushNotificationJob },
}

/// Something that is waited for.
#[derive(Debug, PartialEq, Eq)]
pub enum Wait {
    Nothing,
    /// That some seconds pass, after which someone has stopped typing.
    Typing { seconds: u64, chat_id: Uuid, user_id: Uuid },
    /// The messages for a user since some time, up to a limit.
    Messages { user_id: Uuid, since: Timestamp, limit: i64 },
    /// That a call is placed.
    Initiate { caller_id: Uuid, receiver_id: Uuid, call_type: CallType, offer: String },
    /// That a call is taken.
    Accept { call_id: Uuid, receiver_id: Uuid, answer: String },
    /// That a call is turned down.
    Reject { call_id: Uuid, user_id: Uuid, status: CallStatus, reason: String },
    /// That a call is ended with some status.
    Hangup { call_id: Uuid, user_id: Uuid, status: CallStatus },
}

/// What came of something that was waited for.
pub enum Outcome {
    /// The time has passed.
    Elapsed,
    /// The messages, or `None` where they could not be had.
    Messages(Option<Vec<StoredMessage>>),
    /// The call, or why there is none.
    Call(Result<Call, String>),
}

/// What is to be done, and what is then waited for.
#[derive(Debug, PartialEq, Eq)]
pub struct Progress {
    pub effects: Vec<Effect>,
    pub wait: Wait,
}

/// What an [`Effect`] says.
pub enum EffectView {
    Publish { channel: Seq<char>, event: JsonView },
    Reply { event: JsonView },
    MarkRinging { call_id: Uuid },
    Push { user_id: Uuid, notification_type: Seq<char>, payload: JsonView },
}

/// What a [`Wait`] says.
pub enum WaitView {
    Nothing,
    Typing { seconds: u64, chat_id: Uuid, user_id: Uuid },
    Messages { user_id: Uuid, since: Timestamp, limit: i64 },
    Initiate { caller_id: Uuid, receiver_id: Uuid, call_type: CallType, offer: Seq<char> },
    Accept { call_id: Uuid, receiver_id: Uuid, answer: Seq<char> },
    Reject { call_id: Uuid, user_id: Uuid, status: CallStatus, reason: Seq<char> },
    Hangup { call_id: Uuid, user_id: Uuid, status: CallStatus },
}

/// What a [`Progress`] says.
pub struct ProgressView {
    pub effects: Seq<EffectView>,
    pub wait: WaitView,
}

impl View for Effect {
    type V = EffectView;

    open spec fn view(&self) -> EffectView {
        match self {
            Effect::Publish { channel, event } => EffectView::Publish {
                channel: channel@,
                event: event@,
            },
            Effect::Reply { event } => EffectView::Reply { event: event@ },
            Effect::MarkRinging { call_id } => EffectView::MarkRinging { call_id: *call_id },
            Effect::Push { job } => EffectView::Push {
                user_id: job.user_id,
                notification_type: job.notification_type@,
                payload: job.payload@,
            },
        }
    }
}

impl View for Wait {
    type V = WaitView;

    open spec fn view(&self) -> WaitView {
        match self {
            Wait::Nothing => WaitView::Nothing,
            Wait::Typing { seconds, chat_id, user_id } => WaitView::Typing {
                seconds: *seconds,
                chat_id: *chat_id,
                user_id: *user_id,
            },
            Wait::Messages { user_id, since, limit } => WaitView::Messages {
                user_id: *user_id,
                since: *since,
                limit: *limit,
            },
            Wait::Initiate { caller_id, receiver_id, call_type, offer } => WaitView::Initiate {
                caller_id: *caller_id,
                receiver_id: *receiver_id,
                call_type: *call_type,
                offer: offer@,
            },
            Wait::Accept { call_id, receiver_id, answer } => WaitView::Accept {
                call_id: *call_id,
                receiver_id: *receiver_id,
                answer: answer@,
            },
            Wait::Reject { call_id, user_id, status, reason } => WaitView::Reject {
                call_id: *call_id,
                user_id: *user_id,
                status: *status,
                reason: reason@,
            },
            Wait::Hangup { call_id, user_id, status } => WaitView::Hangup {
                call_id: *call_id,
                user_id: *user_id,
                status: *status,
            },
        }
    }
}

impl View for Progress {
    type V = ProgressView;

    open spec fn view(&self) -> ProgressView {
        ProgressView { effects: self.effects@.map_values(|e: Effect| e@), wait: self.wait@ }
    }
}

/// The channel on which events of a chat are published.
pub open spec fn chat_channel(chat_id: Uuid) -> Seq<char> {
    "chat:"@ + crate::ids::hyphenated(chat_id) + ":events"@
}

/// How a kind of call is stored.
pub open spec fn call_type_text(call_type: CallType) -> Seq<char> {
    match call_type {
        CallType::Audio => "audio"@,
        CallType::Video => "video"@,
    }
}

/// The kind of call that a client asks for. Whatever is not a video call is an audio call.
pub open spec fn call_type_named(name: Seq<char>) -> CallType {
    if name == "video"@ {
        CallType::Video
    } else {
        CallType::Audio
    }
}

/// The reason for which a call is turned down.
pub open spec fn reject_reason(reason: Option<String>) -> Seq<char> {
    match reason {
        Some(r) => r@,
        None => "rejected"@,
    }
}

/// How a call ends that is turned down for a reason.
pub open spec fn reject_status(reason: Seq<char>) -> CallStatus {
    if reason == "busy"@ {
        CallStatus::Busy
    } else {
        CallStatus::Rejected
    }
}

/// A message of a chat as it is sent to a client.
pub open spec fn message_view(m: StoredMessage) -> JsonView {
    JsonView::Object(
        seq![
            ("chat_id"@, events::id_view(m.chat_id)),
            ("message_id"@, events::id_view(m.id)),
            ("sender_id"@, events::id_view(m.sender_id)),
            ("content_encrypted"@, m.content_encrypted@),
            ("content_iv"@, m.content_iv@),
            ("message_type"@, m.message_type@),
            ("created_at"@, m.created_at@),
        ],
    )
}

/// The messages that are sent to a client: all that were found, in their order. None are sent
/// where they could not be had.
pub open spec fn messages_view(messages: Option<Vec<StoredMessage>>) -> Seq<JsonView> {
    match messages {
        Some(found) => found@.map_values(|m: StoredMessage| message_view(m)),
        None => Seq::empty(),
    }
}

/// One effect, after which nothing is waited for.
pub open spec fn only(effect: EffectView) -> ProgressView {
    ProgressView { effects: seq![effect], wait: WaitView::Nothing }
}

/// No effect.
pub open spec fn no_effects(wait: WaitView) -> ProgressView {
    ProgressView { effects: Seq::empty(), wait }
}

/// What a message of a user leads to at some time.
pub open spec fn begun(msg: WsClientMessage, user_id: Uuid, now: Seq<char>) -> ProgressView {
    match msg {
        WsClientMessage::TypingStart { chat_id } => ProgressView {
            effects: seq![
                EffectView::Publish {
                    channel: chat_channel(chat_id),
                    event: events::typing_event_view("typing_start"@, chat_id, user_id, now),
                },
            ],
            wait: WaitView::Typing { seconds: TYPING_SECONDS, chat_id, user_id },
        },
        WsClientMessage::TypingStop { chat_id } => only(
            EffectView::Publish {
                channel: chat_channel(chat_id),
                event: events::typing_event_view("typing_stop"@, chat_id, user_id, now),
            },
        ),
        WsClientMessage::SyncRequest { since: Some(since) } => no_effects(
            WaitView::Messages { user_id, since, limit: SYNC_LIMIT },
        ),
        WsClientMessage::SyncRequest { since: None } => only(
            EffectView::Reply { event: events::sync_response_view(Seq::empty(), now) },
        ),
        WsClientMessage::CallInitiate { receiver_id, call_type, offer } => no_effects(
            WaitView::Initiate {
                caller_id: user_id,
                receiver_id,
                call_type: call_type_named(call_type@),
                offer: offer@,
            },
        ),
        WsClientMessage::CallAccept { call_id, answer } => no_effects(
            WaitView::Accept { call_id, receiver_id: user_id, answer: answer@ },
        ),
        WsClientMessage::CallReject { call_id, reason } => no_effects(
            WaitView::Reject {
                call_id,
                user_id,
                status: reject_status(reject_reason(reason)),
                reason: reject_reason(reason),
            },
        ),
        WsClientMessage::CallIceCandidate { call_id, receiver_id, candidate } => only(
            EffectView::Publish {
                channel: user_channel(receiver_id),
                event: events::ice_candidate_view(call_id, user_id, candidate@, now),
            },
        ),
        WsClientMessage::CallHangup { call_id } => no_effects(
            WaitView::Hangup { call_id, user_id, status: CallStatus::Ended },
        ),
    }
}

/// What comes after something that was waited for. An outcome that does not belong to what was
/// waited for leads to nothing.
pub open spec fn resumed(wait: WaitView, outcome: Outcome, now: Seq<char>) -> ProgressView {
    match (wait, outcome) {
        (WaitView::Typing { seconds, chat_id, user_id }, Outcome::Elapsed) => only(
            EffectView::Publish {
                channel: chat_channel(chat_id),
                event: events::typing_event_view("typing_stop"@, chat_id, user_id, now),
            },
        ),
        (WaitView::Messages { user_id, since, limit }, Outcome::Messages(messages)) => only(
            EffectView::Reply { event: events::sync_response_view(messages_view(messages), now) },
        ),
        (
            WaitView::Initiate { caller_id, receiver_id, call_type, offer },
            Outcome::Call(Ok(call)),
        ) => ProgressView {
            effects: seq![
                EffectView::Publish {
                    channel: user_channel(receiver_id),
                    event: events::call_incoming_view(
                        call.id,
                        caller_id,
                        call_type_text(call_type),
                        offer,
                        now,
                    ),
                },
                EffectView::MarkRinging { call_id: call.id },
                EffectView::Push {
                    user_id: receiver_id,
                    notification_type: "call"@,
                    payload: events::call_push_view(call.id, caller_id, call_type_text(call_type)),
                },
            ],
            wait: WaitView::Nothing,
        },
        (
            WaitView::Initiate { caller_id, receiver_id, call_type, offer },
            Outcome::Call(Err(message)),
        ) => only(EffectView::Reply { event: events::call_error_view(message@, now) }),
        (WaitView::Accept { call_id, receiver_id, answer }, Outcome::Call(Ok(call))) => only(
            EffectView::Publish {
                channel: user_channel(call.caller_id),
                event: events::call_accepted_view(call_id, receiver_id, answer, now),
            },
        ),
        (WaitView::Reject { call_id, user_id, status, reason }, Outcome::Call(Ok(call))) => only(
            EffectView::Publish {
                channel: user_channel(call.caller_id),
                event: events::call_rejected_view(call_id, user_id, reason, now),
            },
        ),
        (WaitView::Hangup { call_id, user_id, status }, Outcome::Call(Ok(call))) => ProgressView {
            effects: seq![
                EffectView::Publish {
                    channel: user_channel(call.caller_id),
                    event: events::call_ended_view(call_id, user_id, call.status@, now),
                },
                EffectView::Publish {
                    channel: user_channel(call.receiver_id),
                    event: events::call_ended_view(call_id, user_id, call.status@, now),
                },
            ],
            wait: WaitView::Nothing,
        },
        (WaitView::Hangup { call_id, user_id, status }, Outcome::Call(Err(message))) => no_effects(
            if status == CallStatus::Ended {
                WaitView::Hangup { call_id, user_id, status: CallStatus::Missed }
            } else {
                WaitView::Nothing
            },
        ),
        _ => no_effects(WaitView::Nothing),
    }
}

fn chat_channel_name(chat_id: Uuid) -> (s: String)
    ensures
        s@ == chat_channel(chat_id),
{
    join3("chat:", chat_id.text().as_str(), ":events")
}

impl CallType {
    /// The kind of call that a client asks for.
    pub fn named(name: &str) -> (r: CallType)
        ensures
            r == call_type_named(name@),
    {
        if same_text(name, "video") {
            CallType::Video
        } else {
            CallType::Audio
        }
    }

    /// How this kind of call is stored.
    pub fn as_db_str(&self) -> (s: &'static str)
        ensures
            s@ == call_type_text(*self),
    {
        match self {
            CallType::Audio => "audio",
            CallType::Video => "video",
        }
    }
}

fn message_json(m: StoredMessage) -> (r: Json)
    ensures
        r@ == message_view(m),
{
    let r = object(
        vec![
            member("chat_id", events::id(m.chat_id)),
            member("message_id", events::id(m.id)),
            member("sender_id", events::id(m.sender_id)),
            member("content_encrypted", m.content_encrypted),
            member("content_iv", m.content_iv),
            member("message_type", m.message_type),
            member("created_at", m.created_at),
        ],
    );
    assert(r@->Object_0 =~= message_view(m)->Object_0);
    r
}

/// The messages that are sent to a client: all that were found, in their order, or an error where
/// they could not be had.
pub fn sync_messages_after(messages: Option<Vec<StoredMessage>>) -> (r: Result<Vec<Json>, ()>)
    ensures
        messages is None <==> r is Err,
        messages is Some ==> crate::json::items_view(r->Ok_0@) == messages_view(messages),
{
    let found = match messages {
        None => {
            return Err(());
        },
        Some(found) => found,
    };
    let mut all_messages: Vec<Json> = Vec::new();
    let ghost expected = found@.map_values(|m: StoredMessage| message_view(m));
    for m in it: found
        invariant
            it.seq() == found@,
            expected == found@.map_values(|m: StoredMessage| message_view(m)),
            crate::json::items_view(all_messages@) == expected.take(it.index() as int),
    {
        let ghost before = all_messages@;
        all_messages.push(message_json(m));
        assert(crate::json::items_view(all_messages@) =~= crate::json::items_view(before).push(
            message_view(m),
        ));
        assert(expected.take(it.index() as int + 1) =~= expected.take(it.index() as int).push(
            message_view(m),
        ));
    }
    assert(expected.take(expected.len() as int) =~= expected);
    Ok(all_messages)
}

fn one(effect: Effect, wait: Wait) -> (p: Progress)
    ensures
        p@ == (ProgressView { effects: seq![effect@], wait: wait@ }),
{
    let p = Progress { effects: vec![effect], wait };
    assert(p@.effects =~= seq![effect@]);
    p
}

fn none(wait: Wait) -> (p: Progress)
    ensures
        p@ == no_effects(wait@),
{
    let p = Progress { effects: Vec::new(), wait };
    assert(p@.effects =~= Seq::<EffectView>::empty());
    p
}

/// What a message of a user leads to at the time `now`.
pub fn begin(msg: WsClientMessage, user_id: Uuid, now: &str) -> (p: Progress)
    ensures
        p@ == begun(msg, user_id, now@),
{
    match msg {
        WsClientMessage::TypingStart { chat_id } => one(
            Effect::Publish {
                channel: chat_channel_name(chat_id),
                event: events::typing_event("typing_start", chat_id, user_id, now),
            },
            Wait::Typing { seconds: TYPING_SECONDS, chat_id, user_id },
        ),
        WsClientMessage::TypingStop { chat_id } => one(
            Effect::Publish {
                channel: chat_channel_name(chat_id),
                event: events::typing_event("typing_stop", chat_id, user_id, now),
            },
            Wait::Nothing,
        ),
        WsClientMessage::SyncRequest { since } => match since {
            Some(since) => none(Wait::Messages { user_id, since, limit: SYNC_LIMIT }),
            None => {
                let empty: Vec<Json> = Vec::new();
                assert(crate::json::items_view(empty@) =~= Seq::<JsonView>::empty());
                one(Effect::Reply { event: events::sync_response(empty, now) }, Wait::Nothing)
            },
        },
        WsClientMessage::CallInitiate { receiver_id, call_type, offer } => none(
            Wait::Initiate {
                caller_id: user_id,
                receiver_id,
                call_type: CallType::named(call_type.as_str()),
                offer,
            },
        ),
        WsClientMessage::CallAccept { call_id, answer } => none(
            Wait::Accept { call_id, receiver_id: user_id, answer },
        ),
        WsClientMessage::CallReject { call_id, reason } => {
            let reason: String = match reason {
                Some(reason) => reason,
                None => "rejected".to_owned(),
            };
            let status = if same_text(reason.as_str(), "busy") {
                CallStatus::Busy
            } else {
                CallStatus::Rejected
            };
            none(Wait::Reject { call_id, user_id, status, reason })
        },
        WsClientMessage::CallIceCandidate { call_id, receiver_id, candidate } => one(
            Effect::Publish {
                channel: user_channel_name(receiver_id),
                event: events::ice_candidate(call_id, user_id, candidate.as_str(), now),
            },
            Wait::Nothing,
        ),
        WsClientMessage::CallHangup { call_id } => none(
            Wait::Hangup { call_id, user_id, status: CallStatus::Ended },
        ),
    }
}

fn call_placed(
    call: Call,
    caller_id: Uuid,
    receiver_id: Uuid,
    call_type: CallType,
    offer: &str,
    now: &str,
) -> (p: Progress)
    ensures
        p@ == resumed(
            WaitView::Initiate { caller_id, receiver_id, call_type, offer: offer@ },
            Outcome::Call(Ok(call)),
            now@,
        ),
{
    let kind = call_type.as_db_str();
    let incoming = Effect::Publish {
        channel: user_channel_name(receiver_id),
        event: events::call_incoming(call.id, caller_id, kind, offer, now),
    };
    let push = Effect::Push {
        job: PushNotificationJob {
            user_id: receiver_id,
            notification_type: "call".to_owned(),
            payload: events::call_push(call.id, caller_id, kind),
        },
    };
    let p = Progress {
        effects: vec![incoming, Effect::MarkRinging { call_id: call.id }, push],
        wait: Wait::Nothing,
    };
    assert(p@.effects =~= resumed(
        WaitView::Initiate { caller_id, receiver_id, call_type, offer: offer@ },
        Outcome::Call(Ok(call)),
        now@,
    ).effects);
    p
}

fn call_over(
    call: Call,
    call_id: Uuid,
    user_id: Uuid,
    status: CallStatus,
    now: &str,
) -> (p: Progress)
    ensures
        p@ == resumed(
            WaitView::Hangup { call_id, user_id, status },
            Outcome::Call(Ok(call)),
            now@,
        ),
{
    let to_caller = Effect::Publish {
        channel: user_channel_name(call.caller_id),
        event: events::call_ended(call_id, user_id, call.status.as_str(), now),
    };
    let to_receiver = Effect::Publish {
        channel: user_channel_name(call.receiver_id),
        event: events::call_ended(call_id, user_id, call.status.as_str(), now),
    };
    let p = Progress { effects: vec![to_caller, to_receiver], wait: Wait::Nothing };
    assert(p@.effects =~= resumed(
        WaitView::Hangup { call_id, user_id, status },
        Outcome::Call(Ok(call)),
        now@,
    ).effects);
    p
}

/// What comes at the time `now` after something that was waited for.
pub fn resume(wait: Wait, outcome: Outcome, now: &str) -> (p: Progress)
    ensures
        p@ == resumed(wait@, outcome, now@),
{
    match (wait, outcome) {
        (Wait::Typing { seconds: _, chat_id, user_id }, Outcome::Elapsed) => one(
            Effect::Publish {
                channel: chat_channel_name(chat_id),
                event: events::typing_event("typing_stop", chat_id, user_id, now),
            },
            Wait::Nothing,
        ),
        (Wait::Messages { user_id: _, since: _, limit: _ }, Outcome::Messages(messages)) => {
            let found: Vec<Json> = match sync_messages_after(messages) {
                Ok(found) => found,
                Err(()) => Vec::new(),
            };
            assert(messages is None ==> crate::json::items_view(found@) =~= messages_view(messages));
            one(Effect::Reply { event: events::sync_response(found, now) }, Wait::Nothing)
        },
        (
            Wait::Initiate { caller_id, receiver_id, call_type, offer },
            Outcome::Call(Ok(call)),
        ) => call_placed(call, caller_id, receiver_id, call_type, offer.as_str(), now),
        (
            Wait::Initiate { caller_id: _, receiver_id: _, call_type: _, offer: _ },
            Outcome::Call(Err(message)),
        ) => one(
            Effect::Reply { event: events::call_error(message.as_str(), now) },
            Wait::Nothing,
        ),
        (Wait::Accept { call_id, receiver_id, answer }, Outcome::Call(Ok(call))) => one(
            Effect::Publish {
                channel: user_channel_name(call.caller_id),
                event: events::call_accepted(call_id, receiver_id, answer.as_str(), now),
            },
            Wait::Nothing,
        ),
        (Wait::Reject { call_id, user_id, status: _, reason }, Outcome::Call(Ok(call))) => one(
            Effect::Publish {
                channel: user_channel_name(call.caller_id),
                event: events::call_rejected(call_id, user_id, reason.as_str(), now),
            },
            Wait::Nothing,
        ),
        (Wait::Hangup { call_id, user_id, status }, Outcome::Call(Ok(call))) => call_over(
            call,
            call_id,
            user_id,
            status,
            now,
        ),
        (Wait::Hangup { call_id, user_id, status }, Outcome::Call(Err(_))) => {
            if status == CallStatus::Ended {
                none(Wait::Hangup { call_id, user_id, status: CallStatus::Missed })
            } else {
                none(Wait::Nothing)
            }
        },
        _ => none(Wait::Nothing),
    }
}

/// What a message of a user leads to now.
pub fn handle_client_message(msg: WsClientMessage, user_id: Uuid) -> (p: Progress)
    ensures
        exists|now: Timestamp| #[trigger]
            now.on_the_clock() && p@ == begun(
                msg,
                user_id,
                crate::clock::rfc3339(now.secs, now.nanos),
            ),
{
    let now = Timestamp::now();
    begin(msg, user_id, now.to_rfc3339().as_str())
}

/// What comes now after something that was waited for.
pub fn resume_client_message(wait: Wait, outcome: Outcome) -> (p: Progress)
    ensures
        exists|now: Timestamp| #[trigger]
            now.on_the_clock() && p@ == resumed(
                wait@,
                outcome,
                crate::clock::rfc3339(now.secs, now.nanos),
            ),
{
    let now = Timestamp::now();
    resume(wait, outcome, now.to_rfc3339().as_str())
}

/// How many outcomes may still be waited for, the next one included.
pub open spec fn steps_left(wait: WaitView) -> nat {
    match wait {
        WaitView::Nothing => 0,
        WaitView::Hangup { call_id, user_id, status: CallStatus::Ended } => 2,
        _ => 1,
    }
}

/// Every message comes to an end: a client waits for two outcomes at most, and each one that
/// comes leaves fewer.
pub proof fn messages_come_to_an_end(
    msg: WsClientMessage,
    user_id: Uuid,
    wait: WaitView,
    outcome: Outcome,
    now: Seq<char>,
)
    ensures
        steps_left(begun(msg, user_id, now).wait) <= 2,
        wait !is Nothing ==> steps_left(resumed(wait, outcome, now).wait) < steps_left(wait),
{
}

/// Whoever starts typing is shown to stop: the same chat hears of it once the time has passed.
pub proof fn typing_stops_by_itself(chat_id: Uuid, user_id: Uuid, now: Seq<char>, later: Seq<char>)
    ensures
        ({
            let start = begun(WsClientMessage::TypingStart { chat_id }, user_id, now);
            let stop = resumed(start.wait, Outcome::Elapsed, later);
            &&& start.wait is Typing && start.wait->seconds == TYPING_SECONDS
            &&& stop == begun(WsClientMessage::TypingStop { chat_id }, user_id, later)
            &&& stop.effects.len() == 1 && start.effects.len() == 1
            &&& stop.effects[0]->channel == start.effects[0]->channel
        }),
{
}

/// A client that asks for missed messages gets exactly one answer, whatever comes of it, and
/// without a time to start from, or where the messages cannot be had, an empty one.
pub proof fn sync_is_always_answered(
    since: Option<Timestamp>,
    user_id: Uuid,
    messages: Option<Vec<StoredMessage>>,
    now: Seq<char>,
    later: Seq<char>,
)
    ensures
        ({
            let first = begun(WsClientMessage::SyncRequest { since }, user_id, now);
            let second = resumed(first.wait, Outcome::Messages(messages), later);
            &&& since is None ==> first == only(
                EffectView::Reply { event: events::sync_response_view(Seq::empty(), now) },
            )
            &&& since is Some ==> {
                &&& first.effects.len() == 0
                &&& first.wait == (WaitView::Messages {
                    user_id,
                    since: since->0,
                    limit: SYNC_LIMIT,
                })
                &&& second.wait is Nothing
                &&& second.effects.len() == 1
                &&& second.effects[0] is Reply
                &&& messages is None ==> second.effects[0]->Reply_event
                    == events::sync_response_view(Seq::empty(), later)
            }
        }),
{
}

/// A call that is placed always reaches for the receiver in two ways: an event on the channel of
/// the receiver and a push notification. One that is not placed is told to the caller alone.
pub proof fn placed_calls_reach_the_receiver(
    caller_id: Uuid,
    receiver_id: Uuid,
    call_type: String,
    offer: String,
    placed: Result<Call, String>,
    now: Seq<char>,
    later: Seq<char>,
)
    ensures
        ({
            let first = begun(
                WsClientMessage::CallInitiate { receiver_id, call_type, offer },
                caller_id,
                now,
            );
            let second = resumed(first.wait, Outcome::Call(placed), later);
            &&& first.effects.len() == 0
            &&& second.wait is Nothing
            &&& placed is Ok ==> {
                &&& second.effects.len() == 3
                &&& second.effects[0] is Publish
                &&& second.effects[0]->channel == user_channel(receiver_id)
                &&& second.effects[1] == (EffectView::MarkRinging { call_id: placed->Ok_0.id })
                &&& second.effects[2] is Push
                &&& second.effects[2]->Push_user_id == receiver_id
            }
            &&& placed is Err ==> second.effects.len() == 1 && second.effects[0] is Reply
        }),
{
}

/// Both participants of a call hear that it is over, whoever of them hangs up: the caller and the
/// receiver get the same event, each on a channel of their own.
pub proof fn hanging_up_tells_both_sides(
    call_id: Uuid,
    user_id: Uuid,
    status: CallStatus,
    call: Call,
    now: Seq<char>,
)
    ensures
        ({
            let over = resumed(
                WaitView::Hangup { call_id, user_id, status },
                Outcome::Call(Ok(call)),
                now,
            );
            let event = events::call_ended_view(call_id, user_id, call.status@, now);
            &&& over.wait is Nothing
            &&& over.effects == seq![
                EffectView::Publish { channel: user_channel(call.caller_id), event },
                EffectView::Publish { channel: user_channel(call.receiver_id), event },
            ]
            &&& call.caller_id != call.receiver_id ==> user_channel(call.caller_id)
                != user_channel(call.receiver_id)
        }),
{
    if user_channel(call.caller_id) == user_channel(call.receiver_id) {
        crate::ws::socket::user_channels_are_distinct(call.caller_id, call.receiver_id);
    }
}

/// A call that cannot be ended as answered is ended as missed, and otherwise left alone.
pub proof fn hanging_up_falls_back_to_missed(
    call_id: Uuid,
    user_id: Uuid,
    first_error: String,
    second_error: String,
    now: Seq<char>,
)
    ensures
        ({
            let start = begun(WsClientMessage::CallHangup { call_id }, user_id, now);
            let again = resumed(start.wait, Outcome::Call(Err(first_error)), now);
            let given_up = resumed(again.wait, Outcome::Call(Err(second_error)), now);
            &&& start.wait == (WaitView::Hangup { call_id, user_id, status: CallStatus::Ended })
            &&& again.wait == (WaitView::Hangup { call_id, user_id, status: CallStatus::Missed })
            &&& start.effects.len() == 0 && again.effects.len() == 0
            &&& given_up == no_effects(WaitView::Nothing)
        }),
{
}

/// Candidates are passed on to the receiver and nowhere else, and nothing is waited for.
pub proof fn candidates_are_only_relayed(
    call_id: Uuid,
    receiver_id: Uuid,
    sender_id: Uuid,
    candidate: String,
    now: Seq<char>,
)
    ensures
        ({
            let p = begun(
                WsClientMessage::CallIceCandidate { call_id, receiver_id, candidate },
                sender_id,
                now,
            );
            &&& p.wait is Nothing
            &&& p.effects.len() == 1
            &&& p.effects[0] is Publish
            &&& p.effects[0]->channel == user_channel(receiver_id)
        }),
{
}

/// The user on whose behalf something is waited for.
pub open spec fn acting_user(wait: WaitView) -> Option<Uuid> {
    match wait {
        WaitView::Nothing => None,
        WaitView::Typing { seconds, chat_id, user_id } => Some(user_id),
        WaitView::Messages { user_id, since, limit } => Some(user_id),
        WaitView::Initiate { caller_id, receiver_id, call_type, offer } => Some(caller_id),
        WaitView::Accept { call_id, receiver_id, answer } => Some(receiver_id),
        WaitView::Reject { call_id, user_id, status, reason } => Some(user_id),
        WaitView::Hangup { call_id, user_id, status } => Some(user_id),
    }
}

/// Whether a document has a member that says who acts, and says that it is this user.
pub open spec fn names_user(document: JsonView, user_id: Uuid) -> bool {
    document is Object && {
        let members = document->Object_0;
        ||| members.contains(("user_id"@, events::id_view(user_id)))
        ||| members.contains(("caller_id"@, events::id_view(user_id)))
        ||| members.contains(("receiver_id"@, events::id_view(user_id)))
        ||| members.contains(("sender_id"@, events::id_view(user_id)))
        ||| members.contains(("ended_by"@, events::id_view(user_id)))
    }
}

/// Whether an effect that others see says which user it comes from. Replies go back to that user,
/// and a call is marked without anyone being told.
pub open spec fn comes_from(effect: EffectView, user_id: Uuid) -> bool {
    match effect {
        EffectView::Publish { channel, event } => exists|payload: JsonView| #[trigger]
            names_user(payload, user_id) && event is Object && event->Object_0.contains(
                ("payload"@, payload),
            ),
        EffectView::Push { user_id: notified, notification_type, payload } => names_user(
            payload,
            user_id,
        ),
        EffectView::Reply { event } => true,
        EffectView::MarkRinging { call_id } => true,
    }
}

/// Whether everything in a progress is done and waited for on behalf of a user.
pub open spec fn acts_for(p: ProgressView, user_id: Uuid) -> bool {
    &&& forall|i: int| 0 <= i < p.effects.len() ==> comes_from(#[trigger] p.effects[i], user_id)
    &&& p.wait is Nothing || acting_user(p.wait) == Some(user_id)
}

proof fn published_event_names(effect: EffectView, at: int, user_id: Uuid)
    requires
        effect is Publish,
        ({
            let event = effect->Publish_event;
            let payload = event->Object_0[1].1;
            let members = payload->Object_0;
            &&& event is Object && event->Object_0.len() > 1
            &&& event->Object_0[1].0 == "payload"@ && payload is Object
            &&& 0 <= at < members.len()
            &&& members[at].1 == events::id_view(user_id)
            &&& members[at].0 == "user_id"@ || members[at].0 == "caller_id"@ || members[at].0
                == "receiver_id"@ || members[at].0 == "sender_id"@ || members[at].0 == "ended_by"@
        }),
    ensures
        comes_from(effect, user_id),
{
    let event = effect->Publish_event;
    let payload = event->Object_0[1].1;
    let members = payload->Object_0;
    assert(members[at] == (members[at].0, events::id_view(user_id)));
    assert(members.contains(members[at]));
    assert(names_user(payload, user_id));
    assert(event->Object_0[1] == ("payload"@, payload));
    assert(event->Object_0.contains(event->Object_0[1]));
}

/// Whatever a message of a user leads to names that user, in the events that others get and in
/// what is asked of calls and chats, at once and after every outcome.
pub proof fn everything_is_done_for_the_acting_user(
    msg: WsClientMessage,
    user_id: Uuid,
    wait: WaitView,
    outcome: Outcome,
    now: Seq<char>,
)
    ensures
        acts_for(begun(msg, user_id, now), user_id),
        acting_user(wait) is Some ==> acts_for(resumed(wait, outcome, now), acting_user(wait)->0),
{
    let first = begun(msg, user_id, now);
    assert forall|i: int| 0 <= i < first.effects.len() implies comes_from(
        #[trigger] first.effects[i],
        user_id,
    ) by {
        if first.effects[i] is Publish {
            published_event_names(first.effects[i], 1, user_id);
        }
    }
    if acting_user(wait) is Some {
        let user = acting_user(wait)->0;
        let next = resumed(wait, outcome, now);
        assert forall|i: int| 0 <= i < next.effects.len() implies comes_from(
            #[trigger] next.effects[i],
            user,
        ) by {
            if next.effects[i] is Publish {
                published_event_names(next.effects[i], 1, user);
            } else if next.effects[i] is Push {
                let members = next.effects[i]->payload->Object_0;
                assert(members[1] == ("caller_id"@, events::id_view(user)));
                assert(members.contains(members[1]));
            }
        }
    }
}

} // verus!
