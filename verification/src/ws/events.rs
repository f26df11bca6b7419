//! The events that clients receive.

use crate::ids::Uuid;
use crate::json::{list, member, object, raw, text, Json, JsonView};
use crate::text::join3;
use vstd::prelude::*;

verus! {

/// The text of an identifier, as a document.
pub open spec fn id_view(id: Uuid) -> JsonView {
    JsonView::Text(crate::ids::hyphenated(id))
}

/// The text of an identifier, as a document.
pub fn id(uuid: Uuid) -> (r: Json)
    ensures
        r@ == id_view(uuid),
{
    text(uuid.text().as_str())
}

/// An event with its time beside the payload.
pub open spec fn timed_event(kind: Seq<char>, payload: JsonView, now: Seq<char>) -> JsonView {
    JsonView::Object(
        seq![
            ("type"@, JsonView::Text(kind)),
            ("payload"@, payload),
            ("timestamp"@, JsonView::Text(now)),
        ],
    )
}

/// An event whose payload tells the time.
pub open spec fn plain_event(kind: Seq<char>, payload: JsonView) -> JsonView {
    JsonView::Object(seq![("type"@, JsonView::Text(kind)), ("payload"@, payload)])
}

/// Someone has started or stopped typing in a chat.
pub open spec fn typing_event_view(
    kind: Seq<char>,
    chat_id: Uuid,
    user_id: Uuid,
    now: Seq<char>,
) -> JsonView {
    timed_event(
        kind,
        JsonView::Object(seq![("chat_id"@, id_view(chat_id)), ("user_id"@, id_view(user_id))]),
        now,
    )
}

/// The messages that a client has missed.
pub open spec fn sync_response_view(messages: Seq<JsonView>, now: Seq<char>) -> JsonView {
    timed_event(
        "sync_response"@,
        JsonView::Object(seq![("messages"@, JsonView::List(messages))]),
        now,
    )
}

/// A call could not be placed.
pub open spec fn call_error_view(message: Seq<char>, now: Seq<char>) -> JsonView {
    timed_event(
        "call:error"@,
        JsonView::Object(seq![("message"@, JsonView::Text(message))]),
        now,
    )
}

/// Someone is calling.
pub open spec fn call_incoming_view(
    call_id: Uuid,
    caller_id: Uuid,
    call_type: Seq<char>,
    offer: Seq<char>,
    now: Seq<char>,
) -> JsonView {
    plain_event(
        "call:incoming"@,
        JsonView::Object(
            seq![
                ("call_id"@, id_view(call_id)),
                ("caller_id"@, id_view(caller_id)),
                ("call_type"@, JsonView::Text(call_type)),
                ("offer"@, JsonView::Raw(offer)),
                ("timestamp"@, JsonView::Text(now)),
            ],
        ),
    )
}

/// The call was taken.
pub open spec fn call_accepted_view(
    call_id: Uuid,
    receiver_id: Uuid,
    answer: Seq<char>,
    now: Seq<char>,
) -> JsonView {
    plain_event(
        "call:accepted"@,
        JsonView::Object(
            seq![
                ("call_id"@, id_view(call_id)),
                ("receiver_id"@, id_view(receiver_id)),
                ("answer"@, JsonView::Raw(answer)),
                ("timestamp"@, JsonView::Text(now)),
            ],
        ),
    )
}

/// The call was turned down.
pub open spec fn call_rejected_view(
    call_id: Uuid,
    receiver_id: Uuid,
    reason: Seq<char>,
    now: Seq<char>,
) -> JsonView {
    plain_event(
        "call:rejected"@,
        JsonView::Object(
            seq![
                ("call_id"@, id_view(call_id)),
                ("receiver_id"@, id_view(receiver_id)),
                ("reason"@, JsonView::Text(reason)),
                ("timestamp"@, JsonView::Text(now)),
            ],
        ),
    )
}

/// A way to reach the other side of a call.
pub open spec fn ice_candidate_view(
    call_id: Uuid,
    sender_id: Uuid,
    candidate: Seq<char>,
    now: Seq<char>,
) -> JsonView {
    plain_event(
        "call:ice-candidate"@,
        JsonView::Object(
            seq![
                ("call_id"@, id_view(call_id)),
                ("sender_id"@, id_view(sender_id)),
                ("candidate"@, JsonView::Raw(candidate)),
                ("timestamp"@, JsonView::Text(now)),
            ],
        ),
    )
}

/// The call is over.
pub open spec fn call_ended_view(
    call_id: Uuid,
    ended_by: Uuid,
    status: Seq<char>,
    now: Seq<char>,
) -> JsonView {
    plain_event(
        "call:ended"@,
        JsonView::Object(
            seq![
                ("call_id"@, id_view(call_id)),
                ("ended_by"@, id_view(ended_by)),
                ("status"@, JsonView::Text(status)),
                ("timestamp"@, JsonView::Text(now)),
            ],
        ),
    )
}

/// What a push notification about a call says.
pub open spec fn call_push_view(call_id: Uuid, caller_id: Uuid, call_type: Seq<char>) -> JsonView {
    JsonView::Object(
        seq![
            ("call_id"@, id_view(call_id)),
            ("caller_id"@, id_view(caller_id)),
            ("call_type"@, JsonView::Text(call_type)),
            ("title"@, JsonView::Text("Incoming Call"@)),
            ("body"@, JsonView::Text("You have an incoming "@ + call_type + " call"@)),
        ],
    )
}

fn with_time(kind: &str, payload: Json, now: &str) -> (r: Json)
    ensures
        r@ == timed_event(kind@, payload@, now@),
{
    let r = object(
        vec![
            member("type", text(kind)),
            member("payload", payload),
            member("timestamp", text(now)),
        ],
    );
    assert(r@->Object_0 =~= timed_event(kind@, payload@, now@)->Object_0);
    r
}

fn without_time(kind: &str, payload: Json) -> (r: Json)
    ensures
        r@ == plain_event(kind@, payload@),
{
    let r = object(vec![member("type", text(kind)), member("payload", payload)]);
    assert(r@->Object_0 =~= plain_event(kind@, payload@)->Object_0);
    r
}

/// Someone has started or stopped typing in a chat.
pub fn typing_event(kind: &str, chat_id: Uuid, user_id: Uuid, now: &str) -> (r: Json)
    ensures
        r@ == typing_event_view(kind@, chat_id, user_id, now@),
{
    let payload = object(vec![member("chat_id", id(chat_id)), member("user_id", id(user_id))]);
    assert(payload@->Object_0 =~= seq![
        ("chat_id"@, id_view(chat_id)),
        ("user_id"@, id_view(user_id)),
    ]);
    with_time(kind, payload, now)
}

/// The messages that a client has missed.
pub fn sync_response(messages: Vec<Json>, now: &str) -> (r: Json)
    ensures
        r@ == sync_response_view(crate::json::items_view(messages@), now@),
{
    let ghost items = crate::json::items_view(messages@);
    let payload = object(vec![member("messages", list(messages))]);
    assert(payload@->Object_0 =~= seq![("messages"@, JsonView::List(items))]);
    with_time("sync_response", payload, now)
}

/// A call could not be placed.
pub fn call_error(message: &str, now: &str) -> (r: Json)
    ensures
        r@ == call_error_view(message@, now@),
{
    let payload = object(vec![member("message", text(message))]);
    assert(payload@->Object_0 =~= seq![("message"@, JsonView::Text(message@))]);
    with_time("call:error", payload, now)
}

/// Someone is calling.
pub fn call_incoming(
    call_id: Uuid,
    caller_id: Uuid,
    call_type: &str,
    offer: &str,
    now: &str,
) -> (r: Json)
    ensures
        r@ == call_incoming_view(call_id, caller_id, call_type@, offer@, now@),
{
    let payload = object(
        vec![
            member("call_id", id(call_id)),
            member("caller_id", id(caller_id)),
            member("call_type", text(call_type)),
            member("offer", raw(offer)),
            member("timestamp", text(now)),
        ],
    );
    assert(payload@->Object_0 =~= seq![
        ("call_id"@, id_view(call_id)),
        ("caller_id"@, id_view(caller_id)),
        ("call_type"@, JsonView::Text(call_type@)),
        ("offer"@, JsonView::Raw(offer@)),
        ("timestamp"@, JsonView::Text(now@)),
    ]);
    without_time("call:incoming", payload)
}

fn call_event(
    kind: &str,
    call_id: Uuid,
    who: (&str, Uuid),
    what: (&str, Json),
    now: &str,
) -> (r: Json)
    ensures
        r@ == plain_event(
            kind@,
            JsonView::Object(
                seq![
                    ("call_id"@, id_view(call_id)),
                    (who.0@, id_view(who.1)),
                    (what.0@, what.1@),
                    ("timestamp"@, JsonView::Text(now@)),
                ],
            ),
        ),
{
    let ghost expected = seq![
        ("call_id"@, id_view(call_id)),
        (who.0@, id_view(who.1)),
        (what.0@, what.1@),
        ("timestamp"@, JsonView::Text(now@)),
    ];
    let payload = object(
        vec![
            member("call_id", id(call_id)),
            member(who.0, id(who.1)),
            member(what.0, what.1),
            member("timestamp", text(now)),
        ],
    );
    assert(payload@->Object_0 =~= expected);
    without_time(kind, payload)
}

/// The call was taken.
pub fn call_accepted(call_id: Uuid, receiver_id: Uuid, answer: &str, now: &str) -> (r: Json)
    ensures
        r@ == call_accepted_view(call_id, receiver_id, answer@, now@),
{
    call_event("call:accepted", call_id, ("receiver_id", receiver_id), ("answer", raw(answer)), now)
}

/// The call was turned down.
pub fn call_rejected(call_id: Uuid, receiver_id: Uuid, reason: &str, now: &str) -> (r: Json)
    ensures
        r@ == call_rejected_view(call_id, receiver_id, reason@, now@),
{
    call_event("call:rejected", call_id, ("receiver_id", receiver_id), ("reason", text(reason)), now)
}

/// A way to reach the other side of a call.
pub fn ice_candidate(call_id: Uuid, sender_id: Uuid, candidate: &str, now: &str) -> (r: Json)
    ensures
        r@ == ice_candidate_view(call_id, sender_id, candidate@, now@),
{
    call_event(
        "call:ice-candidate",
        call_id,
        ("sender_id", sender_id),
        ("candidate", raw(candidate)),
        now,
    )
}

/// The call is over.
pub fn call_ended(call_id: Uuid, ended_by: Uuid, status: &str, now: &str) -> (r: Json)
    ensures
        r@ == call_ended_view(call_id, ended_by, status@, now@),
{
    call_event("call:ended", call_id, ("ended_by", ended_by), ("status", text(status)), now)
}

/// What a push notification about a call says.
pub fn call_push(call_id: Uuid, caller_id: Uuid, call_type: &str) -> (r: Json)
    ensures
        r@ == call_push_view(call_id, caller_id, call_type@),
{
    let body = join3("You have an incoming ", call_type, " call");
    let r = object(
        vec![
            member("call_id", id(call_id)),
            member("caller_id", id(caller_id)),
            member("call_type", text(call_type)),
            member("title", text("Incoming Call")),
            member("body", text(body.as_str())),
        ],
    );
    assert(r@->Object_0 =~= call_push_view(call_id, caller_id, call_type@)->Object_0);
    r
}

} // verus!
