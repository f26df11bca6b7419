//! What of a client's message arrives where.

use crate::clock::Timestamp;
use crate::ids::{hyphenated, Uuid};
use crate::json::JsonView;
use crate::ws::signaling::{
    begun, chat_channel, message_view, messages_view, resumed, Call, CallStatus, CallType, Effect,
    EffectView, Outcome, Progress, PushNotificationJob, StoredMessage, Wait, WaitView,
    WsClientMessage,
};
use crate::ws::socket::user_channel;
use vstd::prelude::*;

verus! {

/// Whether an object has a member with this name and this value.
pub open spec fn tells(document: JsonView, name: Seq<char>, value: JsonView) -> bool {
    document is Object && document->Object_0.contains((name, value))
}

/// How many members an object has.
pub open spec fn size(document: JsonView) -> nat {
    document->Object_0.len()
}

/// Whether a document is an event of some kind: its type first, and then its payload, an object.
pub open spec fn is_event(event: JsonView, kind: Seq<char>) -> bool {
    &&& event is Object
    &&& event->Object_0.len() >= 2
    &&& event->Object_0[0] == ("type"@, JsonView::Text(kind))
    &&& event->Object_0[1].0 == "payload"@
    &&& event->Object_0[1].1 is Object
}

/// The payload of an event.
pub open spec fn payload_of(event: JsonView) -> JsonView {
    event->Object_0[1].1
}

/// Whether an event tells the time beside its payload, and nothing else.
pub open spec fn is_timed(event: JsonView, now: Seq<char>) -> bool {
    event->Object_0.len() == 3 && event->Object_0[2] == ("timestamp"@, JsonView::Text(now))
}

proof fn tells_member(document: JsonView, i: int)
    requires
        document is Object,
        0 <= i < document->Object_0.len(),
    ensures
        tells(document, document->Object_0[i].0, document->Object_0[i].1),
{
    let m = document->Object_0[i];
    assert(m == (m.0, m.1));
    assert(document->Object_0.contains(m));
}

/// The channel of a chat carries the whole text of the chat, between what is the same for all, so
/// that each chat has a channel of its own.
pub proof fn chat_channels_carry_the_chat(chat_id: Uuid, other: Uuid)
    ensures
        chat_channel(chat_id).len() == 48,
        chat_channel(chat_id).take(5) == "chat:"@,
        chat_channel(chat_id).subrange(5, 41) == hyphenated(chat_id),
        chat_channel(chat_id).skip(41) == ":events"@,
        chat_channel(chat_id) == chat_channel(other) ==> chat_id == other,
{
    reveal_strlit("chat:");
    reveal_strlit(":events");
    assert(chat_channel(chat_id).take(5) =~= "chat:"@);
    assert(chat_channel(chat_id).subrange(5, 41) =~= hyphenated(chat_id));
    assert(chat_channel(other).subrange(5, 41) =~= hyphenated(other));
    assert(chat_channel(chat_id).skip(41) =~= ":events"@);
    if chat_channel(chat_id) == chat_channel(other) {
        crate::ids::hyphenated_injective(chat_id, other);
    }
}

/// Whether an effect tells a chat that a user has started or stopped typing.
pub open spec fn tells_typing(
    effect: EffectView,
    kind: Seq<char>,
    chat_id: Uuid,
    user_id: Uuid,
    now: Seq<char>,
) -> bool {
    let event = effect->Publish_event;
    let payload = payload_of(event);
    &&& effect is Publish
    &&& effect->channel == chat_channel(chat_id)
    &&& is_event(event, kind) && is_timed(event, now)
    &&& size(payload) == 2
    &&& tells(payload, "chat_id"@, JsonView::Text(hyphenated(chat_id)))
    &&& tells(payload, "user_id"@, JsonView::Text(hyphenated(user_id)))
}

/// Who starts or stops typing in a chat is shown in that chat and nowhere else, and who started is
/// waited for.
pub proof fn typing_is_shown_in_its_chat(chat_id: Uuid, user_id: Uuid, now: Seq<char>)
    ensures
        ({
            let start = begun(WsClientMessage::TypingStart { chat_id }, user_id, now);
            let stop = begun(WsClientMessage::TypingStop { chat_id }, user_id, now);
            &&& start.effects.len() == 1
            &&& tells_typing(start.effects[0], "typing_start"@, chat_id, user_id, now)
            &&& start.wait is Typing
            &&& start.wait->seconds == 5
            &&& start.wait->Typing_chat_id == chat_id
            &&& start.wait->Typing_user_id == user_id
            &&& stop.effects.len() == 1
            &&& tells_typing(stop.effects[0], "typing_stop"@, chat_id, user_id, now)
            &&& stop.wait is Nothing
        }),
{
    let start = begun(WsClientMessage::TypingStart { chat_id }, user_id, now);
    let stop = begun(WsClientMessage::TypingStop { chat_id }, user_id, now);
    tells_member(payload_of(start.effects[0]->Publish_event), 0);
    tells_member(payload_of(start.effects[0]->Publish_event), 1);
    tells_member(payload_of(stop.effects[0]->Publish_event), 0);
    tells_member(payload_of(stop.effects[0]->Publish_event), 1);
}

/// After the wait the chat is told that the user has stopped, whatever chat and user these are.
pub proof fn typing_stop_is_shown_in_its_chat(
    seconds: u64,
    chat_id: Uuid,
    user_id: Uuid,
    now: Seq<char>,
)
    ensures
        ({
            let stop = resumed(
                WaitView::Typing { seconds, chat_id, user_id },
                Outcome::Elapsed,
                now,
            );
            &&& stop.effects.len() == 1
            &&& tells_typing(stop.effects[0], "typing_stop"@, chat_id, user_id, now)
            &&& stop.wait is Nothing
        }),
{
    let stop = resumed(WaitView::Typing { seconds, chat_id, user_id }, Outcome::Elapsed, now);
    tells_member(payload_of(stop.effects[0]->Publish_event), 0);
    tells_member(payload_of(stop.effects[0]->Publish_event), 1);
}

/// Whether a document carries a message: its identifiers and its content, and nothing else.
pub open spec fn carries(document: JsonView, m: StoredMessage) -> bool {
    &&& document is Object && size(document) == 7
    &&& tells(document, "chat_id"@, JsonView::Text(hyphenated(m.chat_id)))
    &&& tells(document, "message_id"@, JsonView::Text(hyphenated(m.id)))
    &&& tells(document, "sender_id"@, JsonView::Text(hyphenated(m.sender_id)))
    &&& tells(document, "content_encrypted"@, m.content_encrypted@)
    &&& tells(document, "content_iv"@, m.content_iv@)
    &&& tells(document, "message_type"@, m.message_type@)
    &&& tells(document, "created_at"@, m.created_at@)
}

proof fn message_is_carried(m: StoredMessage)
    ensures
        carries(message_view(m), m),
{
    let d = message_view(m);
    tells_member(d, 0);
    tells_member(d, 1);
    tells_member(d, 2);
    tells_member(d, 3);
    tells_member(d, 4);
    tells_member(d, 5);
    tells_member(d, 6);
}

/// As many messages are listed as were found, and the document at each place carries the message
/// that was found at that place. Where messages could not be had none are listed.
pub proof fn every_message_is_listed(found: Vec<StoredMessage>)
    ensures
        messages_view(Some(found)).len() == found@.len(),
        forall|i: int|
            0 <= i < found@.len() ==> carries(
                #[trigger] messages_view(Some(found))[i],
                found@[i],
            ),
        messages_view(None).len() == 0,
{
    assert forall|i: int| 0 <= i < found@.len() implies carries(
        #[trigger] messages_view(Some(found))[i],
        found@[i],
    ) by {
        message_is_carried(found@[i]);
    }
}

/// Whether an effect answers the client with a list of documents, and nothing else.
pub open spec fn answers_with(effect: EffectView, listed: Seq<JsonView>, now: Seq<char>) -> bool {
    let event = effect->Reply_event;
    let payload = payload_of(event);
    &&& effect is Reply
    &&& is_event(event, "sync_response"@) && is_timed(event, now)
    &&& size(payload) == 1
    &&& tells(payload, "messages"@, JsonView::List(listed))
}

/// A sync is answered with all that was found: the answer lists as many messages as were found,
/// and the document at each place carries the message that was found at that place. The messages
/// are asked for from the time that the client named, for the client, up to a hundred.
pub proof fn sync_lists_every_message(
    user_id: Uuid,
    since: Timestamp,
    found: Vec<StoredMessage>,
    now: Seq<char>,
    later: Seq<char>,
)
    ensures
        ({
            let first = begun(
                WsClientMessage::SyncRequest { since: Some(since) },
                user_id,
                now,
            );
            let second = resumed(first.wait, Outcome::Messages(Some(found)), later);
            let failed = resumed(first.wait, Outcome::Messages(None), later);
            let unasked = begun(WsClientMessage::SyncRequest { since: None }, user_id, now);
            &&& first.effects.len() == 0
            &&& first.wait is Messages
            &&& first.wait->Messages_user_id == user_id
            &&& first.wait->since == since
            &&& first.wait->limit == 100
            &&& second.wait is Nothing && second.effects.len() == 1
            &&& exists|listed: Seq<JsonView>| #[trigger]
                answers_with(second.effects[0], listed, later) && listed.len() == found@.len() && (
                forall|i: int|
                    0 <= i < found@.len() ==> carries(#[trigger] listed[i], found@[i]))
            &&& failed.wait is Nothing && failed.effects.len() == 1
            &&& answers_with(failed.effects[0], Seq::empty(), later)
            &&& unasked.wait is Nothing && unasked.effects.len() == 1
            &&& answers_with(unasked.effects[0], Seq::empty(), now)
        }),
{
    let first = begun(WsClientMessage::SyncRequest { since: Some(since) }, user_id, now);
    let second = resumed(first.wait, Outcome::Messages(Some(found)), later);
    let failed = resumed(first.wait, Outcome::Messages(None), later);
    let unasked = begun(WsClientMessage::SyncRequest { since: None }, user_id, now);
    every_message_is_listed(found);
    tells_member(payload_of(second.effects[0]->Reply_event), 0);
    tells_member(payload_of(failed.effects[0]->Reply_event), 0);
    tells_member(payload_of(unasked.effects[0]->Reply_event), 0);
    assert(answers_with(second.effects[0], messages_view(Some(found)), later));
}

/// The kind of call that a client gets: a video call exactly if it asked for one.
pub open spec fn kind_asked_for(call_type: Seq<char>) -> Seq<char> {
    if call_type == "video"@ {
        "video"@
    } else {
        "audio"@
    }
}

/// Whether an effect tells a user of an incoming call.
pub open spec fn rings(
    effect: EffectView,
    receiver_id: Uuid,
    call_id: Uuid,
    caller_id: Uuid,
    kind: Seq<char>,
    offer: Seq<char>,
    now: Seq<char>,
) -> bool {
    let event = effect->Publish_event;
    let payload = payload_of(event);
    &&& effect is Publish
    &&& effect->channel == user_channel(receiver_id)
    &&& is_event(event, "call:incoming"@) && event->Object_0.len() == 2
    &&& size(payload) == 5
    &&& tells(payload, "call_id"@, JsonView::Text(hyphenated(call_id)))
    &&& tells(payload, "caller_id"@, JsonView::Text(hyphenated(caller_id)))
    &&& tells(payload, "call_type"@, JsonView::Text(kind))
    &&& tells(payload, "offer"@, JsonView::Raw(offer))
    &&& tells(payload, "timestamp"@, JsonView::Text(now))
}

/// Whether an effect wakes the devices of a user for a call.
pub open spec fn wakes(
    effect: EffectView,
    receiver_id: Uuid,
    call_id: Uuid,
    caller_id: Uuid,
    kind: Seq<char>,
) -> bool {
    let payload = effect->payload;
    &&& effect is Push
    &&& effect->Push_user_id == receiver_id
    &&& effect->notification_type == "call"@
    &&& size(payload) == 5
    &&& tells(payload, "call_id"@, JsonView::Text(hyphenated(call_id)))
    &&& tells(payload, "caller_id"@, JsonView::Text(hyphenated(caller_id)))
    &&& tells(payload, "call_type"@, JsonView::Text(kind))
    &&& tells(payload, "title"@, JsonView::Text("Incoming Call"@))
    &&& tells(payload, "body"@, JsonView::Text("You have an incoming "@ + kind + " call"@))
}

/// A call is placed as the client asked, between the two that it named, and once it is placed the
/// receiver is rung and woken for a video call exactly if the client asked for `video`, and for an
/// audio call otherwise. The offer reaches the receiver as it is.
pub proof fn calls_arrive_as_they_were_asked_for(
    caller_id: Uuid,
    receiver_id: Uuid,
    call_type: String,
    offer: String,
    call: Call,
    now: Seq<char>,
    later: Seq<char>,
)
    ensures
        ({
            let first = begun(
                WsClientMessage::CallInitiate { receiver_id, call_type, offer },
                caller_id,
                now,
            );
            let second = resumed(first.wait, Outcome::Call(Ok(call)), later);
            let kind = kind_asked_for(call_type@);
            &&& first.effects.len() == 0
            &&& first.wait is Initiate
            &&& first.wait->caller_id == caller_id
            &&& first.wait->Initiate_receiver_id == receiver_id
            &&& first.wait->call_type == CallType::Video <==> call_type@ == "video"@
            &&& first.wait->offer == offer@
            &&& second.wait is Nothing
            &&& second.effects.len() == 3
            &&& rings(second.effects[0], receiver_id, call.id, caller_id, kind, offer@, later)
            &&& second.effects[1] == (EffectView::MarkRinging { call_id: call.id })
            &&& wakes(second.effects[2], receiver_id, call.id, caller_id, kind)
        }),
{
    let first = begun(
        WsClientMessage::CallInitiate { receiver_id, call_type, offer },
        caller_id,
        now,
    );
    let second = resumed(first.wait, Outcome::Call(Ok(call)), later);
    let rung = payload_of(second.effects[0]->Publish_event);
    tells_member(rung, 0);
    tells_member(rung, 1);
    tells_member(rung, 2);
    tells_member(rung, 3);
    tells_member(rung, 4);
    let woken = second.effects[2]->payload;
    tells_member(woken, 0);
    tells_member(woken, 1);
    tells_member(woken, 2);
    tells_member(woken, 3);
    tells_member(woken, 4);
}

/// A call that is waited for rings in its own kind, and one that cannot be placed is told to the
/// caller, with the whole reason.
pub proof fn awaited_calls_ring_in_their_kind(
    caller_id: Uuid,
    receiver_id: Uuid,
    call_type: CallType,
    offer: Seq<char>,
    call: Call,
    reason: String,
    now: Seq<char>,
)
    ensures
        ({
            let wait = WaitView::Initiate { caller_id, receiver_id, call_type, offer };
            let placed = resumed(wait, Outcome::Call(Ok(call)), now);
            let failed = resumed(wait, Outcome::Call(Err(reason)), now);
            let kind = if call_type == CallType::Video {
                "video"@
            } else {
                "audio"@
            };
            let event = failed.effects[0]->Reply_event;
            &&& placed.effects.len() == 3 && placed.wait is Nothing
            &&& rings(placed.effects[0], receiver_id, call.id, caller_id, kind, offer, now)
            &&& placed.effects[1] == (EffectView::MarkRinging { call_id: call.id })
            &&& wakes(placed.effects[2], receiver_id, call.id, caller_id, kind)
            &&& failed.effects.len() == 1 && failed.wait is Nothing
            &&& failed.effects[0] is Reply
            &&& is_event(event, "call:error"@) && is_timed(event, now)
            &&& size(payload_of(event)) == 1
            &&& tells(payload_of(event), "message"@, JsonView::Text(reason@))
        }),
{
    let wait = WaitView::Initiate { caller_id, receiver_id, call_type, offer };
    let placed = resumed(wait, Outcome::Call(Ok(call)), now);
    let failed = resumed(wait, Outcome::Call(Err(reason)), now);
    let rung = payload_of(placed.effects[0]->Publish_event);
    tells_member(rung, 0);
    tells_member(rung, 1);
    tells_member(rung, 2);
    tells_member(rung, 3);
    tells_member(rung, 4);
    let woken = placed.effects[2]->payload;
    tells_member(woken, 0);
    tells_member(woken, 1);
    tells_member(woken, 2);
    tells_member(woken, 3);
    tells_member(woken, 4);
    tells_member(payload_of(failed.effects[0]->Reply_event), 0);
}

/// Whether an effect tells a user something of a call: which call, who is behind it, one thing
/// more, and the time.
pub open spec fn tells_of_call(
    effect: EffectView,
    to: Uuid,
    kind: Seq<char>,
    call_id: Uuid,
    who: (Seq<char>, Uuid),
    what: (Seq<char>, JsonView),
    now: Seq<char>,
) -> bool {
    let event = effect->Publish_event;
    let payload = payload_of(event);
    &&& effect is Publish
    &&& effect->channel == user_channel(to)
    &&& is_event(event, kind) && event->Object_0.len() == 2
    &&& size(payload) == 4
    &&& tells(payload, "call_id"@, JsonView::Text(hyphenated(call_id)))
    &&& tells(payload, who.0, JsonView::Text(hyphenated(who.1)))
    &&& tells(payload, what.0, what.1)
    &&& tells(payload, "timestamp"@, JsonView::Text(now))
}

proof fn tells_four(effect: EffectView)
    requires
        effect is Publish,
        payload_of(effect->Publish_event) is Object,
        size(payload_of(effect->Publish_event)) == 4,
    ensures
        forall|i: int|
            0 <= i < 4 ==> {
                let m = #[trigger] payload_of(effect->Publish_event)->Object_0[i];
                tells(payload_of(effect->Publish_event), m.0, m.1)
            },
{
    let payload = payload_of(effect->Publish_event);
    tells_member(payload, 0);
    tells_member(payload, 1);
    tells_member(payload, 2);
    tells_member(payload, 3);
}

/// The caller alone hears that a call was taken, by whom, and gets the answer as it is. The call is
/// taken in the name of the client that takes it.
pub proof fn answers_reach_the_caller(
    call_id: Uuid,
    user_id: Uuid,
    answer: String,
    call: Call,
    now: Seq<char>,
    later: Seq<char>,
)
    ensures
        ({
            let first = begun(WsClientMessage::CallAccept { call_id, answer }, user_id, now);
            let second = resumed(first.wait, Outcome::Call(Ok(call)), later);
            &&& first.effects.len() == 0
            &&& first.wait is Accept
            &&& first.wait->Accept_call_id == call_id
            &&& first.wait->Accept_receiver_id == user_id
            &&& first.wait->answer == answer@
            &&& second.wait is Nothing && second.effects.len() == 1
            &&& tells_of_call(
                second.effects[0],
                call.caller_id,
                "call:accepted"@,
                call_id,
                ("receiver_id"@, user_id),
                ("answer"@, JsonView::Raw(answer@)),
                later,
            )
        }),
{
    let first = begun(WsClientMessage::CallAccept { call_id, answer }, user_id, now);
    let second = resumed(first.wait, Outcome::Call(Ok(call)), later);
    tells_four(second.effects[0]);
    let payload = payload_of(second.effects[0]->Publish_event);
    assert(payload->Object_0[0].0 == "call_id"@ && payload->Object_0[1].0 == "receiver_id"@
        && payload->Object_0[2].0 == "answer"@ && payload->Object_0[3].0 == "timestamp"@);
}

/// The caller alone hears that a call was turned down, by whom and why: for the whole reason that
/// was given, or `rejected` where none was. It ends as busy exactly if the reason is `busy`.
pub proof fn refusals_reach_the_caller(
    call_id: Uuid,
    user_id: Uuid,
    reason: Option<String>,
    call: Call,
    now: Seq<char>,
    later: Seq<char>,
)
    ensures
        ({
            let first = begun(WsClientMessage::CallReject { call_id, reason }, user_id, now);
            let second = resumed(first.wait, Outcome::Call(Ok(call)), later);
            let why = if reason is Some {
                reason->0@
            } else {
                "rejected"@
            };
            &&& first.effects.len() == 0
            &&& first.wait is Reject
            &&& first.wait->Reject_call_id == call_id
            &&& first.wait->Reject_user_id == user_id
            &&& first.wait->Reject_status == CallStatus::Busy <==> why == "busy"@
            &&& first.wait->Reject_status == CallStatus::Rejected <==> why != "busy"@
            &&& second.wait is Nothing && second.effects.len() == 1
            &&& tells_of_call(
                second.effects[0],
                call.caller_id,
                "call:rejected"@,
                call_id,
                ("receiver_id"@, user_id),
                ("reason"@, JsonView::Text(why)),
                later,
            )
        }),
{
    let first = begun(WsClientMessage::CallReject { call_id, reason }, user_id, now);
    let second = resumed(first.wait, Outcome::Call(Ok(call)), later);
    tells_four(second.effects[0]);
    let payload = payload_of(second.effects[0]->Publish_event);
    assert(payload->Object_0[0].0 == "call_id"@ && payload->Object_0[1].0 == "receiver_id"@
        && payload->Object_0[2].0 == "reason"@ && payload->Object_0[3].0 == "timestamp"@);
}

/// A candidate reaches the receiver that the client named, as it is and with the sender's name.
pub proof fn candidates_reach_the_receiver(
    call_id: Uuid,
    receiver_id: Uuid,
    sender_id: Uuid,
    candidate: String,
    now: Seq<char>,
)
    ensures
        ({
            let p = begun(
                WsClientMessage::CallIceCandidate { call_id, receiver_id, candidate },
                sender_id,
                now,
            );
            &&& p.wait is Nothing && p.effects.len() == 1
            &&& tells_of_call(
                p.effects[0],
                receiver_id,
                "call:ice-candidate"@,
                call_id,
                ("sender_id"@, sender_id),
                ("candidate"@, JsonView::Raw(candidate@)),
                now,
            )
        }),
{
    let p = begun(
        WsClientMessage::CallIceCandidate { call_id, receiver_id, candidate },
        sender_id,
        now,
    );
    tells_four(p.effects[0]);
    let payload = payload_of(p.effects[0]->Publish_event);
    assert(payload->Object_0[0].0 == "call_id"@ && payload->Object_0[1].0 == "sender_id"@
        && payload->Object_0[2].0 == "candidate"@ && payload->Object_0[3].0 == "timestamp"@);
}

/// The caller and the receiver of a call hear that it is over, who ended it, and how it ended, as
/// it is stored. The call is ended in the name of the client that hangs up: as answered, and where
/// that fails as missed.
pub proof fn hangups_reach_both_sides(
    call_id: Uuid,
    user_id: Uuid,
    status: CallStatus,
    call: Call,
    failure: String,
    now: Seq<char>,
)
    ensures
        ({
            let first = begun(WsClientMessage::CallHangup { call_id }, user_id, now);
            let wait = WaitView::Hangup { call_id, user_id, status };
            let over = resumed(wait, Outcome::Call(Ok(call)), now);
            let failed = resumed(wait, Outcome::Call(Err(failure)), now);
            let who = ("ended_by"@, user_id);
            let what = ("status"@, JsonView::Text(call.status@));
            &&& first.effects.len() == 0
            &&& first.wait == (WaitView::Hangup { call_id, user_id, status: CallStatus::Ended })
            &&& over.wait is Nothing && over.effects.len() == 2
            &&& tells_of_call(
                over.effects[0],
                call.caller_id,
                "call:ended"@,
                call_id,
                who,
                what,
                now,
            )
            &&& tells_of_call(
                over.effects[1],
                call.receiver_id,
                "call:ended"@,
                call_id,
                who,
                what,
                now,
            )
            &&& failed.effects.len() == 0
            &&& status == CallStatus::Ended ==> failed.wait == (WaitView::Hangup {
                call_id,
                user_id,
                status: CallStatus::Missed,
            })
            &&& status != CallStatus::Ended ==> failed.wait is Nothing
        }),
{
    let over = resumed(
        WaitView::Hangup { call_id, user_id, status },
        Outcome::Call(Ok(call)),
        now,
    );
    tells_four(over.effects[0]);
    tells_four(over.effects[1]);
    let a = payload_of(over.effects[0]->Publish_event);
    let b = payload_of(over.effects[1]->Publish_event);
    assert(a->Object_0[0].0 == "call_id"@ && a->Object_0[1].0 == "ended_by"@
        && a->Object_0[2].0 == "status"@ && a->Object_0[3].0 == "timestamp"@);
    assert(b->Object_0[0].0 == "call_id"@ && b->Object_0[1].0 == "ended_by"@
        && b->Object_0[2].0 == "status"@ && b->Object_0[3].0 == "timestamp"@);
}

/// A call that cannot be taken or turned down leads to nothing, whatever the reason.
pub proof fn failed_answers_lead_to_nothing(
    call_id: Uuid,
    user_id: Uuid,
    status: CallStatus,
    text: Seq<char>,
    failure: String,
    now: Seq<char>,
)
    ensures
        ({
            let accept = WaitView::Accept { call_id, receiver_id: user_id, answer: text };
            let reject = WaitView::Reject { call_id, user_id, status, reason: text };
            let a = resumed(accept, Outcome::Call(Err(failure)), now);
            let r = resumed(reject, Outcome::Call(Err(failure)), now);
            &&& a.effects.len() == 0 && a.wait is Nothing
            &&& r.effects.len() == 0 && r.wait is Nothing
        }),
{
}

/// Effects, waits and whole progresses are seen as they are.
pub proof fn progress_is_seen_as_it_is(
    p: Progress,
    channel: String,
    event: crate::json::Json,
    call_id: Uuid,
    job: PushNotificationJob,
)
    ensures
        p@.wait == p.wait@,
        p@.effects.len() == p.effects@.len(),
        forall|i: int| 0 <= i < p.effects@.len() ==> #[trigger] p@.effects[i] == p.effects@[i]@,
        (Effect::Publish { channel, event })@ == (EffectView::Publish {
            channel: channel@,
            event: event@,
        }),
        (Effect::Reply { event })@ == (EffectView::Reply { event: event@ }),
        (Effect::MarkRinging { call_id })@ == (EffectView::MarkRinging { call_id }),
        (Effect::Push { job })@ == (EffectView::Push {
            user_id: job.user_id,
            notification_type: job.notification_type@,
            payload: job.payload@,
        }),
{
}

/// What is waited for is seen as it is.
pub proof fn waits_are_seen_as_they_are(
    a: Uuid,
    b: Uuid,
    seconds: u64,
    since: Timestamp,
    limit: i64,
    call_type: CallType,
    status: CallStatus,
    text: String,
)
    ensures
        Wait::Nothing@ is Nothing,
        (Wait::Typing { seconds, chat_id: a, user_id: b })@ == (WaitView::Typing {
            seconds,
            chat_id: a,
            user_id: b,
        }),
        (Wait::Messages { user_id: a, since, limit })@ == (WaitView::Messages {
            user_id: a,
            since,
            limit,
        }),
        (Wait::Initiate { caller_id: a, receiver_id: b, call_type, offer: text })@ == (
        WaitView::Initiate { caller_id: a, receiver_id: b, call_type, offer: text@ }),
        (Wait::Accept { call_id: a, receiver_id: b, answer: text })@ == (WaitView::Accept {
            call_id: a,
            receiver_id: b,
            answer: text@,
        }),
        (Wait::Reject { call_id: a, user_id: b, status, reason: text })@ == (WaitView::Reject {
            call_id: a,
            user_id: b,
            status,
            reason: text@,
        }),
        (Wait::Hangup { call_id: a, user_id: b, status })@ == (WaitView::Hangup {
            call_id: a,
            user_id: b,
            status,
        }),
{
}

} // verus!
