//! The life of one WebSocket.

use crate::clock::Timestamp;
use crate::ids::Uuid;
use crate::store::{keys_after, StoreCommand, StoreCommandView};
use crate::text::{join2, join3};
use crate::ws::connections::{cleaned_up, registered, Connections};
use vstd::prelude::*;

verus! {

/// For how many seconds a user counts as present.
pub const PRESENCE_TTL: u64 = 65;

/// How many messages may wait for one client.
pub const OUTBOX_CAPACITY: usize = 100;

/// What a socket that opens adds to the gauge of active sockets.
pub const SOCKET_OPENED: i64 = 1;

/// What a socket that has ended adds to the gauge of active sockets.
pub const SOCKET_ENDED: i64 = -1;

/// The key that marks a user as present.
pub open spec fn presence_key(user_id: Uuid) -> Seq<char> {
    "presence:"@ + crate::ids::hyphenated(user_id)
}

/// The channel on which events for a user are published.
pub open spec fn user_channel(user_id: Uuid) -> Seq<char> {
    "user:"@ + crate::ids::hyphenated(user_id) + ":events"@
}

/// The channel on which events for a user are published.
pub fn user_channel_name(user_id: Uuid) -> (s: String)
    ensures
        s@ == user_channel(user_id),
{
    join3("user:", user_id.text().as_str(), ":events")
}

/// What is done when a socket opens: the gauge of active sockets changes, the user is marked as
/// present, and the channel of the user is followed.
#[derive(Debug, PartialEq, Eq)]
pub struct SocketStart {
    pub gauge_change: i64,
    pub announce: StoreCommand,
    pub channel: String,
}

/// What is done when a socket has ended: the gauge of active sockets changes, the mark is taken
/// away, and the repository is told when the user was last seen.
pub struct SocketEnd {
    pub gauge_change: i64,
    pub retract: StoreCommand,
    pub last_seen: Timestamp,
}

/// What arrives on a socket.
pub enum Frame {
    Text(String),
    Binary,
    Ping,
    Pong,
    Close,
    /// Reading failed.
    Failed,
}

/// What to do with a frame.
#[derive(Debug, PartialEq, Eq)]
pub enum FrameStep {
    /// Read the text as a message of the client, and handle it if it is one.
    Handle(String),
    Ignore,
    /// The socket has ended.
    Stop,
}

/// The command that marks a user as present.
pub open spec fn announcement(user_id: Uuid) -> StoreCommandView {
    StoreCommandView::SetEx { key: presence_key(user_id), value: "1"@, seconds: PRESENCE_TTL }
}

/// The command that takes the mark away.
pub open spec fn retraction(user_id: Uuid) -> StoreCommandView {
    StoreCommandView::Del { key: presence_key(user_id) }
}

/// Begins with a socket of a user, which is from now on among the connections of the user under
/// a number of its own.
pub fn handle_socket(
    connections: &mut Connections,
    user_id: Uuid,
    connection: u64,
) -> (start: SocketStart)
    ensures
        final(connections)@ == registered(old(connections)@, user_id, connection),
        start.gauge_change == SOCKET_OPENED,
        start.announce@ == announcement(user_id),
        start.channel@ == user_channel(user_id),
{
    connections.register(user_id, connection);
    SocketStart {
        gauge_change: SOCKET_OPENED,
        announce: StoreCommand::SetEx {
            key: join2("presence:", user_id.text().as_str()),
            value: "1".to_owned(),
            seconds: PRESENCE_TTL,
        },
        channel: user_channel_name(user_id),
    }
}

/// Decides what to do with a frame.
pub fn frame_received(frame: Frame) -> (step: FrameStep)
    ensures
        match frame {
            Frame::Text(s) => step == FrameStep::Handle(s),
            Frame::Close => step == FrameStep::Stop,
            Frame::Failed => step == FrameStep::Stop,
            _ => step == FrameStep::Ignore,
        },
{
    match frame {
        Frame::Text(s) => FrameStep::Handle(s),
        Frame::Binary => FrameStep::Ignore,
        Frame::Ping => FrameStep::Ignore,
        Frame::Pong => FrameStep::Ignore,
        Frame::Close => FrameStep::Stop,
        Frame::Failed => FrameStep::Stop,
    }
}

/// What is passed on to the client of an event on the channel of its user: the payload, or
/// nothing but an empty text where it cannot be read.
pub fn event_received(payload: Option<String>) -> (s: String)
    ensures
        payload is Some ==> s == payload->0,
        payload is None ==> s@ == Seq::<char>::empty(),
{
    match payload {
        Some(s) => s,
        None => String::new(),
    }
}

/// Ends a socket of a user that was last seen at some time. The connections of the user that
/// have closed are forgotten.
pub fn end_socket(
    connections: &mut Connections,
    user_id: Uuid,
    closed: &Vec<u64>,
    now: Timestamp,
) -> (end: SocketEnd)
    ensures
        final(connections)@ == cleaned_up(old(connections)@, user_id, closed@),
        end.gauge_change == SOCKET_ENDED,
        end.retract@ == retraction(user_id),
        end.last_seen == now,
{
    connections.clean_up(user_id, closed);
    SocketEnd {
        gauge_change: SOCKET_ENDED,
        retract: StoreCommand::Del { key: join2("presence:", user_id.text().as_str()) },
        last_seen: now,
    }
}

/// Ends a socket of a user now.
pub fn socket_closed(
    connections: &mut Connections,
    user_id: Uuid,
    closed: &Vec<u64>,
) -> (end: SocketEnd)
    ensures
        final(connections)@ == cleaned_up(old(connections)@, user_id, closed@),
        end.gauge_change == SOCKET_ENDED,
        end.retract@ == retraction(user_id),
        end.last_seen.on_the_clock(),
{
    let now = Timestamp::now();
    end_socket(connections, user_id, closed, now)
}

/// A user is marked as present from the start of a socket, and no longer once it has ended.
pub proof fn presence_lasts_as_long_as_the_socket(
    keys: Map<Seq<char>, Seq<char>>,
    user_id: Uuid,
)
    ensures
        ({
            let opened = keys_after(keys, announcement(user_id));
            &&& opened.contains_key(presence_key(user_id))
            &&& !keys_after(opened, retraction(user_id)).contains_key(presence_key(user_id))
        }),
{
}

/// The gauge after a row of openings (`true`) and ends (`false`) of sockets.
pub open spec fn gauge_after(gauge: int, changes: Seq<bool>) -> int
    decreases changes.len(),
{
    if changes.len() == 0 {
        gauge
    } else {
        gauge_after(gauge, changes.drop_last()) + if changes.last() {
            SOCKET_OPENED as int
        } else {
            SOCKET_ENDED as int
        }
    }
}

/// The gauge counts the sockets that are open: from zero it is the number of openings less the
/// number of ends, so that it is zero again once every socket has ended.
pub proof fn gauge_counts_open_sockets(changes: Seq<bool>)
    ensures
        gauge_after(0, changes) == changes.filter(|opened: bool| opened).len() - changes.filter(
            |opened: bool| !opened,
        ).len(),
    decreases changes.len(),
{
    reveal(Seq::filter);
    if changes.len() > 0 {
        gauge_counts_open_sockets(changes.drop_last());
    }
}

/// The sockets of one user do not touch the presence of another.
pub proof fn presence_is_per_user(a: Uuid, b: Uuid)
    requires
        presence_key(a) == presence_key(b),
    ensures
        a == b,
{
    let n = "presence:"@.len() as int;
    assert(presence_key(a).skip(n) =~= crate::ids::hyphenated(a));
    assert(presence_key(b).skip(n) =~= crate::ids::hyphenated(b));
    crate::ids::hyphenated_injective(a, b);
}

/// Each user has a channel of their own.
pub proof fn user_channels_are_distinct(a: Uuid, b: Uuid)
    requires
        user_channel(a) == user_channel(b),
    ensures
        a == b,
{
    let n = "user:"@.len() as int;
    assert(user_channel(a).subrange(n, n + 36) =~= crate::ids::hyphenated(a));
    assert(user_channel(b).subrange(n, n + 36) =~= crate::ids::hyphenated(b));
    crate::ids::hyphenated_injective(a, b);
}

/// The channel of a user carries the whole text of the user, between what is the same for all.
pub proof fn user_channels_carry_the_user(id: Uuid)
    ensures
        user_channel(id).len() == 48,
        user_channel(id).take(5) == "user:"@,
        user_channel(id).subrange(5, 41) == crate::ids::hyphenated(id),
        user_channel(id).skip(41) == ":events"@,
{
    reveal_strlit("user:");
    reveal_strlit(":events");
    assert(user_channel(id).take(5) =~= "user:"@);
    assert(user_channel(id).subrange(5, 41) =~= crate::ids::hyphenated(id));
    assert(user_channel(id).skip(41) =~= ":events"@);
}

/// Every user is announced in the same way, under a key that ends with the whole text of the user,
/// and retracted under that key.
pub proof fn everyone_is_announced_alike(a: Uuid, b: Uuid)
    ensures
        presence_key(a).len() == 45,
        presence_key(a).take(9) == "presence:"@,
        presence_key(a).skip(9) == crate::ids::hyphenated(a),
        announcement(a) is SetEx,
        announcement(a)->SetEx_key == presence_key(a),
        announcement(a)->value == announcement(b)->value,
        announcement(a)->seconds == announcement(b)->seconds,
        announcement(a)->seconds == 65,
        retraction(a) == (StoreCommandView::Del { key: presence_key(a) }),
{
    reveal_strlit("presence:");
    assert(presence_key(a).take(9) =~= "presence:"@);
    assert(presence_key(a).skip(9) =~= crate::ids::hyphenated(a));
}

} // verus!
