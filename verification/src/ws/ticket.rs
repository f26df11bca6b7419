//! Tickets, which let a user open one WebSocket.

use crate::auth::{AuthenticatedUser, Response, ResponseView};
use crate::error::{domain_error, DomainError, DomainErrorView, ErrorKind};
use crate::ids::Uuid;
use crate::json::{member, object, text, JsonView};
use crate::store::{keys_after, StoreCommand, StoreCommandView};
use crate::text::join2;
use crate::ws::connections::{
    connections_of, pruned, still_open, too_many, Connections, MAX_CONNECTIONS,
};
use vstd::prelude::*;

verus! {

/// For how many seconds a ticket can be redeemed.
pub const TICKET_TTL: u64 = 30;

/// A ticket for a user: the command that stores it, and the answer that hands it out.
pub struct TicketGrant {
    pub store: StoreCommand,
    pub response: Response,
}

/// What the store says of a ticket.
pub enum TicketLookup {
    /// The store could not be asked.
    Failed,
    /// There is no such ticket.
    Missing,
    /// The ticket stands for the user with this identifier.
    Found(String),
}

/// What redeeming a ticket leads to: the command, if there is one, that makes it useless, and the
/// user whom it stands for.
pub struct Redemption {
    pub delete: Option<StoreCommand>,
    pub user: Result<Uuid, DomainError>,
}

/// The key of a ticket.
pub open spec fn ticket_key(ticket: Seq<char>) -> Seq<char> {
    "ws:ticket:"@ + ticket
}

/// The command that stores a ticket.
pub open spec fn ticket_store(ticket: Uuid, user_id: Uuid) -> StoreCommandView {
    StoreCommandView::SetEx {
        key: ticket_key(crate::ids::hyphenated(ticket)),
        value: crate::ids::hyphenated(user_id),
        seconds: TICKET_TTL,
    }
}

/// The answer that hands a ticket out.
pub open spec fn ticket_response(ticket: Uuid) -> ResponseView {
    ResponseView {
        status: 201,
        body: JsonView::Object(
            seq![("ticket"@, JsonView::Text(crate::ids::hyphenated(ticket)))],
        ),
    }
}

/// The error that hides why the store could not be reached.
pub open spec fn store_failure() -> DomainErrorView {
    domain_error(ErrorKind::Internal, "Database connection error"@)
}

/// The user whom a ticket names, or the error for one that names none.
pub open spec fn named_user(user: Option<Uuid>) -> Result<Uuid, DomainErrorView> {
    match user {
        Some(user) => Ok(user),
        None => Err(domain_error(ErrorKind::Unauthorized, "Invalid ticket user identity"@)),
    }
}

/// The user whom a ticket stands for, or the error that answers the request.
pub open spec fn ticket_user(lookup: TicketLookup) -> Result<Uuid, DomainErrorView> {
    match lookup {
        TicketLookup::Failed => Err(store_failure()),
        TicketLookup::Missing => Err(
            domain_error(ErrorKind::Unauthorized, "Invalid or expired WebSocket ticket"@),
        ),
        TicketLookup::Found(user_text) => named_user(crate::ids::uuid_named(user_text@)),
    }
}

/// The user for whom a request opens a socket, or the error that answers it.
pub open spec fn socket_for(
    lookup: TicketLookup,
    connections: Map<Uuid, Seq<u64>>,
    closed: Seq<u64>,
) -> Result<Uuid, DomainErrorView> {
    match ticket_user(lookup) {
        Ok(user) => if still_open(connections_of(connections, user), closed).len()
            < MAX_CONNECTIONS {
            Ok(user)
        } else {
            Err(too_many())
        },
        Err(e) => Err(e),
    }
}

/// Makes out a ticket for a user.
pub fn issue_ticket(ticket: Uuid, user_id: Uuid) -> (grant: TicketGrant)
    ensures
        grant.store@ == ticket_store(ticket, user_id),
        grant.response@ == ticket_response(ticket),
{
    let name = ticket.text();
    let body = object(vec![member("ticket", text(name.as_str()))]);
    assert(body@->Object_0 =~= ticket_response(ticket).body->Object_0);
    TicketGrant {
        store: StoreCommand::SetEx {
            key: join2("ws:ticket:", name.as_str()),
            value: user_id.text(),
            seconds: TICKET_TTL,
        },
        response: Response { status: 201, body },
    }
}

/// Makes out a fresh ticket for the user of a request.
pub fn create_ws_ticket(auth_user: &AuthenticatedUser) -> (grant: TicketGrant)
    ensures
        exists|ticket: Uuid| #[trigger]
            crate::ids::is_random_uuid(ticket) && grant.store@ == ticket_store(
                ticket,
                auth_user.user_id,
            ) && grant.response@ == ticket_response(ticket),
{
    let ticket = Uuid::new_v4();
    issue_ticket(ticket, auth_user.user_id)
}

/// Answers the request for a ticket once it was tried to store it.
pub fn ticket_stored(grant: TicketGrant, stored: bool) -> (r: Result<Response, DomainError>)
    ensures
        stored ==> r == Ok::<Response, DomainError>(grant.response),
        !stored ==> r is Err && r->Err_0@ == store_failure(),
{
    if stored {
        Ok(grant.response)
    } else {
        Err(DomainError::Internal("Database connection error".to_owned()))
    }
}

/// Begins with a request to open a WebSocket: looks its ticket up.
pub fn ws_handler(ticket: &str) -> (lookup: StoreCommand)
    ensures
        lookup@ == (StoreCommandView::Get { key: ticket_key(ticket@) }),
{
    StoreCommand::Get { key: join2("ws:ticket:", ticket) }
}

/// Takes the user whom a ticket names.
pub fn ticket_user_read(user: Option<Uuid>) -> (r: Result<Uuid, DomainError>)
    ensures
        match named_user(user) {
            Ok(id) => r == Ok::<Uuid, DomainError>(id),
            Err(e) => r is Err && r->Err_0@ == e,
        },
{
    match user {
        Some(id) => Ok(id),
        None => Err(DomainError::Unauthorized("Invalid ticket user identity".to_owned())),
    }
}

/// Goes on with what the store says of the ticket. A ticket that is found is deleted, whomever it
/// names, so that it works once.
pub fn ticket_looked_up(ticket: &str, lookup: TicketLookup) -> (r: Redemption)
    ensures
        match ticket_user(lookup) {
            Ok(user) => r.user == Ok::<Uuid, DomainError>(user),
            Err(e) => r.user is Err && r.user->Err_0@ == e,
        },
        lookup is Found ==> r.delete is Some && r.delete->0@ == (StoreCommandView::Del {
            key: ticket_key(ticket@),
        }),
        lookup !is Found ==> r.delete is None,
        forall|user: Uuid|
            lookup is Found && lookup->Found_0@ == #[trigger] crate::ids::hyphenated(user)
                ==> r.user == Ok::<Uuid, DomainError>(user),
{
    match lookup {
        TicketLookup::Failed => Redemption {
            delete: None,
            user: Err(DomainError::Internal("Database connection error".to_owned())),
        },
        TicketLookup::Missing => Redemption {
            delete: None,
            user: Err(
                DomainError::Unauthorized("Invalid or expired WebSocket ticket".to_owned()),
            ),
        },
        TicketLookup::Found(user_text) => {
            let user = Uuid::parse_str(user_text.as_str());
            Redemption {
                delete: Some(StoreCommand::Del { key: join2("ws:ticket:", ticket) }),
                user: ticket_user_read(user),
            }
        },
    }
}

/// Goes on with the user of the ticket: the socket may open if there is one who holds few enough
/// connections. Numbers of connections that have closed are forgotten first.
pub fn user_identified(
    connections: &mut Connections,
    user: Result<Uuid, DomainError>,
    closed: &Vec<u64>,
) -> (r: Result<Uuid, DomainError>)
    ensures
        match user {
            Err(e) => final(connections)@ == old(connections)@ && r == Err::<Uuid, DomainError>(e),
            Ok(id) => {
                let open = still_open(connections_of(old(connections)@, id), closed@);
                &&& final(connections)@ == pruned(old(connections)@, id, closed@)
                &&& open.len() < MAX_CONNECTIONS ==> r == Ok::<Uuid, DomainError>(id)
                &&& open.len() >= MAX_CONNECTIONS ==> r is Err && r->Err_0@ == too_many()
            },
        },
{
    match user {
        Err(e) => Err(e),
        Ok(id) => match connections.may_connect(id, closed) {
            Ok(()) => Ok(id),
            Err(e) => Err(e),
        },
    }
}

/// A request opens a socket exactly if its ticket was found, names a user, and that user holds
/// fewer connections than the maximum; and only for that user. Whatever is wrong with the ticket
/// is answered before connections are counted.
pub proof fn socket_opens_exactly_for_a_good_ticket(
    lookup: TicketLookup,
    connections: Map<Uuid, Seq<u64>>,
    closed: Seq<u64>,
    user: Uuid,
)
    ensures
        socket_for(lookup, connections, closed) == Ok::<Uuid, DomainErrorView>(user) <==> {
            &&& lookup is Found
            &&& crate::ids::uuid_named(lookup->Found_0@) == Some(user)
            &&& still_open(connections_of(connections, user), closed).len() < MAX_CONNECTIONS
        },
        ticket_user(lookup) is Err ==> socket_for(lookup, connections, closed) == ticket_user(
            lookup,
        ),
        ticket_user(lookup) is Ok && socket_for(lookup, connections, closed) is Err ==> socket_for(
            lookup,
            connections,
            closed,
        )->Err_0 == too_many(),
{
}

/// A ticket works once: it is stored under the key that redeeming it reads, with the text of the
/// user it was made out for, and the deletion that follows takes it away.
pub proof fn ticket_works_once(keys: Map<Seq<char>, Seq<char>>, ticket: Uuid, user_id: Uuid)
    ensures
        ({
            let key = ticket_key(crate::ids::hyphenated(ticket));
            let issued = keys_after(keys, ticket_store(ticket, user_id));
            let redeemed = keys_after(issued, StoreCommandView::Del { key });
            &&& issued.contains_key(key) && issued[key] == crate::ids::hyphenated(user_id)
            &&& !redeemed.contains_key(key)
        }),
{
}

/// Tickets do not get in each other's way: storing one leaves all others as they are.
pub proof fn tickets_are_independent(
    keys: Map<Seq<char>, Seq<char>>,
    ticket: Uuid,
    user_id: Uuid,
    other: Uuid,
)
    requires
        ticket != other,
    ensures
        ({
            let key = ticket_key(crate::ids::hyphenated(other));
            let issued = keys_after(keys, ticket_store(ticket, user_id));
            &&& issued.contains_key(key) == keys.contains_key(key)
            &&& issued[key] == keys[key]
        }),
{
    let a = crate::ids::hyphenated(ticket);
    let b = crate::ids::hyphenated(other);
    if ticket_key(a) == ticket_key(b) {
        let n = "ws:ticket:"@.len() as int;
        assert(ticket_key(a).skip(n) =~= a);
        assert(ticket_key(b).skip(n) =~= b);
        crate::ids::hyphenated_injective(ticket, other);
    }
}

/// The whole ticket stands at the end of its key, behind what is the same for all tickets, so that
/// different tickets have different keys.
pub proof fn ticket_keys_end_with_the_ticket(a: Seq<char>, b: Seq<char>)
    ensures
        ticket_key(a) == ticket_key(b) ==> a == b,
        ticket_key(a + b) == ticket_key(a) + b,
        ticket_key(a) == "ws:ticket:"@ + a,
{
    assert(ticket_key(a + b) =~= ticket_key(a) + b);
    let n = "ws:ticket:"@.len() as int;
    assert(ticket_key(a).skip(n) =~= a);
    assert(ticket_key(b).skip(n) =~= b);
}

/// The answer hands out the very ticket that is stored, in one member of its body, and the store
/// keeps it for the user it was made out for, for as long as any other ticket.
pub proof fn the_stored_ticket_is_handed_out(ticket: Uuid, user_id: Uuid, other: Uuid)
    ensures
        ({
            let response = ticket_response(ticket);
            let store = ticket_store(ticket, user_id);
            let handed_out = response.body->Object_0[0].1->Text_0;
            &&& response.status == 201
            &&& response.body is Object && response.body->Object_0.len() == 1
            &&& response.body->Object_0[0].0 == "ticket"@
            &&& response.body->Object_0[0].1 is Text
            &&& handed_out == crate::ids::hyphenated(ticket)
            &&& store is SetEx
            &&& store->SetEx_key == ticket_key(handed_out)
            &&& store->value == crate::ids::hyphenated(user_id)
            &&& store->seconds == ticket_store(other, user_id)->seconds
            &&& store->seconds == 30
        }),
{
}

/// A ticket stands for the user whom it names, and all that name none are refused alike.
pub proof fn tickets_stand_for_whom_they_name(user: Uuid, user_text: String)
    ensures
        named_user(Some(user)) == Ok::<Uuid, DomainErrorView>(user),
        named_user(None) == Err::<Uuid, DomainErrorView>(
            domain_error(ErrorKind::Unauthorized, "Invalid ticket user identity"@),
        ),
        ticket_user(TicketLookup::Found(user_text)) == named_user(
            crate::ids::uuid_named(user_text@),
        ),
        ticket_user(TicketLookup::Missing) is Err,
        ticket_user(TicketLookup::Failed) is Err,
        ticket_user(TicketLookup::Missing)->Err_0.kind == ErrorKind::Unauthorized,
        ticket_user(TicketLookup::Failed)->Err_0.kind == ErrorKind::Internal,
{
}

} // verus!
