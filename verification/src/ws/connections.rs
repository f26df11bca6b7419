//! The open connections of each user.

use crate::error::{domain_error, DomainError, DomainErrorView, ErrorKind};
use crate::ids::Uuid;
use std::collections::HashMap;
use vstd::prelude::*;

verus! {

/// How many connections a user may hold at once.
pub const MAX_CONNECTIONS: usize = 5;

/// The connections of each user, by number, in the order in which they were opened.
pub struct Connections {
    by_user: HashMap<u128, Vec<u64>>,
}

impl View for Connections {
    type V = Map<Uuid, Seq<u64>>;

    closed spec fn view(&self) -> Map<Uuid, Seq<u64>> {
        Map::new(
            |user: Uuid| self.by_user@.contains_key(user.bits),
            |user: Uuid| self.by_user@[user.bits]@,
        )
    }
}

/// The connections that are not among the closed ones, in the same order.
pub open spec fn still_open(connections: Seq<u64>, closed: Seq<u64>) -> Seq<u64> {
    connections.filter(|c: u64| !closed.contains(c))
}

/// The connections of one user.
pub open spec fn connections_of(all: Map<Uuid, Seq<u64>>, user: Uuid) -> Seq<u64> {
    if all.contains_key(user) {
        all[user]
    } else {
        Seq::empty()
    }
}

fn contains(numbers: &Vec<u64>, number: u64) -> (found: bool)
    ensures
        found == numbers@.contains(number),
{
    let mut i: usize = 0;
    while i < numbers.len()
        invariant
            i <= numbers.len(),
            forall|k: int| 0 <= k < i ==> numbers@[k] != number,
        decreases numbers.len() - i,
    {
        if numbers[i] == number {
            assert(numbers@[i as int] == number);
            return true;
        }
        i += 1;
    }
    false
}

fn retain_open(connections: &Vec<u64>, closed: &Vec<u64>) -> (open: Vec<u64>)
    ensures
        open@ == still_open(connections@, closed@),
{
    let mut open: Vec<u64> = Vec::new();
    let mut i: usize = 0;
    let ghost keep = |c: u64| !closed@.contains(c);
    assert(connections@.take(0).filter(keep) =~= Seq::<u64>::empty()) by {
        reveal(Seq::filter);
    }
    while i < connections.len()
        invariant
            i <= connections.len(),
            keep == (|c: u64| !closed@.contains(c)),
            open@ == connections@.take(i as int).filter(keep),
        decreases connections.len() - i,
    {
        let c: u64 = connections[i];
        if !contains(closed, c) {
            open.push(c);
        }
        proof {
            let next = connections@.take(i as int + 1);
            assert(next.drop_last() =~= connections@.take(i as int));
            assert(next.last() == c);
            reveal(Seq::filter);
        }
        i += 1;
    }
    assert(connections@.take(connections@.len() as int) =~= connections@);
    open
}

/// All connections once the closed ones of a user are forgotten.
pub open spec fn pruned(
    all: Map<Uuid, Seq<u64>>,
    user: Uuid,
    closed: Seq<u64>,
) -> Map<Uuid, Seq<u64>> {
    if all.contains_key(user) {
        all.insert(user, still_open(all[user], closed))
    } else {
        all
    }
}

/// All connections once a user has one more.
pub open spec fn registered(
    all: Map<Uuid, Seq<u64>>,
    user: Uuid,
    connection: u64,
) -> Map<Uuid, Seq<u64>> {
    all.insert(user, connections_of(all, user).push(connection))
}

/// All connections once the closed ones of a user are forgotten, and the user with the last one.
pub open spec fn cleaned_up(
    all: Map<Uuid, Seq<u64>>,
    user: Uuid,
    closed: Seq<u64>,
) -> Map<Uuid, Seq<u64>> {
    if still_open(connections_of(all, user), closed).len() == 0 {
        all.remove(user)
    } else {
        pruned(all, user, closed)
    }
}

/// The error for a user who holds the maximum already.
pub open spec fn too_many() -> DomainErrorView {
    domain_error(
        ErrorKind::Conflict,
        "Too many concurrent WebSocket connections. Maximum is 5."@,
    )
}

impl Connections {
    /// No connections.
    pub fn new() -> (r: Connections)
        ensures
            r@ == Map::<Uuid, Seq<u64>>::empty(),
    {
        broadcast use vstd::std_specs::hash::group_hash_axioms;

        let r = Connections { by_user: HashMap::new() };
        assert(r@ =~= Map::<Uuid, Seq<u64>>::empty());
        r
    }

    fn get(&self, user: Uuid) -> (r: Option<&Vec<u64>>)
        ensures
            match r {
                Some(numbers) => self@.contains_key(user) && numbers@ == self@[user],
                None => !self@.contains_key(user),
            },
    {
        broadcast use vstd::std_specs::hash::group_hash_axioms;

        self.by_user.get(&user.bits)
    }

    fn set(&mut self, user: Uuid, numbers: Vec<u64>)
        ensures
            final(self)@ == old(self)@.insert(user, numbers@),
    {
        broadcast use vstd::std_specs::hash::group_hash_axioms;

        self.by_user.insert(user.bits, numbers);
        assert(self@ =~= old(self)@.insert(user, numbers@));
    }

    fn remove(&mut self, user: Uuid) -> (r: Option<Vec<u64>>)
        ensures
            final(self)@ == old(self)@.remove(user),
            match r {
                Some(numbers) => old(self)@.contains_key(user) && numbers@ == old(self)@[user],
                None => !old(self)@.contains_key(user),
            },
    {
        broadcast use vstd::std_specs::hash::group_hash_axioms;

        let r = self.by_user.remove(&user.bits);
        assert(self@ =~= old(self)@.remove(user));
        r
    }

    /// Adds a connection of a user.
    pub fn register(&mut self, user: Uuid, connection: u64)
        ensures
            final(self)@ == registered(old(self)@, user, connection),
    {
        let mut numbers: Vec<u64> = match self.remove(user) {
            Some(numbers) => numbers,
            None => Vec::new(),
        };
        numbers.push(connection);
        self.set(user, numbers);
        assert(self@ =~= registered(old(self)@, user, connection));
    }

    /// Forgets the closed connections of a user, and counts the others.
    pub fn active_connections(&mut self, user: Uuid, closed: &Vec<u64>) -> (count: usize)
        ensures
            final(self)@ == pruned(old(self)@, user, closed@),
            count == still_open(connections_of(old(self)@, user), closed@).len(),
    {
        match self.get(user) {
            None => {
                assert(still_open(Seq::empty(), closed@).len() == 0) by {
                    reveal(Seq::filter);
                }
                0
            },
            Some(numbers) => {
                let open = retain_open(numbers, closed);
                let count: usize = open.len();
                self.set(user, open);
                count
            },
        }
    }

    /// Decides whether a user may open another connection.
    pub fn may_connect(&mut self, user: Uuid, closed: &Vec<u64>) -> (r: Result<(), DomainError>)
        ensures
            final(self)@ == pruned(old(self)@, user, closed@),
            still_open(connections_of(old(self)@, user), closed@).len() < MAX_CONNECTIONS ==> r
                == Ok::<(), DomainError>(()),
            still_open(connections_of(old(self)@, user), closed@).len() >= MAX_CONNECTIONS ==> {
                r is Err && r->Err_0@ == too_many()
            },
    {
        if self.active_connections(user, closed) >= MAX_CONNECTIONS {
            Err(
                DomainError::Conflict(
                    "Too many concurrent WebSocket connections. Maximum is 5.".to_owned(),
                ),
            )
        } else {
            Ok(())
        }
    }

    /// Cleans up after a connection of a user has ended.
    pub fn clean_up(&mut self, user: Uuid, closed: &Vec<u64>)
        ensures
            final(self)@ == cleaned_up(old(self)@, user, closed@),
    {
        match self.get(user) {
            None => {
                assert(still_open(Seq::empty(), closed@).len() == 0) by {
                    reveal(Seq::filter);
                }
                assert(self@.remove(user) =~= self@);
            },
            Some(numbers) => {
                let open = retain_open(numbers, closed);
                if open.len() == 0 {
                    let _ = self.remove(user);
                } else {
                    self.set(user, open);
                }
            },
        }
    }
}

/// A user who is admitted and then registers a connection holds no more than the maximum, the
/// new one among them.
pub proof fn admitted_users_stay_within_the_maximum(
    all: Map<Uuid, Seq<u64>>,
    user: Uuid,
    closed: Seq<u64>,
    connection: u64,
)
    requires
        still_open(connections_of(all, user), closed).len() < MAX_CONNECTIONS,
    ensures
        ({
            let after = registered(pruned(all, user, closed), user, connection);
            &&& connections_of(after, user).len() <= MAX_CONNECTIONS
            &&& connections_of(after, user).last() == connection
        }),
{
    reveal(Seq::filter);
}

/// What happens to the connections of one user leaves those of all others alone.
pub proof fn users_do_not_affect_each_other(
    all: Map<Uuid, Seq<u64>>,
    user: Uuid,
    other: Uuid,
    closed: Seq<u64>,
    connection: u64,
)
    requires
        user != other,
    ensures
        connections_of(registered(all, user, connection), other) == connections_of(all, other),
        connections_of(pruned(all, user, closed), other) == connections_of(all, other),
        connections_of(cleaned_up(all, user, closed), other) == connections_of(all, other),
{
}

/// A clean-up forgets a user with no open connection, and keeps exactly the open ones of any
/// other.
pub proof fn clean_up_keeps_exactly_the_open_ones(
    all: Map<Uuid, Seq<u64>>,
    user: Uuid,
    closed: Seq<u64>,
)
    ensures
        connections_of(cleaned_up(all, user, closed), user) == still_open(
            connections_of(all, user),
            closed,
        ),
        cleaned_up(all, user, closed).contains_key(user) <==> still_open(
            connections_of(all, user),
            closed,
        ).len() > 0,
{
    reveal(Seq::filter);
    let open = still_open(connections_of(all, user), closed);
    if open.len() == 0 {
        assert(open =~= Seq::empty());
    }
}

/// A connection stays open exactly if it is not among the closed ones, however many there are, and
/// the open ones keep their order.
pub proof fn open_connections_are_those_not_closed(
    connections: Seq<u64>,
    connection: u64,
    closed: Seq<u64>,
)
    ensures
        still_open(Seq::empty(), closed) == Seq::<u64>::empty(),
        closed.contains(connection) ==> still_open(connections.push(connection), closed)
            == still_open(connections, closed),
        !closed.contains(connection) ==> still_open(connections.push(connection), closed)
            == still_open(connections, closed).push(connection),
{
    reveal(Seq::filter);
    assert(connections.push(connection).drop_last() =~= connections);
}

/// A user who registers has one connection more, the new one, behind all that there were; pruning
/// takes the closed ones away and forgets no user.
pub proof fn registering_adds_and_pruning_takes_away(
    all: Map<Uuid, Seq<u64>>,
    user: Uuid,
    connection: u64,
    closed: Seq<u64>,
    anyone: Uuid,
)
    ensures
        connections_of(registered(all, user, connection), user) == connections_of(all, user).push(
            connection,
        ),
        connections_of(pruned(all, user, closed), user) == still_open(
            connections_of(all, user),
            closed,
        ),
        pruned(all, user, closed).contains_key(anyone) == all.contains_key(anyone),
        all.contains_key(user) ==> connections_of(all, user) == all[user],
        !all.contains_key(user) ==> connections_of(all, user).len() == 0,
{
    reveal(Seq::filter);
    if !all.contains_key(user) {
        assert(still_open(Seq::empty(), closed) =~= Seq::<u64>::empty());
    }
}

} // verus!
