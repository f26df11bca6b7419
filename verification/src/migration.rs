//! The move from plain to keyed phone hashes.

use crate::hash::hash_phone;
use crate::ids::Uuid;
use crate::store::{members_after, StoreCommand, StoreCommandView};
use vstd::prelude::*;
use vstd::utf8::encode_utf8;

verus! {

/// A user whose phone hash is a plain one.
pub struct UserRow {
    pub id: Uuid,
    pub phone: String,
    pub phone_hash: Option<String>,
}

/// The change of one user's phone hash.
#[derive(Debug, PartialEq, Eq)]
pub struct Rehash {
    pub id: Uuid,
    pub old_hash: String,
    pub new_hash: String,
}

/// What a [`Rehash`] says.
pub struct RehashView {
    pub id: Uuid,
    pub old_hash: Seq<char>,
    pub new_hash: Seq<char>,
}

impl View for Rehash {
    type V = RehashView;

    open spec fn view(&self) -> RehashView {
        RehashView { id: self.id, old_hash: self.old_hash@, new_hash: self.new_hash@ }
    }
}

/// What the migration does next.
#[derive(Debug, PartialEq, Eq)]
pub enum MigrationAction {
    /// Write the new hash of a user to the database, and tell whether that succeeded.
    Update { id: Uuid, new_hash: String },
    /// Try to replace the hash in the store, in this order and whatever comes of it, and go on
    /// with the change at `next`.
    Replace { remove: StoreCommand, insert: StoreCommand, next: usize },
    /// Every change is made.
    Complete,
    /// The database failed: no further change is made.
    Stop,
}

/// What a [`MigrationAction`] says.
pub enum MigrationActionView {
    Update { id: Uuid, new_hash: Seq<char> },
    Replace { remove: StoreCommandView, insert: StoreCommandView, next: int },
    Complete,
    Stop,
}

impl View for MigrationAction {
    type V = MigrationActionView;

    open spec fn view(&self) -> MigrationActionView {
        match self {
            MigrationAction::Update { id, new_hash } => MigrationActionView::Update {
                id: *id,
                new_hash: new_hash@,
            },
            MigrationAction::Replace { remove, insert, next } => MigrationActionView::Replace {
                remove: remove@,
                insert: insert@,
                next: *next as int,
            },
            MigrationAction::Complete => MigrationActionView::Complete,
            MigrationAction::Stop => MigrationActionView::Stop,
        }
    }
}

/// The set in which the store keeps all phone hashes.
pub const PHONE_HASHES: &'static str = "phone_hashes";

/// Whether the phone hash of a user is the plain one.
pub open spec fn is_legacy(row: UserRow) -> bool {
    row.phone_hash is Some && row.phone_hash->0@ == crate::hash::legacy_phone_hash(row.phone@)
}

/// Whether a user is as another one, but for a phone hash that a change has replaced.
pub open spec fn is_migrated(before: UserRow, after: UserRow, change: RehashView) -> bool {
    &&& after.id == before.id
    &&& after.phone@ == before.phone@
    &&& after.phone_hash is Some
    &&& after.phone_hash->0@ == change.new_hash
}

/// The change of a user's phone hash under the secret of the server.
pub open spec fn rehash_of(row: UserRow, secret: Seq<char>) -> RehashView {
    RehashView {
        id: row.id,
        old_hash: match row.phone_hash {
            Some(old) => old@,
            None => Seq::empty(),
        },
        new_hash: crate::hash::phone_hash(row.phone@, encode_utf8(secret)),
    }
}

/// The changes as views.
pub open spec fn rehashes_view(changes: Seq<Rehash>) -> Seq<RehashView> {
    changes.map_values(|c: Rehash| c@)
}

/// The change of every row's phone hash, in the order of the rows.
pub fn rehash_phone_numbers(rows: Vec<UserRow>, secret: &str) -> (changes: Vec<Rehash>)
    ensures
        rehashes_view(changes@) == rows@.map_values(|row: UserRow| rehash_of(row, secret@)),
        changes@.len() == rows@.len(),
        forall|i: int| 0 <= i < rows@.len() ==> (#[trigger] changes@[i]).id == rows@[i].id,
{
    let secret_bytes = secret.as_bytes();
    let mut changes: Vec<Rehash> = Vec::new();
    let ghost expected = rows@.map_values(|row: UserRow| rehash_of(row, secret@));
    for row in it: rows
        invariant
            it.seq() == rows@,
            secret_bytes@ == encode_utf8(secret@),
            expected == rows@.map_values(|row: UserRow| rehash_of(row, secret@)),
            rehashes_view(changes@) == expected.take(it.index() as int),
    {
        let ghost before = changes@;
        let ghost change = rehash_of(row, secret@);
        let old_hash: String = match row.phone_hash {
            Some(old) => old,
            None => String::new(),
        };
        let new_hash = hash_phone(row.phone.as_str(), secret_bytes);
        changes.push(Rehash { id: row.id, old_hash, new_hash });
        assert(rehashes_view(changes@) =~= rehashes_view(before).push(change));
        assert(expected.take(it.index() as int + 1) =~= expected.take(it.index() as int).push(
            change,
        ));
    }
    assert(expected.take(expected.len() as int) =~= expected);
    proof {
        let seen = rehashes_view(changes@);
        assert forall|i: int| 0 <= i < rows@.len() implies (#[trigger] changes@[i]).id
            == rows@[i].id by {
            assert(seen[i] == changes@[i]@);
            assert(expected[i] == rehash_of(rows@[i], secret@));
        }
    }
    changes
}

impl Rehash {
    /// The commands that replace the old hash in the store by the new one, in this order.
    pub fn commands(&self) -> (r: (StoreCommand, StoreCommand))
        ensures
            r.0@ == (StoreCommandView::SetRemove {
                set: PHONE_HASHES@,
                member: self.old_hash@,
            }),
            r.1@ == (StoreCommandView::SetAdd { set: PHONE_HASHES@, member: self.new_hash@ }),
    {
        (
            StoreCommand::SetRemove {
                set: PHONE_HASHES.to_owned(),
                member: self.old_hash.clone(),
            },
            StoreCommand::SetAdd { set: PHONE_HASHES.to_owned(), member: self.new_hash.clone() },
        )
    }
}

/// Whether a secret is configured.
pub open spec fn is_configured(secret: Seq<char>) -> bool {
    secret.len() > 0
}

/// Whether phone hashes are migrated at all: only where a secret is configured.
pub fn migration_due(secret: &str) -> (due: bool)
    ensures
        due == is_configured(secret@),
        due == (secret@.len() > 0),
{
    secret.unicode_len() > 0
}

/// What the migration does next, before and after the database was told of the change at `next`.
pub open spec fn action_at(
    changes: Seq<RehashView>,
    next: int,
    updated: Option<bool>,
) -> MigrationActionView {
    if next >= changes.len() {
        MigrationActionView::Complete
    } else {
        match updated {
            None => MigrationActionView::Update {
                id: changes[next].id,
                new_hash: changes[next].new_hash,
            },
            Some(true) => MigrationActionView::Replace {
                remove: StoreCommandView::SetRemove {
                    set: PHONE_HASHES@,
                    member: changes[next].old_hash,
                },
                insert: StoreCommandView::SetAdd {
                    set: PHONE_HASHES@,
                    member: changes[next].new_hash,
                },
                next: next + 1,
            },
            Some(false) => MigrationActionView::Stop,
        }
    }
}

/// What the migration does next with the change at `next`: `updated` is `None` before the database
/// was told of it, and then whether that succeeded. The first failure ends the migration.
pub fn migration_step(
    changes: &Vec<Rehash>,
    next: usize,
    updated: Option<bool>,
) -> (action: MigrationAction)
    ensures
        action@ == action_at(rehashes_view(changes@), next as int, updated),
{
    if next >= changes.len() {
        return MigrationAction::Complete;
    }
    let change = &changes[next];
    assert(rehashes_view(changes@)[next as int] == change@);
    match updated {
        None => MigrationAction::Update { id: change.id, new_hash: change.new_hash.clone() },
        Some(true) => {
            let (remove, insert) = change.commands();
            MigrationAction::Replace { remove, insert, next: next + 1 }
        },
        Some(false) => MigrationAction::Stop,
    }
}

/// The set of phone hashes after one change.
pub open spec fn hashes_after(hashes: Set<Seq<char>>, change: RehashView) -> Set<Seq<char>> {
    members_after(
        PHONE_HASHES@,
        members_after(
            PHONE_HASHES@,
            hashes,
            StoreCommandView::SetRemove { set: PHONE_HASHES@, member: change.old_hash },
        ),
        StoreCommandView::SetAdd { set: PHONE_HASHES@, member: change.new_hash },
    )
}

/// The set of phone hashes after a row of changes.
pub open spec fn hashes_after_all(
    hashes: Set<Seq<char>>,
    changes: Seq<RehashView>,
) -> Set<Seq<char>>
    decreases changes.len(),
{
    if changes.len() == 0 {
        hashes
    } else {
        hashes_after(hashes_after_all(hashes, changes.drop_last()), changes.last())
    }
}

/// The migration leaves every user findable by the new hash, and by no old one: the new hash of
/// each change is in the set, unless it is the old hash of a later one, and the old hash is not,
/// unless it is the new hash of that change or a later one.
pub proof fn migration_replaces_hashes(
    hashes: Set<Seq<char>>,
    changes: Seq<RehashView>,
    i: int,
)
    requires
        0 <= i < changes.len(),
    ensures
        (forall|k: int| i < k < changes.len() ==> (#[trigger] changes[k]).old_hash
            != changes[i].new_hash) ==> hashes_after_all(hashes, changes).contains(
            changes[i].new_hash,
        ),
        (forall|k: int| i <= k < changes.len() ==> (#[trigger] changes[k]).new_hash
            != changes[i].old_hash) ==> !hashes_after_all(hashes, changes).contains(
            changes[i].old_hash,
        ),
    decreases changes.len(),
{
    let shorter = changes.drop_last();
    if i < shorter.len() {
        migration_replaces_hashes(hashes, shorter, i);
        assert(shorter[i] == changes[i]);
        assert(changes[changes.len() - 1] == changes.last());
        assert(forall|k: int| 0 <= k < shorter.len() ==> #[trigger] shorter[k] == changes[k]);
    } else {
        assert(changes.last() == changes[i]);
    }
}

/// A user is migrated once: afterwards the hash is no longer the plain one, unless the keyed code
/// of the phone number happens to be its plain digest. The plain hash is the one that was replaced.
pub proof fn migrated_users_are_not_legacy(before: UserRow, after: UserRow, secret: Seq<char>)
    requires
        is_legacy(before),
        is_migrated(before, after, rehash_of(before, secret)),
    ensures
        rehash_of(before, secret).old_hash == crate::hash::legacy_phone_hash(before.phone@),
        is_legacy(after) <==> crate::hash::hmac_sha256(
            encode_utf8(secret),
            encode_utf8(before.phone@),
        ) == crate::hash::sha256(encode_utf8(before.phone@)),
{
    let code = crate::hash::hmac_sha256(encode_utf8(secret), encode_utf8(before.phone@));
    let digest = crate::hash::sha256(encode_utf8(before.phone@));
    if crate::hash::hex_text(code) == crate::hash::hex_text(digest) {
        crate::hash::hex_text_injective(code, digest);
    }
}

/// Hashes that no change names stay as they are.
pub proof fn migration_leaves_other_hashes(
    hashes: Set<Seq<char>>,
    changes: Seq<RehashView>,
    other: Seq<char>,
)
    requires
        forall|k: int|
            0 <= k < changes.len() ==> (#[trigger] changes[k]).old_hash != other
                && changes[k].new_hash != other,
    ensures
        hashes_after_all(hashes, changes).contains(other) == hashes.contains(other),
    decreases changes.len(),
{
    if changes.len() > 0 {
        let shorter = changes.drop_last();
        assert(forall|k: int| 0 <= k < shorter.len() ==> #[trigger] shorter[k] == changes[k]);
        migration_leaves_other_hashes(hashes, shorter, other);
        assert(changes[changes.len() - 1] == changes.last());
    }
}

/// How a migration stands: the hash of each user in the database, the set of hashes in the store,
/// and how it ended, if it has.
pub struct MigrationState {
    pub users: Seq<Seq<char>>,
    pub hashes: Set<Seq<char>>,
    pub end: Option<MigrationActionView>,
}

/// Where a migration ends that goes on from the change at `next`: the database answers that the
/// update of the `i`-th change succeeded if `answers[i]`, and the store does what it is told.
pub open spec fn carried_out(
    changes: Seq<RehashView>,
    answers: Seq<bool>,
    next: int,
    s: MigrationState,
) -> MigrationState
    decreases changes.len() - next,
{
    match action_at(changes, next, None) {
        MigrationActionView::Update { id, new_hash } => match action_at(
            changes,
            next,
            Some(answers[next]),
        ) {
            MigrationActionView::Replace { remove, insert, next: following } => carried_out(
                changes,
                answers,
                following,
                MigrationState {
                    users: s.users.update(next, new_hash),
                    hashes: members_after(
                        PHONE_HASHES@,
                        members_after(PHONE_HASHES@, s.hashes, remove),
                        insert,
                    ),
                    end: s.end,
                },
            ),
            end => MigrationState { end: Some(end), ..s },
        },
        end => MigrationState { end: Some(end), ..s },
    }
}

/// The hashes of the users once the first `done` changes are made.
pub open spec fn users_after(
    users: Seq<Seq<char>>,
    changes: Seq<RehashView>,
    done: int,
) -> Seq<Seq<char>> {
    Seq::new(users.len(), |i: int| if 0 <= i < done { changes[i].new_hash } else { users[i] })
}

proof fn carried_out_from(
    users: Seq<Seq<char>>,
    hashes: Set<Seq<char>>,
    changes: Seq<RehashView>,
    answers: Seq<bool>,
    done: int,
    next: int,
)
    requires
        users.len() == changes.len(),
        answers.len() >= changes.len(),
        0 <= next <= done <= changes.len(),
        forall|i: int| 0 <= i < done ==> answers[i],
        done < changes.len() ==> !answers[done],
    ensures
        carried_out(
            changes,
            answers,
            next,
            MigrationState {
                users: users_after(users, changes, next),
                hashes: hashes_after_all(hashes, changes.take(next)),
                end: None,
            },
        ) == (MigrationState {
            users: users_after(users, changes, done),
            hashes: hashes_after_all(hashes, changes.take(done)),
            end: Some(
                if done < changes.len() {
                    MigrationActionView::Stop
                } else {
                    MigrationActionView::Complete
                },
            ),
        }),
    decreases done - next,
{
    if next < done {
        assert(answers[next]);
        carried_out_from(users, hashes, changes, answers, done, next + 1);
        assert(users_after(users, changes, next).update(next, changes[next].new_hash)
            =~= users_after(users, changes, next + 1));
        assert(changes.take(next + 1).drop_last() =~= changes.take(next));
        assert(changes.take(next + 1).last() == changes[next]);
    }
}

/// The first update that fails stops the migration: the changes before it are made in the
/// database and in the store, it and all later ones in neither. Where none fails, all are made.
pub proof fn migration_stops_at_the_first_failure(
    users: Seq<Seq<char>>,
    hashes: Set<Seq<char>>,
    changes: Seq<RehashView>,
    answers: Seq<bool>,
    done: int,
)
    requires
        users.len() == changes.len(),
        answers.len() >= changes.len(),
        0 <= done <= changes.len(),
        forall|i: int| 0 <= i < done ==> answers[i],
        done < changes.len() ==> !answers[done],
    ensures
        ({
            let last = carried_out(
                changes,
                answers,
                0,
                MigrationState { users, hashes, end: None },
            );
            &&& done < changes.len() ==> last.end == Some(MigrationActionView::Stop)
            &&& done == changes.len() ==> last.end == Some(MigrationActionView::Complete)
            &&& last.users.len() == users.len()
            &&& forall|i: int| 0 <= i < done ==> #[trigger] last.users[i] == changes[i].new_hash
            &&& forall|i: int| done <= i < users.len() ==> #[trigger] last.users[i] == users[i]
            &&& last.hashes == hashes_after_all(hashes, changes.take(done))
        }),
{
    carried_out_from(users, hashes, changes, answers, done, 0);
    assert(users_after(users, changes, 0) =~= users);
    assert(changes.take(0) =~= Seq::empty());
}

/// Any secret will do: only the empty one counts as none.
pub proof fn any_secret_is_configured(secret: Seq<char>, c: char)
    ensures
        is_configured(secret.push(c)),
        !is_configured(Seq::empty()),
{
}

/// A change is that of the user it was made for: the identifier and the old hash are those of the
/// row, and the new hash spells the code of the row's whole phone number under the whole secret.
pub proof fn changes_are_those_of_their_user(row: UserRow, secret: Seq<char>)
    ensures
        ({
            let change = rehash_of(row, secret);
            let code = crate::hash::hmac_sha256(encode_utf8(secret), encode_utf8(row.phone@));
            &&& change.id == row.id
            &&& row.phone_hash is Some ==> change.old_hash == row.phone_hash->0@
            &&& row.phone_hash is None ==> change.old_hash.len() == 0
            &&& change.new_hash.len() == 2 * code.len()
            &&& forall|k: int|
                0 <= k < code.len() ==> 16 * crate::hash::hex_value(change.new_hash[2 * k])
                    + crate::hash::hex_value(change.new_hash[2 * k + 1]) == #[trigger] code[k]
        }),
{
    crate::hash::phone_hash_spells_the_code(row.phone@, encode_utf8(secret));
}

/// Changes are seen as they are, each one of them, in their order.
pub proof fn changes_are_seen_as_they_are(changes: Seq<Rehash>)
    ensures
        rehashes_view(changes).len() == changes.len(),
        forall|i: int|
            0 <= i < changes.len() ==> {
                let seen = #[trigger] rehashes_view(changes)[i];
                &&& seen.id == changes[i].id
                &&& seen.old_hash == changes[i].old_hash@
                &&& seen.new_hash == changes[i].new_hash@
            },
{
}

/// Every change is made for its own user: the database is told the identifier and the new hash of
/// the change that is next; then its old hash is taken out of the store and its new one put in;
/// then it is the turn of the change right behind it. Only behind the last one the migration is
/// complete.
pub proof fn every_change_has_its_turn(changes: Seq<RehashView>, next: int)
    requires
        0 <= next,
    ensures
        next < changes.len() ==> {
            let update = action_at(changes, next, None);
            let replace = action_at(changes, next, Some(true));
            &&& update is Update
            &&& update->id == changes[next].id
            &&& update->new_hash == changes[next].new_hash
            &&& replace is Replace
            &&& replace->remove == (StoreCommandView::SetRemove {
                set: "phone_hashes"@,
                member: changes[next].old_hash,
            })
            &&& replace->insert == (StoreCommandView::SetAdd {
                set: "phone_hashes"@,
                member: changes[next].new_hash,
            })
            &&& replace->next == next + 1
            &&& action_at(changes, next, Some(false)) is Stop
        },
        action_at(changes, next, None) is Complete <==> next >= changes.len(),
{
}

/// An action says what it was made with.
pub proof fn actions_say_what_they_were_made_with(
    id: Uuid,
    new_hash: String,
    remove: StoreCommand,
    insert: StoreCommand,
    next: usize,
)
    ensures
        (MigrationAction::Update { id, new_hash })@ == (MigrationActionView::Update {
            id,
            new_hash: new_hash@,
        }),
        (MigrationAction::Replace { remove, insert, next })@ == (MigrationActionView::Replace {
            remove: remove@,
            insert: insert@,
            next: next as int,
        }),
        MigrationAction::Complete@ is Complete,
        MigrationAction::Stop@ is Stop,
{
}

} // verus!
