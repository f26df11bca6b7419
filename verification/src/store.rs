//! Commands for the key-value store, as data.

use vstd::prelude::*;

verus! {

/// One command for the key-value store.
#[derive(Debug, PartialEq, Eq)]
pub enum StoreCommand {
    /// Sets a key that the store drops after some seconds.
    SetEx { key: String, value: String, seconds: u64 },
    /// Reads a key.
    Get { key: String },
    /// Drops a key.
    Del { key: String },
    /// Takes a member out of a set.
    SetRemove { set: String, member: String },
    /// Puts a member into a set.
    SetAdd { set: String, member: String },
}

/// What a [`StoreCommand`] says.
pub enum StoreCommandView {
    SetEx { key: Seq<char>, value: Seq<char>, seconds: u64 },
    Get { key: Seq<char> },
    Del { key: Seq<char> },
    SetRemove { set: Seq<char>, member: Seq<char> },
    SetAdd { set: Seq<char>, member: Seq<char> },
}

impl View for StoreCommand {
    type V = StoreCommandView;

    open spec fn view(&self) -> StoreCommandView {
        match self {
            StoreCommand::SetEx { key, value, seconds } => StoreCommandView::SetEx {
                key: key@,
                value: value@,
                seconds: *seconds,
            },
            StoreCommand::Get { key } => StoreCommandView::Get { key: key@ },
            StoreCommand::Del { key } => StoreCommandView::Del { key: key@ },
            StoreCommand::SetRemove { set, member } => StoreCommandView::SetRemove {
                set: set@,
                member: member@,
            },
            StoreCommand::SetAdd { set, member } => StoreCommandView::SetAdd {
                set: set@,
                member: member@,
            },
        }
    }
}

/// A script for the store to run in one piece, with its keys and arguments.
#[derive(Debug, PartialEq, Eq)]
pub struct ScriptCall {
    pub script: String,
    pub keys: Vec<String>,
    pub args: Vec<String>,
}

/// What a [`ScriptCall`] says.
pub struct ScriptCallView {
    pub script: Seq<char>,
    pub keys: Seq<Seq<char>>,
    pub args: Seq<Seq<char>>,
}

impl View for ScriptCall {
    type V = ScriptCallView;

    open spec fn view(&self) -> ScriptCallView {
        ScriptCallView {
            script: self.script@,
            keys: self.keys@.map_values(|k: String| k@),
            args: self.args@.map_values(|a: String| a@),
        }
    }
}

/// The keys and values of a store after a command, leaving expiry aside.
pub open spec fn keys_after(
    keys: Map<Seq<char>, Seq<char>>,
    command: StoreCommandView,
) -> Map<Seq<char>, Seq<char>> {
    match command {
        StoreCommandView::SetEx { key, value, seconds } => keys.insert(key, value),
        StoreCommandView::Del { key } => keys.remove(key),
        _ => keys,
    }
}

/// The members of one set of a store after a command.
pub open spec fn members_after(
    name: Seq<char>,
    members: Set<Seq<char>>,
    command: StoreCommandView,
) -> Set<Seq<char>> {
    match command {
        StoreCommandView::SetRemove { set, member } if set == name => members.remove(member),
        StoreCommandView::SetAdd { set, member } if set == name => members.insert(member),
        _ => members,
    }
}

/// A command says exactly what it was made with.
pub proof fn commands_say_what_they_were_made_with(a: String, b: String, seconds: u64)
    ensures
        (StoreCommand::SetEx { key: a, value: b, seconds })@ == (StoreCommandView::SetEx {
            key: a@,
            value: b@,
            seconds,
        }),
        (StoreCommand::Get { key: a })@ == (StoreCommandView::Get { key: a@ }),
        (StoreCommand::Del { key: a })@ == (StoreCommandView::Del { key: a@ }),
        (StoreCommand::SetRemove { set: a, member: b })@ == (StoreCommandView::SetRemove {
            set: a@,
            member: b@,
        }),
        (StoreCommand::SetAdd { set: a, member: b })@ == (StoreCommandView::SetAdd {
            set: a@,
            member: b@,
        }),
{
}

/// A script call has as many keys and arguments as it was made with, each as it was.
pub proof fn script_calls_say_what_they_were_made_with(call: ScriptCall)
    ensures
        call@.script == call.script@,
        call@.keys.len() == call.keys@.len(),
        call@.args.len() == call.args@.len(),
        forall|i: int| 0 <= i < call.keys@.len() ==> #[trigger] call@.keys[i] == call.keys@[i]@,
        forall|i: int| 0 <= i < call.args@.len() ==> #[trigger] call@.args[i] == call.args@[i]@,
{
}

/// The store gives back what was set last, until it is dropped; other keys are left alone, and
/// reading changes nothing.
pub proof fn store_gives_back_what_was_set(
    keys: Map<Seq<char>, Seq<char>>,
    key: Seq<char>,
    value: Seq<char>,
    seconds: u64,
    other: Seq<char>,
)
    ensures
        ({
            let set = keys_after(keys, StoreCommandView::SetEx { key, value, seconds });
            let dropped = keys_after(keys, StoreCommandView::Del { key });
            &&& set.contains_key(key) && set[key] == value
            &&& !dropped.contains_key(key)
            &&& other != key ==> {
                &&& set.contains_key(other) == keys.contains_key(other) && set[other]
                    == keys[other]
                &&& dropped.contains_key(other) == keys.contains_key(other) && (keys.contains_key(
                    other,
                ) ==> dropped[other] == keys[other])
            }
            &&& keys_after(keys, StoreCommandView::Get { key }) == keys
        }),
{
}

/// A set has the members that were put in and not taken out; commands for another set do not
/// touch it.
pub proof fn sets_have_the_members_that_were_put_in(
    name: Seq<char>,
    members: Set<Seq<char>>,
    set: Seq<char>,
    member: Seq<char>,
    other: Seq<char>,
)
    ensures
        ({
            let added = members_after(name, members, StoreCommandView::SetAdd { set, member });
            let removed = members_after(name, members, StoreCommandView::SetRemove { set, member });
            &&& set == name ==> added.contains(member) && !removed.contains(member)
            &&& set != name || other != member ==> added.contains(other) == members.contains(other)
                && removed.contains(other) == members.contains(other)
        }),
{
}

} // verus!
