//! The conversation between an operation and its collaborators: the commands
//! an operation may issue, the replies it may get, and the steps it takes.
//! Also a mathematical model of a store that answers every command
//! faithfully, against which the guarantees of the operations are stated.

use crate::date::EventDate;
use crate::error::ErrorKind;
use vstd::prelude::*;

verus! {

/// What an operation asks of the persistence collaborator or, for
/// `RenewSession`, of the session store.
#[derive(Clone, Debug, PartialEq, Eq)]
pub enum Command {
    /// Count the accounts that have this name.
    CountAccountsNamed { name: String },
    /// Count the accounts, other than `except`, that have this name.
    CountOtherAccountsNamed { name: String, except: i32 },
    /// Find the account with exactly this name and password.
    FindAccount { name: String, password: String },
    /// Insert an account and return its new identifier.
    InsertAccount { name: String, password: String },
    /// Replace name and password of an account together.
    UpdateAccount { id: i32, name: String, password: String },
    /// Delete an account. Its events are left as they are.
    DeleteAccount { id: i32 },
    /// Insert an event and return its new identifier.
    InsertEvent { owner_id: i32, note: String, event_date: EventDate },
    /// Read the owner of an event.
    FindEventOwner { id: i32 },
    /// Replace note and date of an event together.
    UpdateEvent { id: i32, note: String, event_date: EventDate },
    /// Delete an event.
    DeleteEvent { id: i32 },
    /// Replace the session identifier by a fresh one, carry the attributes
    /// over, and record `user_id` as the session's identity.
    RenewSession { user_id: i32 },
}

/// What a collaborator answered to a command.
#[derive(Clone, Copy, Debug, PartialEq, Eq, Structural)]
pub enum Reply {
    /// The collaborator failed; the cause stays with it.
    Failed,
    /// The number of rows counted.
    Count(u64),
    /// The integer of the one row found, inserted or updated.
    Row(i32),
    /// No row matched.
    NoRow,
    /// The command was carried out and returns nothing.
    Done,
}

/// The public view of an account: the password is never part of it.
#[derive(Clone, Debug, PartialEq, Eq)]
pub struct User {
    pub id: i32,
    pub name: String,
}

/// The identifier of an event.
#[derive(Clone, Copy, Debug, PartialEq, Eq, Structural)]
pub struct IdRow {
    pub id: i32,
}

/// How an operation ended.
#[derive(Clone, Debug, PartialEq, Eq)]
pub enum Outcome {
    /// The account as it now stands.
    Account(User),
    /// The event created or updated.
    Event(IdRow),
    /// The row is gone.
    Deleted,
    /// The session now belongs to this account.
    LoggedIn(i32),
    /// The operation was refused or failed.
    Rejected(ErrorKind),
}

/// What an operation does next.
#[derive(Clone, Debug, PartialEq, Eq)]
pub enum Step {
    /// Send the command and come back with the reply added to the replies.
    Ask(Command),
    /// The operation is over.
    Finish(Outcome),
}

/// A stored account.
pub ghost struct AccountRow {
    pub name: Seq<char>,
    pub password: Seq<char>,
}

/// A stored event.
pub ghost struct EventRow {
    pub owner_id: i32,
    pub note: Seq<char>,
    pub event_date: EventDate,
}

/// What a store holds: accounts and events, each under its identifier.
pub ghost struct Db {
    pub accounts: Map<i32, AccountRow>,
    pub events: Map<i32, EventRow>,
}

impl Db {
    /// No two accounts share a name.
    pub open spec fn wf(self) -> bool {
        forall|a: i32, b: i32|
            self.accounts.contains_key(a) && self.accounts.contains_key(b)
                && self.accounts[a].name == self.accounts[b].name ==> a == b
    }

    /// Some account other than `except` has this name.
    pub open spec fn name_taken(self, name: Seq<char>, except: Option<i32>) -> bool {
        exists|id: i32|
            #[trigger] self.accounts.contains_key(id) && self.accounts[id].name == name && Some(id)
                != except
    }

    /// The account `id` has exactly this name and password.
    pub open spec fn matches(self, id: i32, name: Seq<char>, password: Seq<char>) -> bool {
        self.accounts.contains_key(id) && self.accounts[id].name == name
            && self.accounts[id].password == password
    }

    /// Every identifier is taken by an account.
    pub open spec fn full_of_accounts(self) -> bool {
        forall|id: i32| self.accounts.contains_key(id)
    }

    /// Every identifier is taken by an event.
    pub open spec fn full_of_events(self) -> bool {
        forall|id: i32| self.events.contains_key(id)
    }

    /// The identifier that the next account gets.
    pub open spec fn next_account_id(self) -> i32 {
        choose|id: i32| !self.accounts.contains_key(id)
    }

    /// The identifier that the next event gets.
    pub open spec fn next_event_id(self) -> i32 {
        choose|id: i32| !self.events.contains_key(id)
    }

    /// What a store in this state answers when it carries the command out.
    /// Names are unique, so a count of accounts by name is 0 or 1. An insert
    /// or update that would give two accounts one name fails, and so does an
    /// insert when no identifier is left.
    pub open spec fn answer(self, command: Command) -> Reply {
        match command {
            Command::CountAccountsNamed { name } => Reply::Count(
                if self.name_taken(name@, None) {
                    1
                } else {
                    0
                },
            ),
            Command::CountOtherAccountsNamed { name, except } => Reply::Count(
                if self.name_taken(name@, Some(except)) {
                    1
                } else {
                    0
                },
            ),
            Command::FindAccount { name, password } => {
                if exists|id: i32| self.matches(id, name@, password@) {
                    Reply::Row(choose|id: i32| self.matches(id, name@, password@))
                } else {
                    Reply::NoRow
                }
            },
            Command::InsertAccount { name, password } => {
                if self.name_taken(name@, None) || self.full_of_accounts() {
                    Reply::Failed
                } else {
                    Reply::Row(self.next_account_id())
                }
            },
            Command::UpdateAccount { id, name, password } => {
                if !self.accounts.contains_key(id) {
                    Reply::NoRow
                } else if self.name_taken(name@, Some(id)) {
                    Reply::Failed
                } else {
                    Reply::Row(id)
                }
            },
            Command::DeleteAccount { id } => Reply::Done,
            Command::InsertEvent { owner_id, note, event_date } => {
                if self.full_of_events() {
                    Reply::Failed
                } else {
                    Reply::Row(self.next_event_id())
                }
            },
            Command::FindEventOwner { id } => {
                if self.events.contains_key(id) {
                    Reply::Row(self.events[id].owner_id)
                } else {
                    Reply::NoRow
                }
            },
            Command::UpdateEvent { id, note, event_date } => {
                if self.events.contains_key(id) {
                    Reply::Row(id)
                } else {
                    Reply::NoRow
                }
            },
            Command::DeleteEvent { id } => Reply::Done,
            Command::RenewSession { user_id } => Reply::Done,
        }
    }

    /// What the store holds after it has answered the command.
    pub open spec fn apply(self, command: Command) -> Db {
        match command {
            Command::InsertAccount { name, password } => {
                if self.answer(command) is Row {
                    Db {
                        accounts: self.accounts.insert(
                            self.next_account_id(),
                            AccountRow { name: name@, password: password@ },
                        ),
                        ..self
                    }
                } else {
                    self
                }
            },
            Command::UpdateAccount { id, name, password } => {
                if self.answer(command) is Row {
                    Db {
                        accounts: self.accounts.insert(
                            id,
                            AccountRow { name: name@, password: password@ },
                        ),
                        ..self
                    }
                } else {
                    self
                }
            },
            Command::DeleteAccount { id } => Db { accounts: self.accounts.remove(id), ..self },
            Command::InsertEvent { owner_id, note, event_date } => {
                if self.answer(command) is Row {
                    Db {
                        events: self.events.insert(
                            self.next_event_id(),
                            EventRow { owner_id, note: note@, event_date },
                        ),
                        ..self
                    }
                } else {
                    self
                }
            },
            Command::UpdateEvent { id, note, event_date } => {
                if self.events.contains_key(id) {
                    Db {
                        events: self.events.insert(
                            id,
                            EventRow {
                                owner_id: self.events[id].owner_id,
                                note: note@,
                                event_date,
                            },
                        ),
                        ..self
                    }
                } else {
                    self
                }
            },
            Command::DeleteEvent { id } => Db { events: self.events.remove(id), ..self },
            _ => self,
        }
    }
}

/// Where an operation ends, and what the store then holds, when the store
/// answers each command as `Db::answer` says. `plan` is the operation: the
/// step it takes after the replies so far. `budget` bounds the commands.
pub open spec fn carry_out(
    db: Db,
    plan: spec_fn(Seq<Reply>) -> Step,
    replies: Seq<Reply>,
    budget: nat,
) -> (Db, Outcome)
    decreases budget,
{
    match plan(replies) {
        Step::Finish(outcome) => (db, outcome),
        Step::Ask(command) => {
            if budget == 0 {
                (db, Outcome::Rejected(ErrorKind::InternalError))
            } else {
                carry_out(
                    db.apply(command),
                    plan,
                    replies.push(db.answer(command)),
                    (budget - 1) as nat,
                )
            }
        },
    }
}

/// Applying a command keeps the names of a well-formed store unique.
pub proof fn apply_preserves_wf(db: Db, command: Command)
    requires
        db.wf(),
    ensures
        db.apply(command).wf(),
{
    let after = db.apply(command);
    assert forall|a: i32, b: i32|
        after.accounts.contains_key(a) && after.accounts.contains_key(b)
            && after.accounts[a].name == after.accounts[b].name implies a == b by {
        match command {
            Command::InsertAccount { name, password } => {
                if db.answer(command) is Row {
                    let fresh = db.next_account_id();
                    if a != b {
                        if a == fresh {
                            assert(db.accounts.contains_key(b));
                            assert(db.name_taken(name@, None));
                        } else if b == fresh {
                            assert(db.accounts.contains_key(a));
                            assert(db.name_taken(name@, None));
                        }
                    }
                }
            },
            Command::UpdateAccount { id, name, password } => {
                if db.answer(command) is Row {
                    if a != b {
                        if a == id {
                            assert(db.accounts.contains_key(b));
                            assert(db.name_taken(name@, Some(id)));
                        } else if b == id {
                            assert(db.accounts.contains_key(a));
                            assert(db.name_taken(name@, Some(id)));
                        }
                    }
                }
            },
            _ => {},
        }
    }
}

/// No command gives an event another owner: an event that is there before
/// and after a command belongs to the same account.
pub proof fn apply_keeps_owner(db: Db, command: Command, id: i32)
    requires
        db.events.contains_key(id),
        db.apply(command).events.contains_key(id),
    ensures
        db.apply(command).events[id].owner_id == db.events[id].owner_id,
{
    if let Command::InsertEvent { owner_id, note, event_date } = command {
        if !db.full_of_events() {
            assert(!db.events.contains_key(db.next_event_id()));
        }
    }
}

} // verus!
