//! The owned resource service: creating, changing and deleting the events
//! of the caller. An event belongs to the account that created it, and only
//! that account may change or delete it.

use crate::date::{date_of, parse_event_date, EventDate};
use crate::error::ErrorKind;
use crate::session::{identify, identity, SessionRead};
use crate::store::{carry_out, Command, Db, EventRow, IdRow, Outcome, Reply, Step};
use vstd::prelude::*;

verus! {

/// A request to create an event. Its owner is the caller, whom the session
/// names.
#[derive(Clone, Debug, PartialEq, Eq)]
pub struct CreateEventBody {
    pub note: String,
    pub event_date: String,
}

/// A request to replace note and date of an event.
#[derive(Clone, Debug, PartialEq, Eq)]
pub struct PatchEventBody {
    pub id: i32,
    pub new_note: String,
    pub new_event_date: String,
}

/// A request to delete an event.
#[derive(Clone, Copy, Debug, PartialEq, Eq, Structural)]
pub struct DeleteEventBody {
    pub id: i32,
}

/// Whether the caller may touch an event, given the owner read from storage.
pub open spec fn owner_verdict(caller: i32, reply: Reply) -> Result<(), ErrorKind> {
    match reply {
        Reply::Row(owner) => if owner == caller {
            Ok(())
        } else {
            Err(ErrorKind::Forbidden)
        },
        Reply::NoRow => Err(ErrorKind::NotFound),
        _ => Err(ErrorKind::InternalError),
    }
}

/// How an operation ends whose last command inserted an event.
pub open spec fn inserted_verdict(reply: Reply) -> Outcome {
    match reply {
        Reply::Row(id) => Outcome::Event(IdRow { id }),
        _ => Outcome::Rejected(ErrorKind::InternalError),
    }
}

/// How an operation ends whose last command updated an event.
pub open spec fn updated_verdict(reply: Reply) -> Outcome {
    match reply {
        Reply::Row(id) => Outcome::Event(IdRow { id }),
        Reply::NoRow => Outcome::Rejected(ErrorKind::NotFound),
        _ => Outcome::Rejected(ErrorKind::InternalError),
    }
}

/// The step of an event creation after the given replies: identify the caller,
/// read the date, insert the event under the caller's identity.
pub open spec fn create_event_step(
    session: SessionRead,
    body: CreateEventBody,
    replies: Seq<Reply>,
) -> Step {
    match identity(session) {
        Err(e) => Step::Finish(Outcome::Rejected(e)),
        Ok(caller) => match date_of(body.event_date@) {
            None => Step::Finish(Outcome::Rejected(ErrorKind::ValidationError)),
            Some(date) => if replies.len() == 0 {
                Step::Ask(
                    Command::InsertEvent { owner_id: caller, note: body.note, event_date: date },
                )
            } else {
                Step::Finish(inserted_verdict(replies[0]))
            },
        },
    }
}

/// The step of an event change after the given replies: identify the caller, read
/// the event's owner from storage and compare it with the caller, read the
/// new date, update note and date together.
pub open spec fn patch_event_step(
    session: SessionRead,
    body: PatchEventBody,
    replies: Seq<Reply>,
) -> Step {
    match identity(session) {
        Err(e) => Step::Finish(Outcome::Rejected(e)),
        Ok(caller) => if replies.len() == 0 {
            Step::Ask(Command::FindEventOwner { id: body.id })
        } else {
            match owner_verdict(caller, replies[0]) {
                Err(e) => Step::Finish(Outcome::Rejected(e)),
                Ok(_) => match date_of(body.new_event_date@) {
                    None => Step::Finish(Outcome::Rejected(ErrorKind::ValidationError)),
                    Some(date) => if replies.len() == 1 {
                        Step::Ask(
                            Command::UpdateEvent {
                                id: body.id,
                                note: body.new_note,
                                event_date: date,
                            },
                        )
                    } else {
                        Step::Finish(updated_verdict(replies[1]))
                    },
                },
            }
        },
    }
}

/// The step of an event deletion after the given replies: identify the caller,
/// read the event's owner from storage and compare it with the caller,
/// delete the row.
pub open spec fn delete_event_step(
    session: SessionRead,
    body: DeleteEventBody,
    replies: Seq<Reply>,
) -> Step {
    match identity(session) {
        Err(e) => Step::Finish(Outcome::Rejected(e)),
        Ok(caller) => if replies.len() == 0 {
            Step::Ask(Command::FindEventOwner { id: body.id })
        } else {
            match owner_verdict(caller, replies[0]) {
                Err(e) => Step::Finish(Outcome::Rejected(e)),
                Ok(_) => if replies.len() == 1 {
                    Step::Ask(Command::DeleteEvent { id: body.id })
                } else if replies[1] == Reply::Done {
                    Step::Finish(Outcome::Deleted)
                } else {
                    Step::Finish(Outcome::Rejected(ErrorKind::InternalError))
                },
            }
        },
    }
}

/// Decides from the owner read from storage whether the caller may touch the
/// event.
pub fn check_owner(caller: i32, reply: Reply) -> (verdict: Result<(), ErrorKind>)
    ensures
        verdict == owner_verdict(caller, reply),
{
    match reply {
        Reply::Row(owner) => {
            if owner == caller {
                Ok(())
            } else {
                Err(ErrorKind::Forbidden)
            }
        },
        Reply::NoRow => Err(ErrorKind::NotFound),
        _ => Err(ErrorKind::InternalError),
    }
}

/// Creates an event of the caller: the next step after the replies received
/// so far.
pub fn create_event(session: SessionRead, body: &CreateEventBody, replies: &[Reply]) -> (step: Step)
    ensures
        step == create_event_step(session, *body, replies@),
{
    let caller: i32 = match identify(session) {
        Err(e) => {
            return Step::Finish(Outcome::Rejected(e));
        },
        Ok(id) => id,
    };
    let date: EventDate = match parse_event_date(body.event_date.as_str()) {
        Err(e) => {
            return Step::Finish(Outcome::Rejected(e));
        },
        Ok(d) => d,
    };
    if replies.len() == 0 {
        return Step::Ask(
            Command::InsertEvent { owner_id: caller, note: body.note.clone(), event_date: date },
        );
    }
    match replies[0] {
        Reply::Row(id) => Step::Finish(Outcome::Event(IdRow { id })),
        _ => Step::Finish(Outcome::Rejected(ErrorKind::InternalError)),
    }
}

/// Replaces note and date of an event of the caller: the next step after the
/// replies received so far.
pub fn patch_event(session: SessionRead, body: &PatchEventBody, replies: &[Reply]) -> (step: Step)
    ensures
        step == patch_event_step(session, *body, replies@),
{
    let caller: i32 = match identify(session) {
        Err(e) => {
            return Step::Finish(Outcome::Rejected(e));
        },
        Ok(id) => id,
    };
    if replies.len() == 0 {
        return Step::Ask(Command::FindEventOwner { id: body.id });
    }
    match check_owner(caller, replies[0]) {
        Err(e) => {
            return Step::Finish(Outcome::Rejected(e));
        },
        Ok(_) => {},
    }
    let date: EventDate = match parse_event_date(body.new_event_date.as_str()) {
        Err(e) => {
            return Step::Finish(Outcome::Rejected(e));
        },
        Ok(d) => d,
    };
    if replies.len() == 1 {
        return Step::Ask(
            Command::UpdateEvent { id: body.id, note: body.new_note.clone(), event_date: date },
        );
    }
    match replies[1] {
        Reply::Row(id) => Step::Finish(Outcome::Event(IdRow { id })),
        Reply::NoRow => Step::Finish(Outcome::Rejected(ErrorKind::NotFound)),
        _ => Step::Finish(Outcome::Rejected(ErrorKind::InternalError)),
    }
}

/// Deletes an event of the caller: the next step after the replies received
/// so far.
pub fn delete_event(session: SessionRead, body: &DeleteEventBody, replies: &[Reply]) -> (step: Step)
    ensures
        step == delete_event_step(session, *body, replies@),
{
    let caller: i32 = match identify(session) {
        Err(e) => {
            return Step::Finish(Outcome::Rejected(e));
        },
        Ok(id) => id,
    };
    if replies.len() == 0 {
        return Step::Ask(Command::FindEventOwner { id: body.id });
    }
    match check_owner(caller, replies[0]) {
        Err(e) => {
            return Step::Finish(Outcome::Rejected(e));
        },
        Ok(_) => {},
    }
    if replies.len() == 1 {
        Step::Ask(Command::DeleteEvent { id: body.id })
    } else if replies[1] == Reply::Done {
        Step::Finish(Outcome::Deleted)
    } else {
        Step::Finish(Outcome::Rejected(ErrorKind::InternalError))
    }
}

/// An event creation against a store that answers faithfully.
pub open spec fn create_event_run(
    db: Db,
    session: SessionRead,
    body: CreateEventBody,
) -> (Db, Outcome) {
    carry_out(db, |replies: Seq<Reply>| create_event_step(session, body, replies), Seq::empty(), 2)
}

/// An event change against a store that answers faithfully.
pub open spec fn patch_event_run(
    db: Db,
    session: SessionRead,
    body: PatchEventBody,
) -> (Db, Outcome) {
    carry_out(db, |replies: Seq<Reply>| patch_event_step(session, body, replies), Seq::empty(), 2)
}

/// An event deletion against a store that answers faithfully.
pub open spec fn delete_event_run(
    db: Db,
    session: SessionRead,
    body: DeleteEventBody,
) -> (Db, Outcome) {
    carry_out(db, |replies: Seq<Reply>| delete_event_step(session, body, replies), Seq::empty(), 2)
}

/// A change of an event under an identity other than its owner's ends in
/// `Forbidden`, whatever the new note and date, and the store stays as it
/// was.
pub proof fn stranger_cannot_patch(db: Db, caller: i32, body: PatchEventBody)
    requires
        db.events.contains_key(body.id),
        db.events[body.id].owner_id != caller,
    ensures
        patch_event_run(db, SessionRead::UserId(caller), body) == (
            db,
            Outcome::Rejected(ErrorKind::Forbidden),
        ),
{
    reveal_with_fuel(carry_out, 3);
    let first = Seq::<Reply>::empty().push(db.answer(Command::FindEventOwner { id: body.id }));
    assert(first.len() == 1);
    assert(first[0] == Reply::Row(db.events[body.id].owner_id));
}

/// A deletion of an event under an identity other than its owner's ends in
/// `Forbidden`, and the store stays as it was.
pub proof fn stranger_cannot_delete(db: Db, caller: i32, body: DeleteEventBody)
    requires
        db.events.contains_key(body.id),
        db.events[body.id].owner_id != caller,
    ensures
        delete_event_run(db, SessionRead::UserId(caller), body) == (
            db,
            Outcome::Rejected(ErrorKind::Forbidden),
        ),
{
    reveal_with_fuel(carry_out, 3);
    let first = Seq::<Reply>::empty().push(db.answer(Command::FindEventOwner { id: body.id }));
    assert(first.len() == 1);
    assert(first[0] == Reply::Row(db.events[body.id].owner_id));
}

/// An event that its owner changes afterwards holds the new note and the new
/// date, still belongs to its owner, and every other event is as it was.
pub proof fn owner_patch_replaces_note_and_date(db: Db, caller: i32, body: PatchEventBody)
    requires
        db.events.contains_key(body.id),
        db.events[body.id].owner_id == caller,
        date_of(body.new_event_date@) is Some,
    ensures
        patch_event_run(db, SessionRead::UserId(caller), body) == (
            Db {
                events: db.events.insert(
                    body.id,
                    EventRow {
                        owner_id: caller,
                        note: body.new_note@,
                        event_date: date_of(body.new_event_date@)->0,
                    },
                ),
                ..db
            },
            Outcome::Event(IdRow { id: body.id }),
        ),
{
    reveal_with_fuel(carry_out, 3);
    let find = Command::FindEventOwner { id: body.id };
    let update = Command::UpdateEvent {
        id: body.id,
        note: body.new_note,
        event_date: date_of(body.new_event_date@)->0,
    };
    let r1 = Seq::<Reply>::empty().push(db.answer(find));
    assert(r1.len() == 1 && r1[0] == Reply::Row(caller));
    assert(db.apply(find) == db);
    let r2 = r1.push(db.answer(update));
    assert(r2.len() == 2 && r2[0] == r1[0] && r2[1] == Reply::Row(body.id));
}

/// An event created with a readable date is stored under the caller's
/// identity with the note and date given, and its new identifier is
/// returned, as long as the store has an identifier left.
pub proof fn create_stores_event_of_caller(db: Db, caller: i32, body: CreateEventBody)
    requires
        date_of(body.event_date@) is Some,
        !db.full_of_events(),
    ensures
        create_event_run(db, SessionRead::UserId(caller), body) == (
            Db {
                events: db.events.insert(
                    db.next_event_id(),
                    EventRow {
                        owner_id: caller,
                        note: body.note@,
                        event_date: date_of(body.event_date@)->0,
                    },
                ),
                ..db
            },
            Outcome::Event(IdRow { id: db.next_event_id() }),
        ),
{
    reveal_with_fuel(carry_out, 3);
    let insert = Command::InsertEvent {
        owner_id: caller,
        note: body.note,
        event_date: date_of(body.event_date@)->0,
    };
    let r1 = Seq::<Reply>::empty().push(db.answer(insert));
    assert(r1.len() == 1 && r1[0] == Reply::Row(db.next_event_id()));
}

/// Round trip: an event created by the caller and then changed by the same
/// caller holds the new note and the new date and still belongs to the
/// caller.
pub proof fn patch_after_create(
    db: Db,
    caller: i32,
    create: CreateEventBody,
    patch: PatchEventBody,
)
    requires
        date_of(create.event_date@) is Some,
        date_of(patch.new_event_date@) is Some,
        !db.full_of_events(),
        patch.id == db.next_event_id(),
    ensures
        ({
            let created = create_event_run(db, SessionRead::UserId(caller), create);
            let patched = patch_event_run(created.0, SessionRead::UserId(caller), patch);
            &&& created.1 == Outcome::Event(IdRow { id: patch.id })
            &&& patched.1 == Outcome::Event(IdRow { id: patch.id })
            &&& patched.0.events.contains_key(patch.id)
            &&& patched.0.events[patch.id] == EventRow {
                owner_id: caller,
                note: patch.new_note@,
                event_date: date_of(patch.new_event_date@)->0,
            }
        }),
{
    create_stores_event_of_caller(db, caller, create);
    let created = create_event_run(db, SessionRead::UserId(caller), create);
    assert(created.0.events.contains_key(patch.id));
    owner_patch_replaces_note_and_date(created.0, caller, patch);
}

/// An event creation with a date that cannot be read ends in
/// `ValidationError` before any command is issued.
pub proof fn malformed_date_is_rejected(caller: i32, body: CreateEventBody, replies: Seq<Reply>)
    requires
        date_of(body.event_date@) is None,
    ensures
        create_event_step(SessionRead::UserId(caller), body, replies) == Step::Finish(
            Outcome::Rejected(ErrorKind::ValidationError),
        ),
{
}

/// Without an identity in the session, every operation on events ends as
/// unauthenticated and issues no command, whatever the request and the replies.
pub proof fn events_need_identity(
    session: SessionRead,
    create: CreateEventBody,
    patch: PatchEventBody,
    delete: DeleteEventBody,
    replies: Seq<Reply>,
)
    requires
        !(session is UserId),
    ensures
        create_event_step(session, create, replies) == Step::Finish(
            Outcome::Rejected(ErrorKind::Unauthenticated),
        ),
        patch_event_step(session, patch, replies) == Step::Finish(
            Outcome::Rejected(ErrorKind::Unauthenticated),
        ),
        delete_event_step(session, delete, replies) == Step::Finish(
            Outcome::Rejected(ErrorKind::Unauthenticated),
        ),
{
}

/// Whatever the store replies, an event is inserted only under the caller's
/// identity, and an update or a deletion is asked for only after the store
/// has named the caller as the owner of that very event.
pub proof fn event_commands_respect_ownership(
    caller: i32,
    create: CreateEventBody,
    patch: PatchEventBody,
    delete: DeleteEventBody,
    replies: Seq<Reply>,
)
    ensures
        match create_event_step(SessionRead::UserId(caller), create, replies) {
            Step::Ask(Command::InsertEvent { owner_id, note, event_date }) => replies.len() == 0
                && owner_id == caller && note == create.note && Some(event_date) == date_of(
                create.event_date@,
            ),
            Step::Ask(_) => false,
            Step::Finish(_) => true,
        },
        match patch_event_step(SessionRead::UserId(caller), patch, replies) {
            Step::Ask(Command::FindEventOwner { id }) => replies.len() == 0 && id == patch.id,
            Step::Ask(Command::UpdateEvent { id, note, event_date }) => replies == seq![
                Reply::Row(caller),
            ] && id == patch.id && note == patch.new_note && Some(event_date) == date_of(
                patch.new_event_date@,
            ),
            Step::Ask(_) => false,
            Step::Finish(_) => true,
        },
        match delete_event_step(SessionRead::UserId(caller), delete, replies) {
            Step::Ask(Command::FindEventOwner { id }) => replies.len() == 0 && id == delete.id,
            Step::Ask(Command::DeleteEvent { id }) => replies == seq![Reply::Row(caller)] && id
                == delete.id,
            Step::Ask(_) => false,
            Step::Finish(_) => true,
        },
{
    if replies.len() == 1 {
        assert(replies =~= seq![replies[0]]);
    }
}

/// No operation on events asks more than twice: after two replies each one
/// is over.
pub proof fn event_operations_end(
    session: SessionRead,
    create: CreateEventBody,
    patch: PatchEventBody,
    delete: DeleteEventBody,
    replies: Seq<Reply>,
)
    requires
        replies.len() >= 2,
    ensures
        create_event_step(session, create, replies) is Finish,
        patch_event_step(session, patch, replies) is Finish,
        delete_event_step(session, delete, replies) is Finish,
{
}

} // verus!
