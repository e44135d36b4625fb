//! The credential service: signing up, logging in, renaming an account or
//! changing its password, and deleting it.

use crate::error::ErrorKind;
use crate::session::{identify, identity, SessionRead};
use crate::store::{carry_out, Command, Db, Outcome, Reply, Step, User};
use vstd::prelude::*;

verus! {

/// A request to create an account.
#[derive(Clone, Debug, PartialEq, Eq)]
pub struct CreateUserBody {
    pub name: String,
    pub password: String,
}

/// A request to log in.
#[derive(Clone, Debug, PartialEq, Eq)]
pub struct LoginBody {
    pub name: String,
    pub password: String,
}

/// A request to give the caller's account a new name and password. The
/// caller is known by the session; `name` and `password` decide nothing.
#[derive(Clone, Debug, PartialEq, Eq)]
pub struct PatchUserBody {
    pub name: String,
    pub password: String,
    pub new_name: String,
    pub new_password: String,
}

/// A request to delete the caller's account. The caller is known by the
/// session; `name` and `password` decide nothing.
#[derive(Clone, Debug, PartialEq, Eq)]
pub struct DeleteUserBody {
    pub name: String,
    pub password: String,
}

/// Whether a name is free, given the count of accounts that have it.
pub open spec fn duplication_verdict(reply: Reply) -> Result<(), ErrorKind> {
    match reply {
        Reply::Count(n) => if n == 0 {
            Ok(())
        } else {
            Err(ErrorKind::DuplicateName)
        },
        _ => Err(ErrorKind::InternalError),
    }
}

/// Who logged in, given the row found for a name and password. A miss is a
/// miss: nothing tells an unknown name from a wrong password.
pub open spec fn auth_verdict(reply: Reply) -> Result<i32, ErrorKind> {
    match reply {
        Reply::Row(id) => Ok(id),
        Reply::NoRow => Err(ErrorKind::InvalidCredentials),
        _ => Err(ErrorKind::InternalError),
    }
}

/// How an operation ends whose last command inserted or updated an account.
pub open spec fn account_verdict(reply: Reply, name: String) -> Outcome {
    match reply {
        Reply::Row(id) => Outcome::Account(User { id, name }),
        _ => Outcome::Rejected(ErrorKind::InternalError),
    }
}

/// The step of a signup after the given replies: count the accounts of that
/// name, insert if there is none, and report the new account.
pub open spec fn create_user_step(body: CreateUserBody, replies: Seq<Reply>) -> Step {
    if replies.len() == 0 {
        Step::Ask(Command::CountAccountsNamed { name: body.name })
    } else {
        match duplication_verdict(replies[0]) {
            Err(e) => Step::Finish(Outcome::Rejected(e)),
            Ok(_) => if replies.len() == 1 {
                Step::Ask(Command::InsertAccount { name: body.name, password: body.password })
            } else {
                Step::Finish(account_verdict(replies[1], body.name))
            },
        }
    }
}

/// The step of a login after the given replies: find the account, then renew
/// the session under its identity.
pub open spec fn login_step(body: LoginBody, replies: Seq<Reply>) -> Step {
    if replies.len() == 0 {
        Step::Ask(Command::FindAccount { name: body.name, password: body.password })
    } else {
        match auth_verdict(replies[0]) {
            Err(e) => Step::Finish(Outcome::Rejected(e)),
            Ok(id) => if replies.len() == 1 {
                Step::Ask(Command::RenewSession { user_id: id })
            } else if replies[1] == Reply::Done {
                Step::Finish(Outcome::LoggedIn(id))
            } else {
                Step::Finish(Outcome::Rejected(ErrorKind::InternalError))
            },
        }
    }
}

/// The step of a rename or password change after the given replies: identify the
/// caller, count the other accounts of the new name, update if there is none.
pub open spec fn patch_user_step(
    session: SessionRead,
    body: PatchUserBody,
    replies: Seq<Reply>,
) -> Step {
    match identity(session) {
        Err(e) => Step::Finish(Outcome::Rejected(e)),
        Ok(caller) => if replies.len() == 0 {
            Step::Ask(Command::CountOtherAccountsNamed { name: body.new_name, except: caller })
        } else {
            match duplication_verdict(replies[0]) {
                Err(e) => Step::Finish(Outcome::Rejected(e)),
                Ok(_) => if replies.len() == 1 {
                    Step::Ask(
                        Command::UpdateAccount {
                            id: caller,
                            name: body.new_name,
                            password: body.new_password,
                        },
                    )
                } else {
                    Step::Finish(account_verdict(replies[1], body.new_name))
                },
            }
        },
    }
}

/// The step of an account deletion after the given replies: identify the caller,
/// then delete the caller's own row.
pub open spec fn delete_user_step(session: SessionRead, replies: Seq<Reply>) -> Step {
    match identity(session) {
        Err(e) => Step::Finish(Outcome::Rejected(e)),
        Ok(caller) => if replies.len() == 0 {
            Step::Ask(Command::DeleteAccount { id: caller })
        } else if replies[0] == Reply::Done {
            Step::Finish(Outcome::Deleted)
        } else {
            Step::Finish(Outcome::Rejected(ErrorKind::InternalError))
        },
    }
}

/// Decides from the count of accounts with a name whether the name is free.
pub fn check_duplication(reply: Reply) -> (verdict: Result<(), ErrorKind>)
    ensures
        verdict == duplication_verdict(reply),
{
    match reply {
        Reply::Count(n) => {
            if n == 0 {
                Ok(())
            } else {
                Err(ErrorKind::DuplicateName)
            }
        },
        _ => Err(ErrorKind::InternalError),
    }
}

/// Decides from the row found for a name and password who logged in.
pub fn user_auth(reply: Reply) -> (verdict: Result<i32, ErrorKind>)
    ensures
        verdict == auth_verdict(reply),
{
    match reply {
        Reply::Row(id) => Ok(id),
        Reply::NoRow => Err(ErrorKind::InvalidCredentials),
        _ => Err(ErrorKind::InternalError),
    }
}

fn account_outcome(reply: Reply, name: &String) -> (outcome: Outcome)
    ensures
        outcome == account_verdict(reply, *name),
{
    match reply {
        Reply::Row(id) => Outcome::Account(User { id, name: name.clone() }),
        _ => Outcome::Rejected(ErrorKind::InternalError),
    }
}

/// Creates an account: the next step after the replies received so far.
pub fn create_user(body: &CreateUserBody, replies: &[Reply]) -> (step: Step)
    ensures
        step == create_user_step(*body, replies@),
{
    if replies.len() == 0 {
        return Step::Ask(Command::CountAccountsNamed { name: body.name.clone() });
    }
    match check_duplication(replies[0]) {
        Err(e) => Step::Finish(Outcome::Rejected(e)),
        Ok(_) => {
            if replies.len() == 1 {
                Step::Ask(
                    Command::InsertAccount {
                        name: body.name.clone(),
                        password: body.password.clone(),
                    },
                )
            } else {
                Step::Finish(account_outcome(replies[1], &body.name))
            }
        },
    }
}

/// Logs in: the next step after the replies received so far.
pub fn login(body: &LoginBody, replies: &[Reply]) -> (step: Step)
    ensures
        step == login_step(*body, replies@),
{
    if replies.len() == 0 {
        return Step::Ask(
            Command::FindAccount { name: body.name.clone(), password: body.password.clone() },
        );
    }
    match user_auth(replies[0]) {
        Err(e) => Step::Finish(Outcome::Rejected(e)),
        Ok(id) => {
            if replies.len() == 1 {
                Step::Ask(Command::RenewSession { user_id: id })
            } else if replies[1] == Reply::Done {
                Step::Finish(Outcome::LoggedIn(id))
            } else {
                Step::Finish(Outcome::Rejected(ErrorKind::InternalError))
            }
        },
    }
}

/// Renames the caller's account and changes its password: the next step
/// after the replies received so far.
pub fn patch_user(session: SessionRead, body: &PatchUserBody, replies: &[Reply]) -> (step: Step)
    ensures
        step == patch_user_step(session, *body, replies@),
{
    let caller: i32 = match identify(session) {
        Err(e) => {
            return Step::Finish(Outcome::Rejected(e));
        },
        Ok(id) => id,
    };
    if replies.len() == 0 {
        return Step::Ask(
            Command::CountOtherAccountsNamed { name: body.new_name.clone(), except: caller },
        );
    }
    match check_duplication(replies[0]) {
        Err(e) => Step::Finish(Outcome::Rejected(e)),
        Ok(_) => {
            if replies.len() == 1 {
                Step::Ask(
                    Command::UpdateAccount {
                        id: caller,
                        name: body.new_name.clone(),
                        password: body.new_password.clone(),
                    },
                )
            } else {
                Step::Finish(account_outcome(replies[1], &body.new_name))
            }
        },
    }
}

/// Deletes the caller's account: the next step after the replies received so
/// far.
pub fn delete_user(session: SessionRead, replies: &[Reply]) -> (step: Step)
    ensures
        step == delete_user_step(session, replies@),
{
    let caller: i32 = match identify(session) {
        Err(e) => {
            return Step::Finish(Outcome::Rejected(e));
        },
        Ok(id) => id,
    };
    if replies.len() == 0 {
        Step::Ask(Command::DeleteAccount { id: caller })
    } else if replies[0] == Reply::Done {
        Step::Finish(Outcome::Deleted)
    } else {
        Step::Finish(Outcome::Rejected(ErrorKind::InternalError))
    }
}

/// A signup against a store that answers faithfully.
pub open spec fn create_user_run(db: Db, body: CreateUserBody) -> (Db, Outcome) {
    carry_out(db, |replies: Seq<Reply>| create_user_step(body, replies), Seq::empty(), 2)
}

/// A login against a store that answers faithfully.
pub open spec fn login_run(db: Db, body: LoginBody) -> (Db, Outcome) {
    carry_out(db, |replies: Seq<Reply>| login_step(body, replies), Seq::empty(), 2)
}

/// A rename against a store that answers faithfully.
pub open spec fn patch_user_run(
    db: Db,
    session: SessionRead,
    body: PatchUserBody,
) -> (Db, Outcome) {
    carry_out(db, |replies: Seq<Reply>| patch_user_step(session, body, replies), Seq::empty(), 2)
}

/// An account deletion against a store that answers faithfully.
pub open spec fn delete_user_run(db: Db, session: SessionRead) -> (Db, Outcome) {
    carry_out(db, |replies: Seq<Reply>| delete_user_step(session, replies), Seq::empty(), 2)
}

/// A signup under a name that an account already has is rejected as a
/// duplicate, and the store stays as it was.
pub proof fn taken_name_is_rejected(db: Db, body: CreateUserBody)
    requires
        db.name_taken(body.name@, None),
    ensures
        create_user_run(db, body) == (db, Outcome::Rejected(ErrorKind::DuplicateName)),
{
    reveal_with_fuel(carry_out, 3);
    let count = Command::CountAccountsNamed { name: body.name };
    let first = Seq::<Reply>::empty().push(db.answer(count));
    assert(first.len() == 1);
    assert(first[0] == Reply::Count(1));
}

/// Of two signups under one name the second is rejected as a duplicate,
/// whatever the passwords, and changes nothing.
pub proof fn second_signup_is_rejected(db: Db, first: CreateUserBody, second: CreateUserBody)
    requires
        first.name@ == second.name@,
        create_user_run(db, first).1 is Account,
    ensures
        create_user_run(create_user_run(db, first).0, second) == (
            create_user_run(db, first).0,
            Outcome::Rejected(ErrorKind::DuplicateName),
        ),
{
    reveal_with_fuel(carry_out, 3);
    let count = Command::CountAccountsNamed { name: first.name };
    let insert = Command::InsertAccount { name: first.name, password: first.password };
    let r1 = Seq::<Reply>::empty().push(db.answer(count));
    assert(r1.len() == 1 && r1[0] == db.answer(count));
    let db1 = db.apply(count);
    assert(db1 == db);
    let r2 = r1.push(db1.answer(insert));
    assert(r2.len() == 2 && r2[0] == r1[0] && r2[1] == db.answer(insert));
    let after = create_user_run(db, first).0;
    assert(after == db.apply(insert));
    assert(db.answer(insert) is Row);
    assert(after.accounts.contains_key(db.next_account_id()));
    assert(after.name_taken(second.name@, None));
    taken_name_is_rejected(after, second);
}

/// A login with a name and password that no account has together ends in
/// `InvalidCredentials`, whether the name is unknown or the password wrong.
pub proof fn mismatch_is_invalid_credentials(db: Db, body: LoginBody)
    requires
        forall|id: i32| !db.matches(id, body.name@, body.password@),
    ensures
        login_run(db, body) == (db, Outcome::Rejected(ErrorKind::InvalidCredentials)),
{
    reveal_with_fuel(carry_out, 3);
    let find = Command::FindAccount { name: body.name, password: body.password };
    let first = Seq::<Reply>::empty().push(db.answer(find));
    assert(first.len() == 1);
    assert(first[0] == Reply::NoRow);
}

/// Without an identity in the session, a rename and an account deletion end
/// as unauthenticated and issue no command, whatever the replies.
pub proof fn account_changes_need_identity(
    session: SessionRead,
    body: PatchUserBody,
    replies: Seq<Reply>,
)
    requires
        !(session is UserId),
    ensures
        patch_user_step(session, body, replies) == Step::Finish(
            Outcome::Rejected(ErrorKind::Unauthenticated),
        ),
        delete_user_step(session, replies) == Step::Finish(
            Outcome::Rejected(ErrorKind::Unauthenticated),
        ),
{
}

/// A rename to a name that another account has is rejected as a duplicate,
/// and the store stays as it was.
pub proof fn rename_to_taken_name_is_rejected(db: Db, caller: i32, body: PatchUserBody)
    requires
        db.name_taken(body.new_name@, Some(caller)),
    ensures
        patch_user_run(db, SessionRead::UserId(caller), body) == (
            db,
            Outcome::Rejected(ErrorKind::DuplicateName),
        ),
{
    reveal_with_fuel(carry_out, 3);
    let count = Command::CountOtherAccountsNamed { name: body.new_name, except: caller };
    let first = Seq::<Reply>::empty().push(db.answer(count));
    assert(first.len() == 1);
    assert(first[0] == Reply::Count(1));
}

/// Deleting an account removes the caller's own row and nothing else: the
/// events of the account stay as they are.
pub proof fn delete_removes_only_the_account(db: Db, caller: i32)
    ensures
        delete_user_run(db, SessionRead::UserId(caller)) == (
            Db { accounts: db.accounts.remove(caller), ..db },
            Outcome::Deleted,
        ),
{
    reveal_with_fuel(carry_out, 3);
    let delete = Command::DeleteAccount { id: caller };
    let first = Seq::<Reply>::empty().push(db.answer(delete));
    assert(first.len() == 1);
    assert(first[0] == Reply::Done);
}

/// Whatever the store replies, a rename updates no row but the caller's, an
/// account deletion deletes no row but the caller's, and a login renews the
/// session only under the identity of the row that was found.
pub proof fn account_commands_touch_only_the_caller(
    caller: i32,
    patch: PatchUserBody,
    credentials: LoginBody,
    replies: Seq<Reply>,
)
    ensures
        match patch_user_step(SessionRead::UserId(caller), patch, replies) {
            Step::Ask(Command::CountOtherAccountsNamed { name, except }) => replies.len() == 0
                && name == patch.new_name && except == caller,
            Step::Ask(Command::UpdateAccount { id, name, password }) => replies == seq![
                Reply::Count(0),
            ] && id == caller && name == patch.new_name && password == patch.new_password,
            Step::Ask(_) => false,
            Step::Finish(_) => true,
        },
        match delete_user_step(SessionRead::UserId(caller), replies) {
            Step::Ask(command) => replies.len() == 0 && command == (Command::DeleteAccount {
                id: caller,
            }),
            Step::Finish(_) => true,
        },
        match login_step(credentials, replies) {
            Step::Ask(Command::FindAccount { name, password }) => replies.len() == 0
                && name == credentials.name && password == credentials.password,
            Step::Ask(Command::RenewSession { user_id }) => replies == seq![Reply::Row(user_id)],
            Step::Ask(_) => false,
            Step::Finish(_) => true,
        },
{
    if replies.len() == 1 {
        assert(replies =~= seq![replies[0]]);
    }
}

/// No operation on accounts asks more than twice: after two replies each one
/// is over.
pub proof fn account_operations_end(
    session: SessionRead,
    create: CreateUserBody,
    credentials: LoginBody,
    patch: PatchUserBody,
    replies: Seq<Reply>,
)
    requires
        replies.len() >= 2,
    ensures
        create_user_step(create, replies) is Finish,
        login_step(credentials, replies) is Finish,
        patch_user_step(session, patch, replies) is Finish,
        delete_user_step(session, replies) is Finish,
{
}

} // verus!
