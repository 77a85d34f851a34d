//! Registration, as a sequence of decisions between database calls.
//!
//! `sign_up_start` looks at the request; each `sign_up_step` takes what the
//! last database call gave and says what to do next: call the database
//! again, answer with the new user, or refuse.

use vstd::prelude::*;
use crate::error::CustomError;
use crate::model::{NewUser, UpdateUser, User, UserTable};
use crate::password::{get_phc_string, hashable, is_argon2id_phc, password_matches};
use crate::text::{trim, trimmed};

verus! {

/// Where a registration stands.
#[derive(Debug)]
pub enum SignUpState {
    /// Waiting for the row with the requested email address.
    LookingUpEmail { user: NewUser },
    /// Waiting to learn whether the username is taken; the address is new.
    CheckingNewUsername { user: NewUser },
    /// Waiting to learn whether the username is taken; the address belongs to
    /// the closed account `existing`.
    CheckingReturningUsername { user: NewUser, existing: UserTable },
    /// Waiting for the insert of the new row.
    Inserting { email: String },
    /// Waiting for the freshly inserted row.
    Reloading,
    /// Waiting for the update that reopens a closed account.
    Reopening { uid: u32, email: String, username: String },
    /// Done: nothing more is expected.
    Finished,
}

/// What the last database call gave; a failure carries the database's message.
#[derive(Debug)]
pub enum SignUpEvent {
    /// The row with an email address, if any.
    EmailLookedUp(Result<Option<UserTable>, String>),
    /// Whether the username is taken.
    UsernameChecked(Result<bool, String>),
    /// The number of rows an insert or update wrote.
    Written(Result<u64, String>),
}

/// What to do next.
#[derive(Debug)]
pub enum SignUpAction {
    /// Look up the row with this email address.
    LookUpEmail(String),
    /// Ask whether this username is taken.
    CheckUsername(String),
    /// Insert this user (its password already hashed).
    Insert(NewUser),
    /// Apply this update.
    Update(UpdateUser),
    /// Answer with this user.
    Respond(User),
    /// Refuse with this error.
    Reject(CustomError),
}

/// `e` is a `ValidationError` with this message.
pub open spec fn is_validation(e: CustomError, message: Seq<char>) -> bool {
    e matches CustomError::ValidationError { message: m } && m@ == message
}

/// `e` is an `InternalError` with this message.
pub open spec fn is_internal(e: CustomError, message: Seq<char>) -> bool {
    e matches CustomError::InternalError { message: m } && m@ == message
}

/// The event answers the action of this state: a lookup of the address is
/// answered by a lookup result, a username check by a check result, a write
/// by a write result. The row just inserted is found. Where a free username
/// leads to hashing a password (the request's for a new address, the stored
/// one for a closed account), that password is one Argon2 can hash.
pub open spec fn sign_up_event_fits(s: SignUpState, e: SignUpEvent) -> bool {
    match (s, e) {
        (SignUpState::LookingUpEmail { .. }, SignUpEvent::EmailLookedUp(_)) => true,
        (SignUpState::CheckingNewUsername { user }, SignUpEvent::UsernameChecked(r)) => r == Ok::<
            bool,
            String,
        >(false) ==> hashable(user.password@),
        (
            SignUpState::CheckingReturningUsername { existing, .. },
            SignUpEvent::UsernameChecked(r),
        ) => r == Ok::<bool, String>(false) ==> hashable(existing.password@),
        (SignUpState::Inserting { .. }, SignUpEvent::Written(_)) => true,
        (SignUpState::Reloading, SignUpEvent::EmailLookedUp(r)) => !(r matches Ok(None)),
        (SignUpState::Reopening { .. }, SignUpEvent::Written(_)) => true,
        _ => false,
    }
}

/// How many database calls a registration in this state may still wait for,
/// at most.
pub open spec fn sign_up_rank(s: SignUpState) -> nat {
    match s {
        SignUpState::LookingUpEmail { .. } => 4,
        SignUpState::CheckingNewUsername { .. } => 3,
        SignUpState::CheckingReturningUsername { .. } => 2,
        SignUpState::Inserting { .. } => 2,
        SignUpState::Reloading => 1,
        SignUpState::Reopening { .. } => 1,
        SignUpState::Finished => 0,
    }
}

/// The first decision: each of the address, the username and the password
/// must be non-empty (checked in that order); then the address is looked up.
pub open spec fn spec_sign_up_start(user: NewUser, next: (SignUpState, SignUpAction)) -> bool {
    if user.email@.len() == 0 {
        fails_with_validation(next, "`email` is required"@)
    } else if user.username@.len() == 0 {
        fails_with_validation(next, "`username` is required"@)
    } else if user.password@.len() == 0 {
        fails_with_validation(next, "`password` is required"@)
    } else {
        next.0 == SignUpState::LookingUpEmail { user } && next.1 == SignUpAction::LookUpEmail(
            user.email,
        )
    }
}

/// A registration request is refused at once only for a missing field: one
/// whose address, username and password are all non-empty, whatever their
/// length or content, goes on to the lookup of its address; one with an empty
/// field is refused with a validation error naming the first such field.
pub proof fn lemma_sign_up_start_refuses_only_empty_fields(
    user: NewUser,
    next: (SignUpState, SignUpAction),
)
    requires
        spec_sign_up_start(user, next),
    ensures
        user.email@.len() > 0 && user.username@.len() > 0 && user.password@.len() > 0 ==> next
            == (SignUpState::LookingUpEmail { user }, SignUpAction::LookUpEmail(user.email)),
        next.1 is Reject <==> (user.email@.len() == 0 || user.username@.len() == 0
            || user.password@.len() == 0),
        user.email@.len() == 0 ==> fails_with_validation(next, "`email` is required"@),
        user.email@.len() > 0 && user.username@.len() == 0 ==> fails_with_validation(
            next,
            "`username` is required"@,
        ),
        user.email@.len() > 0 && user.username@.len() > 0 && user.password@.len() == 0
            ==> fails_with_validation(next, "`password` is required"@),
{
}

/// `next` refuses with an internal error carrying the database's message.
pub open spec fn fails_with_internal(next: (SignUpState, SignUpAction), message: String) -> bool {
    &&& next.0 is Finished
    &&& next.1 matches SignUpAction::Reject(e) && is_internal(e, message@)
}

/// `next` refuses with a validation error with this message.
pub open spec fn fails_with_validation(next: (SignUpState, SignUpAction), message: Seq<char>) -> bool {
    &&& next.0 is Finished
    &&& next.1 matches SignUpAction::Reject(e) && is_validation(e, message)
}

/// The update that reopens the closed account `existing` for `user`.
pub open spec fn reopening_update(u: UpdateUser, user: NewUser, existing: UserTable) -> bool {
    &&& u.uid == existing.uid
    &&& u.email == Some(existing.email)
    &&& u.username == Some(user.username)
    &&& u.password matches Some(p) && password_matches(existing.password@, p@) && is_argon2id_phc(
        p@,
    )
    &&& u.nickname matches Some(n) && n@.len() == 0
    &&& u.bio matches Some(b) && b@.len() == 0
    &&& u.image matches Some(i) && i@.len() == 0
    &&& u.deleted == Some(false)
}

/// The answer for a newly inserted row.
pub open spec fn registered_user(u: User, row: UserTable) -> bool {
    &&& u.uid == row.uid
    &&& u.email@ == trimmed(row.email@)
    &&& u.username == row.username
    &&& u.nickname is None
    &&& u.bio is None
    &&& u.image is None
    &&& u.token is None
}

/// Each later decision, given where the registration stands and what the
/// database gave:
/// - any database failure is refused as an internal error with its message;
/// - an address with an open account is refused (`Email is already
///   registered`); a new address, or one of a closed account, leads to the
///   username check;
/// - a taken username is refused (`Username already exists`);
/// - a free username for a new address leads to inserting the user with its
///   password replaced by a PHC hash against which that password verifies,
///   then to reading the row back, and to answering with its id, its trimmed
///   address and its username;
/// - a free username for a closed account leads to reopening it: the row keeps
///   its id and address, takes the new username, a PHC hash against which the
///   row's stored password text verifies, empty nickname, bio and image, and
///   is no longer deleted; the answer is the id, the address and the username.
pub open spec fn spec_sign_up_step(
    s: SignUpState,
    e: SignUpEvent,
    next: (SignUpState, SignUpAction),
) -> bool {
    match (s, e) {
        (SignUpState::LookingUpEmail { user }, SignUpEvent::EmailLookedUp(r)) => match r {
            Err(m) => fails_with_internal(next, m),
            Ok(None) => next.0 == SignUpState::CheckingNewUsername { user } && next.1
                == SignUpAction::CheckUsername(user.username),
            Ok(Some(row)) => if !row.deleted {
                fails_with_validation(next, "Email is already registered"@)
            } else {
                next.0 == SignUpState::CheckingReturningUsername { user, existing: row } && next.1
                    == SignUpAction::CheckUsername(user.username)
            },
        },
        (SignUpState::CheckingNewUsername { user }, SignUpEvent::UsernameChecked(r)) => match r {
            Err(m) => fails_with_internal(next, m),
            Ok(true) => fails_with_validation(next, "Username already exists"@),
            Ok(false) => {
                &&& next.0 == SignUpState::Inserting { email: user.email }
                &&& next.1 matches SignUpAction::Insert(inserted) && inserted.email == user.email
                    && inserted.username == user.username && password_matches(
                    user.password@,
                    inserted.password@,
                ) && is_argon2id_phc(inserted.password@)
            },
        },
        (
            SignUpState::CheckingReturningUsername { user, existing },
            SignUpEvent::UsernameChecked(r),
        ) => match r {
            Err(m) => fails_with_internal(next, m),
            Ok(true) => fails_with_validation(next, "Username already exists"@),
            Ok(false) => {
                &&& next.0 == SignUpState::Reopening {
                    uid: existing.uid,
                    email: existing.email,
                    username: user.username,
                }
                &&& next.1 matches SignUpAction::Update(u) && reopening_update(u, user, existing)
            },
        },
        (SignUpState::Inserting { email }, SignUpEvent::Written(r)) => match r {
            Err(m) => fails_with_internal(next, m),
            Ok(_) => next.0 is Reloading && next.1 == SignUpAction::LookUpEmail(email),
        },
        (SignUpState::Reloading, SignUpEvent::EmailLookedUp(r)) => match r {
            Err(m) => fails_with_internal(next, m),
            Ok(found) => {
                &&& found matches Some(row)
                &&& next.0 is Finished
                &&& next.1 matches SignUpAction::Respond(u) && registered_user(u, found->0)
            },
        },
        (SignUpState::Reopening { uid, email, username }, SignUpEvent::Written(r)) => match r {
            Err(m) => fails_with_internal(next, m),
            Ok(_) => next.0 is Finished && next.1 == SignUpAction::Respond(
                User {
                    uid,
                    email,
                    username,
                    nickname: None,
                    bio: None,
                    image: None,
                    token: None,
                },
            ),
        },
        _ => false,
    }
}

fn internal(message: String) -> (r: (SignUpState, SignUpAction))
    ensures
        fails_with_internal(r, message),
{
    (SignUpState::Finished, SignUpAction::Reject(CustomError::InternalError { message }))
}

fn refuse(message: &str) -> (r: (SignUpState, SignUpAction))
    ensures
        fails_with_validation(r, message@),
{
    (
        SignUpState::Finished,
        SignUpAction::Reject(CustomError::ValidationError { message: String::from_str(message) }),
    )
}

/// Looks at a registration request: refuses an empty address, username or
/// password, and otherwise asks for the row with the address.
pub fn sign_up_start(user: NewUser) -> (r: (SignUpState, SignUpAction))
    ensures
        spec_sign_up_start(user, r),
        sign_up_rank(r.0) <= 4,
        r.0 is Finished <==> r.1 is Reject,
        r.1 is Reject <==> (user.email@.len() == 0 || user.username@.len() == 0
            || user.password@.len() == 0),
        user.email@.len() > 0 && user.username@.len() > 0 && user.password@.len() > 0 ==> r
            == (SignUpState::LookingUpEmail { user }, SignUpAction::LookUpEmail(user.email)),
        r.1 matches SignUpAction::Reject(e) ==> e is ValidationError,
{
    if user.email.as_str().is_empty() {
        return refuse("`email` is required");
    }
    if user.username.as_str().is_empty() {
        return refuse("`username` is required");
    }
    if user.password.as_str().is_empty() {
        return refuse("`password` is required");
    }
    let email = user.email.clone();
    (SignUpState::LookingUpEmail { user }, SignUpAction::LookUpEmail(email))
}

/// Takes what the last database call gave and says what to do next.
pub fn sign_up_step(state: SignUpState, event: SignUpEvent) -> (r: (SignUpState, SignUpAction))
    requires
        sign_up_event_fits(state, event),
    ensures
        spec_sign_up_step(state, event, r),
        sign_up_rank(r.0) < sign_up_rank(state),
        r.0 is Finished <==> (r.1 is Reject || r.1 is Respond),
{
    match state {
        SignUpState::LookingUpEmail { user } => match event {
            SignUpEvent::EmailLookedUp(Err(m)) => internal(m),
            SignUpEvent::EmailLookedUp(Ok(None)) => {
                let username = user.username.clone();
                (SignUpState::CheckingNewUsername { user }, SignUpAction::CheckUsername(username))
            },
            SignUpEvent::EmailLookedUp(Ok(Some(row))) => {
                if !row.deleted {
                    refuse("Email is already registered")
                } else {
                    let username = user.username.clone();
                    (
                        SignUpState::CheckingReturningUsername { user, existing: row },
                        SignUpAction::CheckUsername(username),
                    )
                }
            },
            _ => internal(String::new()),
        },
        SignUpState::CheckingNewUsername { user } => match event {
            SignUpEvent::UsernameChecked(Err(m)) => internal(m),
            SignUpEvent::UsernameChecked(Ok(true)) => refuse("Username already exists"),
            SignUpEvent::UsernameChecked(Ok(false)) => {
                let phc = get_phc_string(user.password.as_str());
                let email = user.email.clone();
                (
                    SignUpState::Inserting { email },
                    SignUpAction::Insert(
                        NewUser { email: user.email, username: user.username, password: phc },
                    ),
                )
            },
            _ => internal(String::new()),
        },
        SignUpState::CheckingReturningUsername { user, existing } => match event {
            SignUpEvent::UsernameChecked(Err(m)) => internal(m),
            SignUpEvent::UsernameChecked(Ok(true)) => refuse("Username already exists"),
            SignUpEvent::UsernameChecked(Ok(false)) => {
                let phc = get_phc_string(existing.password.as_str());
                let update = UpdateUser {
                    uid: existing.uid,
                    email: Some(existing.email.clone()),
                    username: Some(user.username.clone()),
                    password: Some(phc),
                    nickname: Some(String::new()),
                    bio: Some(String::new()),
                    image: Some(String::new()),
                    deleted: Some(false),
                };
                (
                    SignUpState::Reopening {
                        uid: existing.uid,
                        email: existing.email,
                        username: user.username,
                    },
                    SignUpAction::Update(update),
                )
            },
            _ => internal(String::new()),
        },
        SignUpState::Inserting { email } => match event {
            SignUpEvent::Written(Err(m)) => internal(m),
            SignUpEvent::Written(Ok(_)) => (SignUpState::Reloading, SignUpAction::LookUpEmail(email)),
            _ => internal(String::new()),
        },
        SignUpState::Reloading => match event {
            SignUpEvent::EmailLookedUp(Err(m)) => internal(m),
            SignUpEvent::EmailLookedUp(Ok(Some(row))) => {
                let email = trim(row.email.as_str());
                (
                    SignUpState::Finished,
                    SignUpAction::Respond(
                        User {
                            uid: row.uid,
                            email,
                            username: row.username,
                            nickname: None,
                            bio: None,
                            image: None,
                            token: None,
                        },
                    ),
                )
            },
            _ => internal(String::new()),
        },
        SignUpState::Reopening { uid, email, username } => match event {
            SignUpEvent::Written(Err(m)) => internal(m),
            SignUpEvent::Written(Ok(_)) => (
                SignUpState::Finished,
                SignUpAction::Respond(
                    User { uid, email, username, nickname: None, bio: None, image: None, token: None },
                ),
            ),
            _ => internal(String::new()),
        },
        SignUpState::Finished => internal(String::new()),
    }
}

/// The user table as the uniqueness rules see it: for each row, its id,
/// address and username.
pub open spec fn keys_unique(t: Seq<(u32, Seq<char>, Seq<char>)>) -> bool {
    forall|i: int, j: int|
        #![trigger t[i], t[j]]
        0 <= i < t.len() && 0 <= j < t.len() && i != j ==> t[i].0 != t[j].0 && t[i].1 != t[j].1
            && t[i].2 != t[j].2
}

/// Some row of `t` has the address `email`.
pub open spec fn has_email(t: Seq<(u32, Seq<char>, Seq<char>)>, email: Seq<char>) -> bool {
    exists|i: int| 0 <= i < t.len() && #[trigger] t[i].1 == email
}

/// Some row of `t` has the username `name` (the username check counts at
/// least one row).
pub open spec fn has_username(t: Seq<(u32, Seq<char>, Seq<char>)>, name: Seq<char>) -> bool {
    exists|i: int| 0 <= i < t.len() && #[trigger] t[i].2 == name
}

/// Some row of `t` has the id `uid`.
pub open spec fn has_uid(t: Seq<(u32, Seq<char>, Seq<char>)>, uid: u32) -> bool {
    exists|i: int| 0 <= i < t.len() && #[trigger] t[i].0 == uid
}

/// The table after inserting `n` under the fresh id `uid`.
pub open spec fn table_after_insert(t: Seq<(u32, Seq<char>, Seq<char>)>, uid: u32, n: NewUser) -> Seq<
    (u32, Seq<char>, Seq<char>),
> {
    t.push((uid, n.email@, n.username@))
}

/// The table after the row with id `uid` takes the address `email` and the
/// username `name`.
pub open spec fn table_after_update(
    t: Seq<(u32, Seq<char>, Seq<char>)>,
    uid: u32,
    email: Seq<char>,
    name: Seq<char>,
) -> Seq<(u32, Seq<char>, Seq<char>)> {
    Seq::new(t.len(), |i: int| if t[i].0 == uid { (uid, email, name) } else { t[i] })
}

/// Registering a new address keeps ids, addresses and usernames unique: where
/// the address was looked up and found in no row, and the username is carried
/// by no row, the insert that the step asks for, under a fresh id, leaves the
/// keys unique.
pub proof fn lemma_new_registration_keeps_keys_unique(
    t: Seq<(u32, Seq<char>, Seq<char>)>,
    user: NewUser,
    uid: u32,
    next: (SignUpState, SignUpAction),
)
    requires
        keys_unique(t),
        !has_email(t, user.email@),
        !has_username(t, user.username@),
        !has_uid(t, uid),
        spec_sign_up_step(
            SignUpState::CheckingNewUsername { user },
            SignUpEvent::UsernameChecked(Ok(false)),
            next,
        ),
    ensures
        next.1 matches SignUpAction::Insert(n) && keys_unique(table_after_insert(t, uid, n)),
{
    let n = next.1->Insert_0;
    let t2 = table_after_insert(t, uid, n);
    assert forall|i: int, j: int|
        0 <= i < t2.len() && 0 <= j < t2.len() && i != j implies t2[i].0 != t2[j].0 && t2[i].1
        != t2[j].1 && t2[i].2 != t2[j].2 by {
        if i < t.len() && j < t.len() {
            assert(t2[i] == t[i] && t2[j] == t[j]);
        } else if i < t.len() {
            assert(t2[i] == t[i]);
            assert(t[i].0 != uid);
            assert(t[i].1 != user.email@);
            assert(t[i].2 != user.username@);
        } else {
            assert(t2[j] == t[j]);
            assert(t[j].0 != uid);
            assert(t[j].1 != user.email@);
            assert(t[j].2 != user.username@);
        }
    }
}

/// Reopening a closed account keeps ids, addresses and usernames unique: where
/// the account's row is in the table and the new username is carried by no
/// row, the update that the step asks for keeps the row's address, takes the
/// new username, and leaves the keys unique.
pub proof fn lemma_reopening_keeps_keys_unique(
    t: Seq<(u32, Seq<char>, Seq<char>)>,
    user: NewUser,
    existing: UserTable,
    k: int,
    next: (SignUpState, SignUpAction),
)
    requires
        keys_unique(t),
        0 <= k < t.len(),
        t[k].0 == existing.uid,
        t[k].1 == existing.email@,
        !has_username(t, user.username@),
        spec_sign_up_step(
            SignUpState::CheckingReturningUsername { user, existing },
            SignUpEvent::UsernameChecked(Ok(false)),
            next,
        ),
    ensures
        next.1 matches SignUpAction::Update(u) && u.uid == existing.uid && u.email == Some(
            existing.email,
        ) && u.username == Some(user.username) && keys_unique(
            table_after_update(t, u.uid, existing.email@, user.username@),
        ),
{
    let t2 = table_after_update(t, existing.uid, existing.email@, user.username@);
    assert forall|i: int| 0 <= i < t.len() && t[i].0 == existing.uid implies i == k by {
        if i != k {
            assert(t[i].0 != t[k].0);
        }
    }
    assert forall|i: int, j: int|
        0 <= i < t2.len() && 0 <= j < t2.len() && i != j implies t2[i].0 != t2[j].0 && t2[i].1
        != t2[j].1 && t2[i].2 != t2[j].2 by {
        assert(t[i].2 != user.username@);
        assert(t[j].2 != user.username@);
        assert(t[i].0 != t[j].0 && t[i].1 != t[j].1 && t[i].2 != t[j].2);
    }
}

} // verus!
