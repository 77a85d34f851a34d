//! The decisions of the user and profile requests, between database calls.

use vstd::prelude::*;
use crate::error::CustomError;
use crate::model::{LoginCredentials, Profile, UpdateUser, User, UserFollow};
use crate::signup::{is_internal, is_validation};
use crate::text::{trim, trimmed};

verus! {

/// A database failure, answered as an internal error with the database's message.
pub fn db_failure(message: String) -> (r: CustomError)
    ensures
        is_internal(r, message@),
{
    CustomError::InternalError { message }
}

/// Whether a username already exists, from the number of rows that carry it:
/// it does when at least one row does.
pub fn username_taken(count: u32) -> (r: bool)
    ensures
        r == (count >= 1),
{
    count >= 1
}

impl LoginCredentials {
    /// The credentials with white space trimmed from both ends of each.
    pub fn trimmed(&self) -> (r: LoginCredentials)
        ensures
            r.email@ == trimmed(self.email@),
            r.password@ == trimmed(self.password@),
    {
        LoginCredentials { email: trim(self.email.as_str()), password: trim(self.password.as_str()) }
    }
}

/// The profile of `user` under the requested `username`.
pub open spec fn is_profile_of(p: Profile, username: Seq<char>, user: User, following: bool) -> bool {
    &&& p.username@ == username
    &&& p.bio == user.bio
    &&& p.image == user.image
    &&& p.following == following
}

/// A profile shows the user's own bio and image, unchanged, under the
/// requested username, with the given follow flag.
pub proof fn lemma_profile_shows_user(p: Profile, username: Seq<char>, user: User, following: bool)
    requires
        is_profile_of(p, username, user, following),
    ensures
        p.bio == user.bio,
        p.image == user.image,
        p.username@ == username,
        p.following == following,
{
}

fn profile_of(username: &str, user: User, following: bool) -> (r: Profile)
    ensures
        is_profile_of(r, username@, user, following),
        r.bio == user.bio,
        r.image == user.image,
        r.username@ == username@,
        r.following == following,
{
    Profile { username: String::from_str(username), bio: user.bio, image: user.image, following }
}

/// The answer for one user looked up by id (`GET /api/user/{uid}`): the user
/// if there is one, or an internal error where the lookup failed.
pub fn user_info(found: Result<Option<User>, String>) -> (r: Result<Option<User>, CustomError>)
    ensures
        match found {
            Err(m) => r matches Err(e) && is_internal(e, m@),
            Ok(u) => r == Ok::<Option<User>, CustomError>(u),
        },
{
    match found {
        Err(m) => Err(db_failure(m)),
        Ok(u) => Ok(u),
    }
}

/// The answer for the requester's own account (`GET /api/user`): the user
/// with the token it presented.
pub fn current_user(found: Result<Option<User>, String>, token: String) -> (r: Result<User, CustomError>)
    requires
        !(found matches Ok(None)),
    ensures
        match found {
            Err(m) => r matches Err(e) && is_internal(e, m@),
            Ok(u) => r == Ok::<User, CustomError>(User { token: Some(token), ..u->0 }),
        },
{
    match found {
        Err(m) => Err(db_failure(m)),
        Ok(Some(u)) => Ok(User { token: Some(token), ..u }),
        Ok(None) => Err(db_failure(token)),
    }
}

/// The change a user asks for, applied to the requester's own row.
pub fn update_for(update: UpdateUser, uid: u32) -> (r: UpdateUser)
    ensures
        r == (UpdateUser { uid, ..update }),
{
    UpdateUser { uid, ..update }
}

/// The outcome of writing a change to the requester's row: a failure, or a
/// write that touched no row, is an internal error.
pub fn update_written(written: Result<u64, String>) -> (r: Result<(), CustomError>)
    ensures
        match written {
            Err(m) => r matches Err(e) && is_internal(e, m@),
            Ok(rows) => if rows < 1 {
                r matches Err(e) && is_internal(e, "Update may not be successful"@)
            } else {
                r is Ok
            },
        },
{
    match written {
        Err(m) => Err(db_failure(m)),
        Ok(rows) => {
            if rows < 1 {
                Err(db_failure(String::from_str("Update may not be successful")))
            } else {
                Ok(())
            }
        },
    }
}

/// The answer after a change (`PUT /api/user`): the row read back.
pub fn updated_user(found: Result<Option<User>, String>) -> (r: Result<User, CustomError>)
    requires
        !(found matches Ok(None)),
    ensures
        match found {
            Err(m) => r matches Err(e) && is_internal(e, m@),
            Ok(u) => r == Ok::<User, CustomError>(u->0),
        },
{
    match found {
        Err(m) => Err(db_failure(m)),
        Ok(Some(u)) => Ok(u),
        Ok(None) => Err(db_failure(String::new())),
    }
}

/// What to do after looking up the user whose profile is asked for.
#[derive(Debug)]
pub enum ProfileNext {
    /// Answer with this profile, or with none.
    Respond(Option<Profile>),
    /// Look up the follow row `key` (the requester following `user`), then answer.
    LookUpFollow { key: UserFollow, user: User },
    /// Refuse with this error.
    Reject(CustomError),
}

/// First decision of `GET /api/profiles/{username}`: a failed lookup is an
/// internal error; no such user gives no profile; an anonymous requester sees
/// the profile as not followed; a signed-in requester's follow is looked up.
pub fn profile_after_lookup(
    username: &str,
    found: Result<Option<User>, String>,
    viewer: Option<u32>,
) -> (r: ProfileNext)
    ensures
        match found {
            Err(m) => r matches ProfileNext::Reject(e) && is_internal(e, m@),
            Ok(None) => r matches ProfileNext::Respond(None),
            Ok(Some(user)) => match viewer {
                None => r matches ProfileNext::Respond(Some(p)) && is_profile_of(
                    p,
                    username@,
                    user,
                    false,
                ),
                Some(id) => r == ProfileNext::LookUpFollow { key: follow_key(id, user), user },
            },
        },
        found matches Ok(Some(user)) ==> (viewer is None ==> (r matches ProfileNext::Respond(
            Some(p),
        ) && p.bio == user.bio && p.image == user.image && p.username@ == username@
            && !p.following)),
{
    match found {
        Err(m) => ProfileNext::Reject(db_failure(m)),
        Ok(None) => ProfileNext::Respond(None),
        Ok(Some(user)) => match viewer {
            None => ProfileNext::Respond(Some(profile_of(username, user, false))),
            Some(id) => {
                let key = follow_record(id, &user);
                ProfileNext::LookUpFollow { key, user }
            },
        },
    }
}

/// Second decision of `GET /api/profiles/{username}`: the profile is followed
/// when a follow row was found.
pub fn profile_after_follow(
    username: &str,
    user: User,
    follow: Result<Option<UserFollow>, String>,
) -> (r: Result<Profile, CustomError>)
    ensures
        match follow {
            Err(m) => r matches Err(e) && is_internal(e, m@),
            Ok(f) => r matches Ok(p) && is_profile_of(p, username@, user, f is Some),
        },
        r matches Ok(p) ==> p.bio == user.bio && p.image == user.image && p.username@
            == username@ && p.following == (follow matches Ok(Some(_))),
{
    match follow {
        Err(m) => Err(db_failure(m)),
        Ok(f) => Ok(profile_of(username, user, f.is_some())),
    }
}

/// The user a follow or unfollow names: a failed lookup is an internal error,
/// a missing user is refused.
pub fn target_user(found: Result<Option<User>, String>) -> (r: Result<User, CustomError>)
    ensures
        match found {
            Err(m) => r matches Err(e) && is_internal(e, m@),
            Ok(None) => r matches Err(e) && is_validation(e, "The user does not exist"@),
            Ok(Some(u)) => r == Ok::<User, CustomError>(u),
        },
{
    match found {
        Err(m) => Err(db_failure(m)),
        Ok(None) => Err(CustomError::ValidationError { message: String::from_str("The user does not exist") }),
        Ok(Some(u)) => Ok(u),
    }
}

/// The follow row of `follower` following `user`: the row a follow adds, an
/// unfollow deletes, and a profile request looks up.
pub open spec fn follow_key(follower: u32, user: User) -> UserFollow {
    UserFollow { uid: follower, follow_uid: user.uid }
}

/// The follow row of `follower` following `user`: the row a follow adds, an
/// unfollow deletes, and a profile request looks up.
pub fn follow_record(follower: u32, user: &User) -> (r: UserFollow)
    ensures
        r == follow_key(follower, *user),
{
    UserFollow { uid: follower, follow_uid: user.uid }
}

/// Last decision of `POST /api/profiles/{username}/follow`: a failed insert,
/// or one that added no row, is an internal error; otherwise the profile is
/// answered as followed.
pub fn follow_done(username: &str, user: User, inserted: Result<u64, String>) -> (r: Result<
    Profile,
    CustomError,
>)
    ensures
        match inserted {
            Err(m) => r matches Err(e) && is_internal(e, m@),
            Ok(rows) => if rows < 1 {
                r matches Err(e) && is_internal(e, "Follow may not be successful"@)
            } else {
                r matches Ok(p) && is_profile_of(p, username@, user, true)
            },
        },
        r matches Ok(p) ==> p.bio == user.bio && p.image == user.image && p.username@
            == username@ && p.following,
{
    match inserted {
        Err(m) => Err(db_failure(m)),
        Ok(rows) => {
            if rows < 1 {
                Err(db_failure(String::from_str("Follow may not be successful")))
            } else {
                Ok(profile_of(username, user, true))
            }
        },
    }
}

/// Last decision of `DELETE /api/profiles/{username}/follow`: a failed delete
/// is an internal error, one that removed no row is refused (`Not following
/// the user`); otherwise the profile is answered, marked as followed.
pub fn unfollow_done(username: &str, user: User, deleted: Result<u64, String>) -> (r: Result<
    Profile,
    CustomError,
>)
    ensures
        match deleted {
            Err(m) => r matches Err(e) && is_internal(e, m@),
            Ok(rows) => if rows < 1 {
                r matches Err(e) && is_validation(e, "Not following the user"@)
            } else {
                r matches Ok(p) && is_profile_of(p, username@, user, true)
            },
        },
        r matches Ok(p) ==> p.bio == user.bio && p.image == user.image && p.username@
            == username@ && p.following,
{
    match deleted {
        Err(m) => Err(db_failure(m)),
        Ok(rows) => {
            if rows < 1 {
                Err(CustomError::ValidationError { message: String::from_str("Not following the user") })
            } else {
                Ok(profile_of(username, user, true))
            }
        },
    }
}

/// The follow table, as the set of (follower, followed) pairs it holds.
pub open spec fn follow_pair(f: UserFollow) -> (u32, u32) {
    (f.uid, f.follow_uid)
}

/// The follow table after inserting the row `f`.
pub open spec fn follows_after_insert(t: Set<(u32, u32)>, f: UserFollow) -> Set<(u32, u32)> {
    t.insert(follow_pair(f))
}

/// The rows an insert of `f` adds to the table `t`: one where the pair is new.
pub open spec fn rows_inserted(t: Set<(u32, u32)>, f: UserFollow) -> nat {
    if t.contains(follow_pair(f)) {
        0
    } else {
        1
    }
}

/// The follow table after deleting the row `f`.
pub open spec fn follows_after_delete(t: Set<(u32, u32)>, f: UserFollow) -> Set<(u32, u32)> {
    t.remove(follow_pair(f))
}

/// The rows a delete of `f` removes from the table `t`.
pub open spec fn rows_deleted(t: Set<(u32, u32)>, f: UserFollow) -> nat {
    if t.contains(follow_pair(f)) {
        1
    } else {
        0
    }
}

/// Unfollowing undoes a follow: where `follower` did not follow `user`, the
/// follow adds one row (so `follow_done` answers the profile), the unfollow of
/// the same user by the same requester deletes one row (so `unfollow_done`
/// answers the profile), and the follow table is back as it was. Both
/// requests act on the one row `follow_key(follower, user)`, which is what
/// `follow_record` gives.
pub proof fn lemma_follow_then_unfollow(t0: Set<(u32, u32)>, follower: u32, user: User)
    requires
        !t0.contains((follower, user.uid)),
    ensures
        rows_inserted(t0, follow_key(follower, user)) == 1,
        rows_deleted(
            follows_after_insert(t0, follow_key(follower, user)),
            follow_key(follower, user),
        ) == 1,
        follows_after_delete(
            follows_after_insert(t0, follow_key(follower, user)),
            follow_key(follower, user),
        ) == t0,
{
    let k = follow_key(follower, user);
    assert(follows_after_delete(follows_after_insert(t0, k), k) =~= t0);
}

} // verus!
