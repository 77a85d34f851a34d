use actix_realworld_example::error::CustomError;
use actix_realworld_example::handlers::{
    current_user, db_failure, follow_done, follow_record, profile_after_follow, profile_after_lookup,
    target_user, unfollow_done, update_for, update_written, updated_user, user_info, username_taken,
    ProfileNext,
};
use actix_realworld_example::model::{LoginCredentials, NewUser, Profile, UpdateUser, User, UserFollow, UserTable};
use actix_realworld_example::password::verify_password;
use actix_realworld_example::signup::{sign_up_start, sign_up_step, SignUpAction, SignUpEvent, SignUpState};

fn new_user(email: &str, username: &str, password: &str) -> NewUser {
    NewUser { email: email.to_string(), username: username.to_string(), password: password.to_string() }
}

fn row(uid: u32, email: &str, username: &str, password: &str, deleted: bool) -> UserTable {
    UserTable {
        uid,
        email: email.to_string(),
        username: username.to_string(),
        password: password.to_string(),
        nickname: None,
        bio: Some("bio".to_string()),
        image: None,
        created_time: 0,
        updated_time: 0,
        deleted,
    }
}

fn validation(m: &str) -> CustomError {
    CustomError::ValidationError { message: m.to_string() }
}

fn internal(m: &str) -> CustomError {
    CustomError::InternalError { message: m.to_string() }
}

fn rejected(a: SignUpAction) -> CustomError {
    match a {
        SignUpAction::Reject(e) => e,
        other => panic!("expected a refusal, got {:?}", other),
    }
}

#[test]
fn sign_up_refuses_before_hashing_any_size() {
    let (s, _) = sign_up_start(new_user("a@b.c", "alice", "secret"));
    let (_, a) = sign_up_step(s, SignUpEvent::EmailLookedUp(Ok(Some(row(1, "a@b.c", "x", "h", false)))));
    assert_eq!(rejected(a), validation("Email is already registered"));
}

#[test]
fn sign_up_requires_fields() {
    let (s, a) = sign_up_start(new_user("", "u", "p"));
    assert!(matches!(s, SignUpState::Finished));
    assert_eq!(rejected(a), validation("`email` is required"));
    assert_eq!(rejected(sign_up_start(new_user("e", "", "")).1), validation("`username` is required"));
    assert_eq!(rejected(sign_up_start(new_user("e", "u", "")).1), validation("`password` is required"));
}

#[test]
fn sign_up_new_user_flow() {
    let (s, a) = sign_up_start(new_user("a@b.c", "alice", "secret"));
    assert!(matches!(a, SignUpAction::LookUpEmail(ref e) if e == "a@b.c"));
    let (s, a) = sign_up_step(s, SignUpEvent::EmailLookedUp(Ok(None)));
    assert!(matches!(a, SignUpAction::CheckUsername(ref u) if u == "alice"));
    let (s, a) = sign_up_step(s, SignUpEvent::UsernameChecked(Ok(false)));
    let inserted = match a {
        SignUpAction::Insert(u) => u,
        other => panic!("{:?}", other),
    };
    assert_eq!((inserted.email.as_str(), inserted.username.as_str()), ("a@b.c", "alice"));
    assert!(verify_password("secret", &inserted.password));
    let (s, a) = sign_up_step(s, SignUpEvent::Written(Ok(1)));
    assert!(matches!(s, SignUpState::Reloading));
    assert!(matches!(a, SignUpAction::LookUpEmail(ref e) if e == "a@b.c"));
    let (s, a) = sign_up_step(s, SignUpEvent::EmailLookedUp(Ok(Some(row(9, " a@b.c ", "alice", &inserted.password, false)))));
    assert!(matches!(s, SignUpState::Finished));
    match a {
        SignUpAction::Respond(u) => assert_eq!(
            u,
            User { uid: 9, email: "a@b.c".to_string(), username: "alice".to_string(), nickname: None, bio: None, image: None, token: None }
        ),
        other => panic!("{:?}", other),
    }
}

#[test]
fn sign_up_refusals() {
    let (s, _) = sign_up_start(new_user("a@b.c", "alice", "secret"));
    let (_, a) = sign_up_step(s, SignUpEvent::EmailLookedUp(Ok(Some(row(1, "a@b.c", "x", "h", false)))));
    assert_eq!(rejected(a), validation("Email is already registered"));

    let (s, _) = sign_up_start(new_user("a@b.c", "alice", "secret"));
    let (s, _) = sign_up_step(s, SignUpEvent::EmailLookedUp(Ok(None)));
    let (_, a) = sign_up_step(s, SignUpEvent::UsernameChecked(Ok(true)));
    assert_eq!(rejected(a), validation("Username already exists"));

    let (s, _) = sign_up_start(new_user("a@b.c", "alice", "secret"));
    let (_, a) = sign_up_step(s, SignUpEvent::EmailLookedUp(Err("connection refused".to_string())));
    assert_eq!(rejected(a), internal("connection refused"));

    let (s, _) = sign_up_start(new_user("a@b.c", "alice", "secret"));
    let (s, _) = sign_up_step(s, SignUpEvent::EmailLookedUp(Ok(None)));
    let (s, _) = sign_up_step(s, SignUpEvent::UsernameChecked(Ok(false)));
    let (_, a) = sign_up_step(s, SignUpEvent::Written(Err("duplicate key".to_string())));
    assert_eq!(rejected(a), internal("duplicate key"));
}

#[test]
fn sign_up_reopens_closed_account() {
    let (s, _) = sign_up_start(new_user("a@b.c", "alice2", "secret"));
    let (s, a) = sign_up_step(s, SignUpEvent::EmailLookedUp(Ok(Some(row(5, "a@b.c", "alice", "stored", true)))));
    assert!(matches!(a, SignUpAction::CheckUsername(ref u) if u == "alice2"));
    let (_, a2) = {
        let (s2, _) = sign_up_start(new_user("a@b.c", "alice2", "secret"));
        let (s2, _) = sign_up_step(s2, SignUpEvent::EmailLookedUp(Ok(Some(row(5, "a@b.c", "alice", "stored", true)))));
        sign_up_step(s2, SignUpEvent::UsernameChecked(Ok(true)))
    };
    assert_eq!(rejected(a2), validation("Username already exists"));
    let (s, a) = sign_up_step(s, SignUpEvent::UsernameChecked(Ok(false)));
    let update = match a {
        SignUpAction::Update(u) => u,
        other => panic!("{:?}", other),
    };
    assert_eq!(update.uid, 5);
    assert_eq!(update.email.as_deref(), Some("a@b.c"));
    assert_eq!(update.username.as_deref(), Some("alice2"));
    assert_eq!(update.nickname.as_deref(), Some(""));
    assert_eq!(update.bio.as_deref(), Some(""));
    assert_eq!(update.image.as_deref(), Some(""));
    assert_eq!(update.deleted, Some(false));
    assert!(verify_password("stored", update.password.as_deref().unwrap()));
    let (s, a) = sign_up_step(s, SignUpEvent::Written(Ok(1)));
    assert!(matches!(s, SignUpState::Finished));
    match a {
        SignUpAction::Respond(u) => assert_eq!(
            u,
            User { uid: 5, email: "a@b.c".to_string(), username: "alice2".to_string(), nickname: None, bio: None, image: None, token: None }
        ),
        other => panic!("{:?}", other),
    }
}

fn user(uid: u32, username: &str) -> User {
    User {
        uid,
        email: "e".to_string(),
        username: username.to_string(),
        nickname: None,
        bio: Some("hi".to_string()),
        image: Some("img".to_string()),
        token: None,
    }
}

fn profile(username: &str, following: bool) -> Profile {
    Profile { username: username.to_string(), bio: Some("hi".to_string()), image: Some("img".to_string()), following }
}

#[test]
fn profile_decisions() {
    assert!(matches!(profile_after_lookup("bob", Ok(None), Some(1)), ProfileNext::Respond(None)));
    match profile_after_lookup("bob", Ok(Some(user(2, "bob"))), None) {
        ProfileNext::Respond(Some(p)) => assert_eq!(p, profile("bob", false)),
        other => panic!("{:?}", other),
    }
    match profile_after_lookup("bob", Ok(Some(user(2, "bob"))), Some(1)) {
        ProfileNext::LookUpFollow { key, user: u } => {
            assert_eq!(key, UserFollow { uid: 1, follow_uid: 2 });
            assert_eq!(u.uid, 2);
            assert_eq!(profile_after_follow("bob", u.clone(), Ok(Some(UserFollow { uid: 1, follow_uid: 2 }))), Ok(profile("bob", true)));
            assert_eq!(profile_after_follow("bob", u.clone(), Ok(None)), Ok(profile("bob", false)));
            assert_eq!(profile_after_follow("bob", u, Err("x".to_string())), Err(internal("x")));
        }
        other => panic!("{:?}", other),
    }
    assert!(matches!(profile_after_lookup("bob", Err("down".to_string()), None), ProfileNext::Reject(ref e) if *e == internal("down")));
}

#[test]
fn follow_decisions() {
    assert_eq!(target_user(Ok(None)), Err(validation("The user does not exist")));
    assert_eq!(target_user(Err("x".to_string())), Err(internal("x")));
    let u = target_user(Ok(Some(user(2, "bob")))).unwrap();
    assert_eq!(follow_record(1, &u), UserFollow { uid: 1, follow_uid: 2 });
    assert_eq!(follow_done("bob", u.clone(), Ok(1)), Ok(profile("bob", true)));
    assert_eq!(follow_done("bob", u.clone(), Ok(0)), Err(internal("Follow may not be successful")));
    assert_eq!(follow_done("bob", u.clone(), Err("y".to_string())), Err(internal("y")));
    assert_eq!(unfollow_done("bob", u.clone(), Ok(1)), Ok(profile("bob", true)));
    assert_eq!(unfollow_done("bob", u.clone(), Ok(0)), Err(validation("Not following the user")));
    assert_eq!(unfollow_done("bob", u, Err("z".to_string())), Err(internal("z")));
}

#[test]
fn user_decisions() {
    assert_eq!(user_info(Ok(None)), Ok(None));
    assert_eq!(user_info(Ok(Some(user(1, "a")))), Ok(Some(user(1, "a"))));
    assert_eq!(user_info(Err("x".to_string())), Err(internal("x")));
    let mut with_token = user(1, "a");
    with_token.token = Some("jwt".to_string());
    assert_eq!(current_user(Ok(Some(user(1, "a"))), "jwt".to_string()), Ok(with_token));
    assert_eq!(current_user(Err("x".to_string()), "jwt".to_string()), Err(internal("x")));
    let change = UpdateUser { uid: 0, email: None, username: Some("b".to_string()), nickname: None, password: None, bio: None, image: None, deleted: None };
    assert_eq!(update_for(change.clone(), 7), UpdateUser { uid: 7, ..change });
    assert_eq!(update_written(Ok(1)), Ok(()));
    assert_eq!(update_written(Ok(0)), Err(internal("Update may not be successful")));
    assert_eq!(update_written(Err("w".to_string())), Err(internal("w")));
    assert_eq!(updated_user(Ok(Some(user(7, "b")))), Ok(user(7, "b")));
    assert_eq!(updated_user(Err("r".to_string())), Err(internal("r")));
    assert_eq!(db_failure("m".to_string()), internal("m"));
}

#[test]
fn username_count_and_login_trim() {
    assert!(username_taken(1));
    assert!(!username_taken(0));
    assert!(username_taken(2));
    assert!(username_taken(u32::MAX));
    let c = LoginCredentials { email: "  a@b.c\n".to_string(), password: "\tpw ".to_string() };
    assert_eq!(c.trimmed(), LoginCredentials { email: "a@b.c".to_string(), password: "pw".to_string() });
}
