//! The data that the service reads, stores and answers with.

use vstd::prelude::*;
use crate::text::{json_quote, json_quoted};

verus! {

/// Settings of the service: where it listens, where its database is, and
/// the issuer written into the tokens it signs.
#[allow(non_snake_case)]
#[derive(Clone, Debug, PartialEq, Eq)]
pub struct ApplicationConfig {
    /// Host the HTTP server binds to.
    pub BIND_HOST: String,
    /// Port the HTTP server binds to.
    pub PORT: u32,
    /// Database URL.
    pub DB_URL: String,
    /// Secret for signing tokens.
    pub TOKEN_SECRET: String,
    /// Issuer written into signed tokens.
    pub TOKEN_ISSUER: String,
}

/// The payload of an access token.
#[derive(Clone, Debug, PartialEq, Eq)]
pub struct Claim {
    /// Expiry, as seconds since the Unix epoch.
    pub exp: usize,
    /// Issuer.
    pub iss: String,
    /// The user's id.
    pub id: u32,
    /// The user's email address.
    pub email: String,
}

/// The two parts of an `Authorization` header: `<scheme> <token>`.
#[derive(Clone, Debug, PartialEq, Eq)]
pub struct RealWorldToken {
    pub scheme: String,
    pub token: String,
}

/// A JSON response body.
#[derive(Clone, Debug, PartialEq, Eq)]
pub struct ResponseData {
    pub body: String,
}

/// `{"<property_name>":<data_json>}`.
pub open spec fn response_body(property_name: Seq<char>, data_json: Seq<char>) -> Seq<char> {
    seq!['{'] + json_quoted(property_name) + seq![':'] + data_json + seq!['}']
}

impl ResponseData {
    /// Wraps the JSON text of a value under one property name:
    /// `{"<property_name>":<data_json>}`.
    pub fn new(property_name: &str, data_json: &str) -> (r: Self)
        ensures
            r.body@ == response_body(property_name@, data_json@),
    {
        let open = String::from_str("{");
        let colon = String::from_str(":");
        let close = String::from_str("}");
        proof {
            reveal_strlit("{");
            reveal_strlit(":");
            reveal_strlit("}");
        }
        let name = json_quote(property_name);
        let body = open.concat(name.as_str()).concat(colon.as_str()).concat(data_json).concat(
            close.as_str(),
        );
        proof {
            assert(body@ =~= response_body(property_name@, data_json@));
        }
        ResponseData { body }
    }
}

/// A row of the `user` table.
#[derive(Clone, Debug, PartialEq, Eq)]
pub struct UserTable {
    pub uid: u32,
    pub email: String,
    pub username: String,
    /// PHC string of the password's hash.
    pub password: String,
    pub nickname: Option<String>,
    pub bio: Option<String>,
    pub image: Option<String>,
    /// Creation time, seconds since the Unix epoch.
    pub created_time: i64,
    /// Time of the last update, seconds since the Unix epoch.
    pub updated_time: i64,
    /// Whether the account was closed.
    pub deleted: bool,
}

/// A user as the API shows it.
#[derive(Clone, Debug, PartialEq, Eq)]
pub struct User {
    pub uid: u32,
    pub email: String,
    pub username: String,
    pub nickname: Option<String>,
    pub bio: Option<String>,
    pub image: Option<String>,
    pub token: Option<String>,
}

/// A registration request.
#[derive(Clone, Debug, PartialEq, Eq)]
pub struct NewUser {
    pub email: String,
    pub username: String,
    pub password: String,
}

/// A change to a user's row; `None` fields are written as SQL `NULL`.
#[derive(Clone, Debug, PartialEq, Eq)]
pub struct UpdateUser {
    pub uid: u32,
    pub email: Option<String>,
    pub username: Option<String>,
    pub nickname: Option<String>,
    pub password: Option<String>,
    pub bio: Option<String>,
    pub image: Option<String>,
    pub deleted: Option<bool>,
}

/// A login request.
#[derive(Clone, Debug, PartialEq, Eq)]
pub struct LoginCredentials {
    pub email: String,
    pub password: String,
}

/// `{"user": <LoginCredentials>}`.
#[derive(Clone, Debug, PartialEq, Eq)]
pub struct LoginPayload {
    pub user: LoginCredentials,
}

/// `{"user": <NewUser>}`.
#[derive(Clone, Debug, PartialEq, Eq)]
pub struct SignUpPayload {
    pub user: NewUser,
}

/// `{"user": <UpdateUser>}`.
#[derive(Clone, Debug, PartialEq, Eq)]
pub struct UpdateUserPayload {
    pub user: UpdateUser,
}

/// A user's public profile, as seen by the requester.
#[derive(Clone, Debug, PartialEq, Eq)]
pub struct Profile {
    pub username: String,
    pub bio: Option<String>,
    pub image: Option<String>,
    pub following: bool,
}

/// `uid` follows `follow_uid`.
#[derive(Clone, Debug, PartialEq, Eq)]
pub struct UserFollow {
    pub uid: u32,
    pub follow_uid: u32,
}

} // verus!
