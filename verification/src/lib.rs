//! Core of a RealWorld-style user service: the data model, the rules that
//! decide each request, password hashing, authorization-header parsing and
//! the JSON bodies of responses and errors.

pub mod text;
pub mod model;
pub mod error;
pub mod password;
pub mod token;
pub mod signup;
pub mod handlers;
