//! Phone-and-password authentication: salted password hashing, signed
//! expiring tokens, a retry lockout policy and the orchestration of
//! sign-up, sign-in and token checks over an abstract account store.

pub mod model;
pub mod hasher;
pub mod token;
pub mod request;
pub mod lockout;
pub mod store;
pub mod handlers;
