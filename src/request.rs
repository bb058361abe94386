use vstd::prelude::*;

verus! {

/// A request to create an account.
pub struct SignUp {
    pub phone: String,
    pub password: String,
}

/// A request to sign in.
pub struct SignIn {
    pub phone: String,
    pub password: String,
}

/// A request to check a token.
pub struct VerifyToken(pub String);

/// The shape of a password change request; no flow handles it yet.
pub struct ChangePassword {
    pub phone: String,
    pub old_password: String,
    pub new_password: String,
}

} // verus!
