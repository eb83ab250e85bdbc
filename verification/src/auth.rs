//! Sign-in state as the authentication flow reports it.

use vstd::prelude::*;

verus! {

/// The state of the device-code sign-in flow.
#[derive(Debug, PartialEq, Eq)]
pub enum SignInStatus {
    /// Nobody is signed in.
    SignedOut,
    /// A sign-in is under way; the prompt and device code are shown to the
    /// user.
    SigningIn { prompt: String, user_code: String },
    /// A user is signed in.
    SignedIn { username: String },
    /// Authentication failed.
    Unauthorized,
}

impl Clone for SignInStatus {
    fn clone(&self) -> (res: Self)
        ensures
            res == *self,
    {
        match self {
            SignInStatus::SignedOut => SignInStatus::SignedOut,
            SignInStatus::SigningIn { prompt, user_code } => SignInStatus::SigningIn {
                prompt: prompt.clone(),
                user_code: user_code.clone(),
            },
            SignInStatus::SignedIn { username } => SignInStatus::SignedIn {
                username: username.clone(),
            },
            SignInStatus::Unauthorized => SignInStatus::Unauthorized,
        }
    }
}

impl SignInStatus {
    /// True exactly when a user is signed in.
    pub fn is_authorized(&self) -> (r: bool)
        ensures
            r == (self is SignedIn),
    {
        matches!(self, SignInStatus::SignedIn { .. })
    }

    /// True exactly when a sign-in is under way.
    pub fn is_signing_in(&self) -> (r: bool)
        ensures
            r == (self is SigningIn),
    {
        matches!(self, SignInStatus::SigningIn { .. })
    }
}

} // verus!
