//! The lifecycle status of the completion service behind the provider.

use vstd::prelude::*;
use vstd::string::StringExecFns;

verus! {

/// Where the backing completion service currently stands, from first start
/// to an authenticated session.
#[derive(Debug, PartialEq, Eq)]
pub enum CopilotV2Status {
    /// The service is starting up.
    Starting,
    /// The service binary is downloading.
    Downloading,
    /// The service failed to start.
    Error(String),
    /// Nobody is signed in.
    SignedOut,
    /// A sign-in is under way; the prompt is shown to the user.
    SigningIn { prompt: String },
    /// A user is signed in and the service is ready.
    SignedIn { username: String },
    /// Authentication failed.
    Unauthorized,
}

impl Clone for CopilotV2Status {
    fn clone(&self) -> (res: Self)
        ensures
            res == *self,
    {
        match self {
            CopilotV2Status::Starting => CopilotV2Status::Starting,
            CopilotV2Status::Downloading => CopilotV2Status::Downloading,
            CopilotV2Status::Error(e) => CopilotV2Status::Error(e.clone()),
            CopilotV2Status::SignedOut => CopilotV2Status::SignedOut,
            CopilotV2Status::SigningIn { prompt } => CopilotV2Status::SigningIn {
                prompt: prompt.clone(),
            },
            CopilotV2Status::SignedIn { username } => CopilotV2Status::SignedIn {
                username: username.clone(),
            },
            CopilotV2Status::Unauthorized => CopilotV2Status::Unauthorized,
        }
    }
}

impl CopilotV2Status {
    /// True exactly when a user is signed in.
    pub fn is_authorized(&self) -> (r: bool)
        ensures
            r == (self is SignedIn),
    {
        matches!(self, CopilotV2Status::SignedIn { .. })
    }

    /// True exactly when a sign-in is under way.
    pub fn is_signing_in(&self) -> (r: bool)
        ensures
            r == (self is SigningIn),
    {
        matches!(self, CopilotV2Status::SigningIn { .. })
    }

    /// A short human-readable label for the status.
    pub fn describe(&self) -> (r: String)
        ensures
            match self {
                CopilotV2Status::Starting => r@ == "starting"@,
                CopilotV2Status::Downloading => r@ == "downloading"@,
                CopilotV2Status::Error(e) => r@ == "error: "@ + e@,
                CopilotV2Status::SignedOut => r@ == "signed out"@,
                CopilotV2Status::SigningIn { .. } => r@ == "signing in"@,
                CopilotV2Status::SignedIn { username } => r@ == "signed in as "@ + username@,
                CopilotV2Status::Unauthorized => r@ == "unauthorized"@,
            },
    {
        match self {
            CopilotV2Status::Starting => "starting".to_owned(),
            CopilotV2Status::Downloading => "downloading".to_owned(),
            CopilotV2Status::Error(e) => {
                let mut r = "error: ".to_owned();
                r.append(e.as_str());
                r
            },
            CopilotV2Status::SignedOut => "signed out".to_owned(),
            CopilotV2Status::SigningIn { .. } => "signing in".to_owned(),
            CopilotV2Status::SignedIn { username } => {
                let mut r = "signed in as ".to_owned();
                r.append(username.as_str());
                r
            },
            CopilotV2Status::Unauthorized => "unauthorized".to_owned(),
        }
    }
}

} // verus!
