//! Request and response payloads exchanged with the completion service.
//!
//! Each request kind is a bare marker type; its parameter and result
//! payloads are plain data. The transport that carries them is not part of
//! this crate.

use vstd::prelude::*;

verus! {

/// A position in a document, zero-based in lines and characters.
#[derive(Clone, Copy, Debug, PartialEq, Eq, Structural)]
pub struct Position {
    pub line: u32,
    pub character: u32,
}

/// A half-open span between two document positions.
#[derive(Clone, Copy, Debug, PartialEq, Eq, Structural)]
pub struct TextRange {
    pub start: Position,
    pub end: Position,
}

// Authentication requests
/// Marker for the status-check request.
pub struct CheckStatus;

pub struct CheckStatusParams {}

pub struct CheckStatusResult {
    pub status: String,
    pub user: Option<String>,
}

/// Marker for the request that starts a device-code sign-in.
pub struct SignInInitiate;

pub struct SignInInitiateParams {}

pub struct SignInInitiateResult {
    pub status: String,
    pub user_code: String,
    pub verification_uri: String,
    pub expires_in: Option<u64>,
    pub interval: Option<u64>,
}

/// Marker for the request that confirms a device-code sign-in.
pub struct SignInConfirm;

pub struct SignInConfirmParams {
    pub user_code: String,
}

pub struct SignInConfirmResult {
    pub status: String,
    pub user: String,
}

/// Marker for the sign-out request.
pub struct SignOut;

pub struct SignOutParams {}

pub struct SignOutResult {
    pub status: String,
}

// Completion requests
/// Marker for the completion request.
pub struct GetCompletions;

pub struct GetCompletionsParams {
    pub doc: GetCompletionsDocument,
}

pub struct GetCompletionsDocument {
    pub uri: String,
    pub version: i32,
    pub position: Position,
    pub insert_spaces: bool,
    pub tab_size: u32,
    pub language_id: String,
}

/// A completion as the service reports it: replacement text for a span of
/// the document, with an optional display form.
#[derive(Debug)]
pub struct Completion {
    pub text: String,
    pub range: TextRange,
    pub display_text: Option<String>,
}

impl Clone for Completion {
    fn clone(&self) -> (res: Self)
        ensures
            res == *self,
    {
        Completion {
            text: self.text.clone(),
            range: self.range,
            display_text: match &self.display_text {
                Some(d) => Some(d.clone()),
                None => None,
            },
        }
    }
}

impl Default for Completion {
    /// An empty completion at the origin.
    fn default() -> (res: Self)
        ensures
            res.text@ == Seq::<char>::empty(),
            res.range == (TextRange {
                start: Position { line: 0, character: 0 },
                end: Position { line: 0, character: 0 },
            }),
            res.display_text is None,
    {
        Completion {
            text: String::new(),
            range: TextRange {
                start: Position { line: 0, character: 0 },
                end: Position { line: 0, character: 0 },
            },
            display_text: None,
        }
    }
}

pub struct GetCompletionsResult {
    pub completions: Vec<Completion>,
}

/// Marker for the cycling variant of the completion request.
pub struct GetCompletionsCycling;

pub struct GetCompletionsCyclingParams {
    pub doc: GetCompletionsDocument,
}

// Feedback requests
/// Marker for the notification that a completion was accepted.
pub struct NotifyAccepted;

pub struct NotifyAcceptedParams {
    pub uuid: String,
}

/// Marker for the notification that completions were rejected.
pub struct NotifyRejected;

pub struct NotifyRejectedParams {
    pub uuids: Vec<String>,
}

// Configuration requests
/// Marker for the request that announces the editor to the service.
pub struct SetEditorInfo;

pub struct SetEditorInfoParams {
    pub editor_info: EditorInfo,
}

pub struct EditorInfo {
    pub name: String,
    pub version: String,
}

} // verus!
