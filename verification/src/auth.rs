//! Obtaining the credential of the remote service: the steps from what is stored to a
//! token that the service accepts.

use crate::client::{OpenAi, OpenAiToken};
use crate::global::AuthState;
use vstd::prelude::*;

verus! {

/// What is said when a stored token is used by a command that sets a project up.
pub const USING_STORED: &'static str = "Using OpenAI API token stored in state";

/// What is said when a token was accepted and kept.
pub const VERIFIED_AND_SAVED: &'static str = "OpenAI API token verified & saved";

/// What is said when the service did not accept a token.
pub const TOKEN_INVALID: &'static str = "Token is invalid!";

/// What is said when no token is to be had.
pub const NO_TOKEN: &'static str = "No token provided";

/// The credential that a command works with.
#[derive(Debug)]
pub struct Auth {
    pub openai: OpenAi,
}

/// What has happened while the credential is obtained.
#[derive(Debug)]
pub enum AuthEvent {
    /// The stored token was looked for and tried out; a client came of it, or none.
    Detected { stored: Option<OpenAi> },
    /// The user was asked for a token, and entered one, or none.
    Entered { token: Option<OpenAiToken> },
    /// The token entered was tried out; a client came of it, or none.
    Verified { client: Option<OpenAi> },
    /// The user was asked whether to try again.
    Answered { again: bool },
}

/// What is to be done next.
#[derive(Debug)]
pub enum AuthStep {
    /// The credential is there; the notice, if any, is shown.
    Done { auth: Auth, notice: Option<&'static str> },
    /// The credential is there and is to be kept in the shared state; the message is
    /// shown once that is done.
    Keep { auth: Auth, message: &'static str },
    /// The user is to be asked for a token.
    AskToken,
    /// The token is to be tried out.
    Verify { token: OpenAiToken },
    /// The message is shown as a warning, and the user is asked whether to try again.
    AskAgain { warning: &'static str },
    /// The message is shown as a warning, and the command ends without success.
    GiveUp { warning: &'static str },
}

impl Auth {
    /// The next step towards the credential. A stored token that the service accepts is
    /// used, and a command that sets a project up says so. Else the user is asked for
    /// one, which is tried out; one that is accepted is kept, and after one that is not,
    /// the user may try again. Without a token there is no going on.
    pub fn ensure(state: AuthState, event: AuthEvent) -> (r: AuthStep)
        ensures
            match event {
                AuthEvent::Detected { stored: Some(c) } => {
                    &&& r matches AuthStep::Done { auth, notice }
                    &&& auth.openai == c
                    &&& match notice {
                        Some(m) => state == AuthState::New && m@ == USING_STORED@,
                        None => state == AuthState::Existing,
                    }
                },
                AuthEvent::Detected { stored: None } => r is AskToken,
                AuthEvent::Entered { token: Some(t) } => r matches AuthStep::Verify { token }
                    && token == t,
                AuthEvent::Entered { token: None } => r matches AuthStep::GiveUp { warning }
                    && warning@ == NO_TOKEN@,
                AuthEvent::Verified { client: Some(c) } => {
                    &&& r matches AuthStep::Keep { auth, message }
                    &&& auth.openai == c
                    &&& message@ == VERIFIED_AND_SAVED@
                },
                AuthEvent::Verified { client: None } => r matches AuthStep::AskAgain { warning }
                    && warning@ == TOKEN_INVALID@,
                AuthEvent::Answered { again } => if again {
                    r is AskToken
                } else {
                    r matches AuthStep::GiveUp { warning } && warning@ == NO_TOKEN@
                },
            },
    {
        match event {
            AuthEvent::Detected { stored } => match stored {
                Some(openai) => {
                    let notice = match state {
                        AuthState::New => Some(USING_STORED),
                        AuthState::Existing => None,
                    };
                    AuthStep::Done { auth: Auth { openai }, notice }
                },
                None => AuthStep::AskToken,
            },
            AuthEvent::Entered { token } => match token {
                Some(token) => AuthStep::Verify { token },
                None => AuthStep::GiveUp { warning: NO_TOKEN },
            },
            AuthEvent::Verified { client } => match client {
                Some(openai) => AuthStep::Keep { auth: Auth { openai }, message: VERIFIED_AND_SAVED },
                None => AuthStep::AskAgain { warning: TOKEN_INVALID },
            },
            AuthEvent::Answered { again } => {
                if again {
                    AuthStep::AskToken
                } else {
                    AuthStep::GiveUp { warning: NO_TOKEN }
                }
            },
        }
    }
}

} // verus!
