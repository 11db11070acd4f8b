//! What can go wrong before the server runs.

use crate::php::{PhpClass, PhpException};
use crate::text::{append_integer, integer_text};
use vstd::prelude::*;
use vstd::string::*;

verus! {

/// An error of the server.
#[derive(Debug)]
pub enum QuicheError {
    /// The runtime or a socket could not be set up; the text is the system's.
    RuntimeInit(String),
    Status { code: i32, message: String },
    InvalidArg(String),
    InvalidUri(String),
    CallbackFailed(String),
}

/// What kind of error kept a server from being bound.
#[derive(Clone, Copy, PartialEq, Eq, Structural, Debug)]
pub enum BindErrorKind {
    /// What was given cannot be bound.
    InvalidInput,
    /// The system refused.
    System,
}

/// What kept a server from being bound.
#[derive(Debug)]
pub struct BindError {
    pub kind: BindErrorKind,
    pub message: String,
}

impl QuicheError {
    /// The text of the error.
    pub open spec fn text(self) -> Seq<char> {
        match self {
            QuicheError::RuntimeInit(e) => "failed to initialize tokio runtime: "@ + e@,
            QuicheError::Status { code, message } => "gRPC status "@ + integer_text(code as int)
                + ": "@ + message@,
            QuicheError::InvalidArg(e) => "invalid argument: "@ + e@,
            QuicheError::InvalidUri(e) => "invalid URI: "@ + e@,
            QuicheError::CallbackFailed(e) => "callback failed: "@ + e@,
        }
    }

    /// The text of the error.
    pub fn to_text(&self) -> (r: String)
        ensures
            r@ == self.text(),
    {
        let mut out: String = String::new();
        match self {
            QuicheError::RuntimeInit(e) => {
                out.append("failed to initialize tokio runtime: ");
                out.append(e.as_str());
            },
            QuicheError::Status { code, message } => {
                out.append("gRPC status ");
                append_integer(&mut out, *code as i64);
                out.append(": ");
                out.append(message.as_str());
            },
            QuicheError::InvalidArg(e) => {
                out.append("invalid argument: ");
                out.append(e.as_str());
            },
            QuicheError::InvalidUri(e) => {
                out.append("invalid URI: ");
                out.append(e.as_str());
            },
            QuicheError::CallbackFailed(e) => {
                out.append("callback failed: ");
                out.append(e.as_str());
            },
        }
        assert(out@ =~= self.text());
        out
    }

    /// The exception that a script gets for the error.
    pub fn to_exception(&self) -> (r: PhpException)
        ensures
            r.says(PhpClass::Exception, self.text()),
    {
        PhpException { class: PhpClass::Exception, message: self.to_text() }
    }
}

/// An error's text ends with what the error holds, whole, behind words that tell its kind.
pub proof fn law_error_text_holds_the_cause(e: String, code: i32)
    ensures
        QuicheError::RuntimeInit(e).text() == "failed to initialize tokio runtime: "@ + e@,
        QuicheError::InvalidArg(e).text() == "invalid argument: "@ + e@,
        QuicheError::InvalidUri(e).text() == "invalid URI: "@ + e@,
        QuicheError::CallbackFailed(e).text() == "callback failed: "@ + e@,
        (QuicheError::Status { code, message: e }).text() == "gRPC status "@ + integer_text(
            code as int,
        ) + (": "@ + e@),
{
    assert((QuicheError::Status { code, message: e }).text() =~= "gRPC status "@ + integer_text(
        code as int,
    ) + (": "@ + e@));
}

} // verus!
