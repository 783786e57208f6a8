//! The errors of the shell.

use vstd::prelude::*;

verus! {

/// The class of an error.
#[derive(Clone, Copy, Debug, PartialEq, Eq, Structural)]
pub enum ErrorKind {
    NotFound,
    InvalidInput,
    InvalidData,
    UnexpectedEof,
    AddrInUse,
    ConnectionRefused,
    Interrupted,
    TimedOut,
    Other,
}

/// An error: its class, and what to tell the user.
#[derive(Debug)]
pub struct ShellError {
    pub kind: ErrorKind,
    pub message: String,
}

/// An error as a value.
pub struct ErrorView {
    pub kind: ErrorKind,
    pub message: Seq<char>,
}

impl View for ShellError {
    type V = ErrorView;

    open spec fn view(&self) -> ErrorView {
        ErrorView { kind: self.kind, message: self.message@ }
    }
}

impl ShellError {
    pub fn new(kind: ErrorKind, message: &str) -> (e: ShellError)
        ensures
            e@ == (ErrorView { kind, message: message@ }),
    {
        ShellError { kind, message: message.to_owned() }
    }
}

} // verus!
