//! The single error type of the library: a kind tag and a readable message.

use vstd::prelude::*;
use vstd::string::*;

verus! {

/// Why an operation was refused.
#[derive(Clone, Copy, Debug, PartialEq, Eq, Structural)]
pub enum ErrorKind {
    /// The object identifier is empty.
    InvalidIdentifier,
    /// The layout name is not one the registry knows.
    UnsupportedLayout,
    /// The layout configuration breaks a structural constraint.
    InvalidLayoutConfig,
    /// The storage root already carries a repository marker.
    AlreadyInitialized,
    /// The storage root exists and holds content that is not a repository.
    RootNotEmpty,
    /// An object root would land on a path that is already taken.
    PathCollision,
    /// The filesystem refused an operation.
    IoFailure,
}

/// The tag under which a kind is reported.
pub open spec fn kind_label(kind: ErrorKind) -> Seq<char> {
    match kind {
        ErrorKind::InvalidIdentifier => "InvalidIdentifier"@,
        ErrorKind::UnsupportedLayout => "UnsupportedLayout"@,
        ErrorKind::InvalidLayoutConfig => "InvalidLayoutConfig"@,
        ErrorKind::AlreadyInitialized => "AlreadyInitialized"@,
        ErrorKind::RootNotEmpty => "RootNotEmpty"@,
        ErrorKind::PathCollision => "PathCollision"@,
        ErrorKind::IoFailure => "IoFailure"@,
    }
}

impl ErrorKind {
    /// The tag under which this kind is reported.
    pub fn label(&self) -> (l: &'static str)
        ensures
            l@ == kind_label(*self),
    {
        match self {
            ErrorKind::InvalidIdentifier => "InvalidIdentifier",
            ErrorKind::UnsupportedLayout => "UnsupportedLayout",
            ErrorKind::InvalidLayoutConfig => "InvalidLayoutConfig",
            ErrorKind::AlreadyInitialized => "AlreadyInitialized",
            ErrorKind::RootNotEmpty => "RootNotEmpty",
            ErrorKind::PathCollision => "PathCollision",
            ErrorKind::IoFailure => "IoFailure",
        }
    }
}

/// An error as it crosses the library boundary.
#[derive(Clone, Debug, PartialEq, Eq)]
pub struct PyRocflError {
    pub kind: ErrorKind,
    pub message: String,
}

impl PyRocflError {
    /// Builds an error of the given kind with the given message.
    pub fn new(kind: ErrorKind, message: &str) -> (e: Self)
        ensures
            e.kind == kind,
            e.message@ == message@,
    {
        PyRocflError { kind, message: message.to_owned() }
    }
}

/// The error type of the `rocfl` crate, carried through as it is.
#[verifier::external_type_specification]
#[verifier::external_body]
pub struct ExRocflError(rocfl::ocfl::RocflError);

/// Whether `text` is what the `rocfl` crate displays for an error: whatever
/// string `to_string` gives for it holds exactly these characters.
pub open spec fn displays_as(error: rocfl::ocfl::RocflError, text: Seq<char>) -> bool {
    forall|s: String| #[trigger]
        to_string_from_display_ensures::<rocfl::ocfl::RocflError>(&error, s) ==> s@ == text
}

/// Builds the `General` variant of `rocfl::ocfl::RocflError` around a message.
///
/// Trusted: the crate displays that variant as its message and nothing else,
/// so the error displays as `message`.
#[verifier::external_body]
fn general_error(message: &str) -> (e: rocfl::ocfl::RocflError)
    ensures
        displays_as(e, message@),
{
    rocfl::ocfl::RocflError::General(message.to_string())
}

/// The text of the error that [`propagate_rocfl_error`] raises.
pub open spec fn raised_message() -> Seq<char> {
    "rocfl error"@
}

/// Fails with a general error of the `rocfl` crate that displays as
/// [`raised_message`].
fn raise_rocfl_error() -> (r: Result<(), rocfl::ocfl::RocflError>)
    ensures
        r matches Err(e) && displays_as(e, raised_message()),
{
    Err(general_error("rocfl error"))
}

impl PyRocflError {
    /// Converts an error of the `rocfl` crate: the kind is an I/O failure,
    /// the message is the text that the crate displays for the error.
    pub fn from_rocfl(error: rocfl::ocfl::RocflError) -> (e: Self)
        ensures
            e.kind == ErrorKind::IoFailure,
            to_string_from_display_ensures::<rocfl::ocfl::RocflError>(&error, e.message),
            forall|text: Seq<char>| displays_as(error, text) ==> e.message@ == text,
    {
        PyRocflError { kind: ErrorKind::IoFailure, message: error.to_string() }
    }

    /// The message, with the kind in front.
    pub fn describe(&self) -> (text: String)
        ensures
            text@ == kind_label(self.kind) + ": "@ + self.message@,
    {
        let mut text = String::from_str(self.kind.label());
        text.append(": ");
        text.append(self.message.as_str());
        text
    }
}

/// Raises a general error of the `rocfl` crate and hands it on converted. It
/// always fails: the kind is an I/O failure, and the message is the text of
/// the error that was raised, unchanged.
pub fn propagate_rocfl_error() -> (r: Result<(), PyRocflError>)
    ensures
        r matches Err(e) && e.kind == ErrorKind::IoFailure && e.message@ == raised_message(),
{
    match raise_rocfl_error() {
        Ok(()) => Ok(()),
        Err(error) => Err(PyRocflError::from_rocfl(error)),
    }
}

} // verus!
