//! The canonical error taxonomy. Every provider-native failure is translated
//! into an [`Error`] at the adapter boundary; no raw provider error type
//! crosses into the core interface.

use vstd::prelude::*;
use vstd::string::*;

verus! {

/// Provider-independent classification of a failure.
#[derive(Debug, Clone, Copy, PartialEq, Eq, Structural)]
pub enum ErrorKind {
    NotFound,
    Serialization,
    Deserialization,
    Authentication,
    Other,
}

/// A canonical error: a human-readable message, a kind, and, where the error
/// was derived from an HTTP response, the numeric status code.
#[derive(Debug, Clone, PartialEq)]
pub struct Error {
    pub message: String,
    pub kind: ErrorKind,
    pub status: Option<u16>,
}

impl Error {
    pub fn not_found(message: &str) -> (e: Error)
        ensures
            e.message@ == message@,
            e.kind == ErrorKind::NotFound,
            e.status is None,
    {
        Error { message: String::from_str(message), kind: ErrorKind::NotFound, status: None }
    }

    pub fn serialization(message: &str) -> (e: Error)
        ensures
            e.message@ == message@,
            e.kind == ErrorKind::Serialization,
            e.status is None,
    {
        Error { message: String::from_str(message), kind: ErrorKind::Serialization, status: None }
    }

    pub fn deserialization(message: &str) -> (e: Error)
        ensures
            e.message@ == message@,
            e.kind == ErrorKind::Deserialization,
            e.status is None,
    {
        Error { message: String::from_str(message), kind: ErrorKind::Deserialization, status: None }
    }

    pub fn authentication(message: &str) -> (e: Error)
        ensures
            e.message@ == message@,
            e.kind == ErrorKind::Authentication,
            e.status is None,
    {
        Error { message: String::from_str(message), kind: ErrorKind::Authentication, status: None }
    }

    pub fn other(message: &str) -> (e: Error)
        ensures
            e.message@ == message@,
            e.kind == ErrorKind::Other,
            e.status is None,
    {
        Error { message: String::from_str(message), kind: ErrorKind::Other, status: None }
    }
}

} // verus!
