//! The error type shared by every fallible operation of the library, and the
//! `Context` helper that prefixes an error with what was being attempted.

use vstd::prelude::*;
use vstd::string::*;

verus! {

/// Every way a switch, a load or a store can fail.
///
/// I/O failures are carried as their rendered message: the library itself
/// performs no I/O, so the surrounding binary turns a raw failure into text
/// before handing it in.
#[derive(Debug)]
pub enum BarChangerError {
    Io(String),
    ConfigNotFound(String),
    InvalidInput(String),
    StyleNotFound(String),
    PermissionDenied(String),
    Serialization(String),
    DeSerialization(String),
    Custom(String),
}

/// The one-line rendering of an error: a fixed prefix naming the kind,
/// followed by the carried message.
pub open spec fn error_message(e: BarChangerError) -> Seq<char> {
    match e {
        BarChangerError::Io(m) => "IO error: "@ + m@,
        BarChangerError::ConfigNotFound(m) => "Config not found: "@ + m@,
        BarChangerError::InvalidInput(m) => "Invalid input: "@ + m@,
        BarChangerError::StyleNotFound(m) => "Style not found: "@ + m@,
        BarChangerError::PermissionDenied(m) => "Permission denied: "@ + m@,
        BarChangerError::Serialization(m) => "Failed serializing: "@ + m@,
        BarChangerError::DeSerialization(m) => "Failed deserializing: "@ + m@,
        BarChangerError::Custom(m) => "Error: "@ + m@,
    }
}

impl BarChangerError {
    /// Renders the error as the line the tool prints for it.
    pub fn message(&self) -> (r: String)
        ensures
            r@ == error_message(*self),
    {
        let mut s: String;
        match self {
            BarChangerError::Io(m) => {
                s = String::from_str("IO error: ");
                s.append(m.as_str());
            },
            BarChangerError::ConfigNotFound(m) => {
                s = String::from_str("Config not found: ");
                s.append(m.as_str());
            },
            BarChangerError::InvalidInput(m) => {
                s = String::from_str("Invalid input: ");
                s.append(m.as_str());
            },
            BarChangerError::StyleNotFound(m) => {
                s = String::from_str("Style not found: ");
                s.append(m.as_str());
            },
            BarChangerError::PermissionDenied(m) => {
                s = String::from_str("Permission denied: ");
                s.append(m.as_str());
            },
            BarChangerError::Serialization(m) => {
                s = String::from_str("Failed serializing: ");
                s.append(m.as_str());
            },
            BarChangerError::DeSerialization(m) => {
                s = String::from_str("Failed deserializing: ");
                s.append(m.as_str());
            },
            BarChangerError::Custom(m) => {
                s = String::from_str("Error: ");
                s.append(m.as_str());
            },
        }
        s
    }
}

impl From<String> for BarChangerError {
    fn from(error: String) -> (r: Self) {
        BarChangerError::Custom(error)
    }
}

impl vstd::std_specs::convert::FromSpecImpl<String> for BarChangerError {
    open spec fn obeys_from_spec() -> bool {
        true
    }

    open spec fn from_spec(v: String) -> Self {
        BarChangerError::Custom(v)
    }
}

/// Holds when `after` is `before` with the context `c` applied: a `Custom`
/// message gains the prefix `"<c>: "`, every other error passes unchanged.
pub open spec fn context_applied<T>(
    before: Result<T, BarChangerError>,
    c: Seq<char>,
    after: Result<T, BarChangerError>,
) -> bool {
    match before {
        Ok(v) => after == Ok::<T, BarChangerError>(v),
        Err(e) => match e {
            BarChangerError::Custom(m) => match after {
                Err(BarChangerError::Custom(rm)) => rm@ == c + ": "@ + m@,
                _ => false,
            },
            _ => after == Err::<T, BarChangerError>(e),
        },
    }
}

/// Holds when `r` is an `InvalidInput` error carrying exactly `msg`.
pub open spec fn is_invalid_input<T>(r: Result<T, BarChangerError>, msg: Seq<char>) -> bool {
    match r {
        Err(BarChangerError::InvalidInput(m)) => m@ == msg,
        _ => false,
    }
}

/// Holds when `r` is an `Io` error carrying exactly `msg`.
pub open spec fn is_io<T>(r: Result<T, BarChangerError>, msg: Seq<char>) -> bool {
    match r {
        Err(BarChangerError::Io(m)) => m@ == msg,
        _ => false,
    }
}

/// Holds when `r` is a `ConfigNotFound` error carrying exactly `msg`.
pub open spec fn is_config_not_found<T>(r: Result<T, BarChangerError>, msg: Seq<char>) -> bool {
    match r {
        Err(BarChangerError::ConfigNotFound(m)) => m@ == msg,
        _ => false,
    }
}

/// Holds when `r` is a `StyleNotFound` error carrying exactly `msg`.
pub open spec fn is_style_not_found<T>(r: Result<T, BarChangerError>, msg: Seq<char>) -> bool {
    match r {
        Err(BarChangerError::StyleNotFound(m)) => m@ == msg,
        _ => false,
    }
}

/// Holds when `r` is a `DeSerialization` error carrying exactly `msg`.
pub open spec fn is_deserialization<T>(r: Result<T, BarChangerError>, msg: Seq<char>) -> bool {
    match r {
        Err(BarChangerError::DeSerialization(m)) => m@ == msg,
        _ => false,
    }
}

/// Attaches a short description of the operation being attempted to an
/// error result, so the failure names what was going on when it happened.
pub trait Context<T, E>: Sized {
    /// Holds when `r` is `self` with the context `c` attached.
    spec fn context_spec(self, c: Seq<char>, r: Result<T, BarChangerError>) -> bool;

    fn context(self, context: String) -> (r: Result<T, BarChangerError>)
        ensures
            self.context_spec(context@, r),
    ;
}

impl<T> Context<T, BarChangerError> for Result<T, BarChangerError> {
    open spec fn context_spec(self, c: Seq<char>, r: Result<T, BarChangerError>) -> bool {
        context_applied(self, c, r)
    }

    fn context(self, context: String) -> (r: Result<T, BarChangerError>)
        ensures
            self.context_spec(context@, r),
    {
        match self {
            Ok(v) => Ok(v),
            Err(e) => match e {
                BarChangerError::Custom(m) => {
                    let mut s = context;
                    s.append(": ");
                    s.append(m.as_str());
                    Err(BarChangerError::Custom(s))
                },
                other => Err(other),
            },
        }
    }
}

} // verus!
