//! The error type of the library.
use vstd::prelude::*;

verus! {

/// What went wrong, with a human-readable message.
#[derive(Clone, Debug)]
pub enum ArgvusError {
    Configuration(String),
    Database(String),
    Ics(String),
    CalDav(String),
    Network(String),
    Notification(String),
    Io(String),
    Serialization(String),
}

} // verus!
