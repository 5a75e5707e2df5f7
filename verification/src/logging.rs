//! The logging interface the embedding provides.
use vstd::prelude::*;

verus! {

/// Receives the runtime's log messages.
pub trait RuntimeLogger {
    fn log(&self, message: &str);
    fn warn(&self, message: &str);
    fn error(&self, message: &str);
    fn debug(&self, message: &str);
}

} // verus!
