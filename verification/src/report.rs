use vstd::prelude::*;

verus! {

/// The progress sink the pipeline reports milestones to.
///
/// Reporting is part of the critical path: every operation that takes a
/// sink stops with a failure of its own as soon as one report is rejected;
/// logging is never best-effort here.
pub trait Reporter {
    /// Delivers one progress message. Returning `Err` makes the operation
    /// that sent the message fail as a whole.
    fn report(&mut self, msg: &str) -> Result<(), ()>;
}

/// A sink that accepts and discards every message.
pub struct NullReporter;

impl Reporter for NullReporter {
    fn report(&mut self, _msg: &str) -> (r: Result<(), ()>) {
        Ok(())
    }
}

} // verus!
