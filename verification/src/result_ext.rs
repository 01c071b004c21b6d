use crate::erased::DynBacktraceError;
use crate::report::{diagnostic_writes, unwrap_message, Abort, Outcome};
use crate::typed::BacktraceError;
use crate::value::ErrorValue;
use vstd::prelude::*;

verus! {

/// `outcome` is the abort under `message` for a failure whose wrapper
/// renders as `report`: its writes are the message and a line break, an
/// empty line, and the report and a line break, and its reason is the
/// message.
pub open spec fn aborts_with<T>(outcome: Outcome<T>, message: Seq<char>, report: Seq<char>) -> bool {
    outcome matches Outcome::Abort(abort) && abort.written() == diagnostic_writes(message, report)
        && abort.reason@ == message
}

/// The outcome of a helper on a failure whose wrapper renders as `report`.
fn abort_under<T>(msg: &str, report: &str) -> (outcome: Outcome<T>)
    ensures
        aborts_with(outcome, msg@, report@),
{
    Outcome::Abort(Abort::new(msg, report))
}

/// The terminal helpers, for a result whose failure is one of the wrappers.
///
/// A helper decides and does nothing else: on a success it hands the value
/// back, and on a failure it hands back the writes to make to the diagnostic
/// stream and the reason to abort with. The caller carries the abort out,
/// all the writes first.
pub trait ResultExt: Sized {
    /// The type of the success value.
    type T;

    /// `outcome` is how a helper may end on this result under `message`: on
    /// a success with the value unchanged and no abort, on a failure with
    /// the abort under `message` for a rendering of the wrapper.
    spec fn ends_with(self, message: Seq<char>, outcome: Outcome<Self::T>) -> bool;

    /// As `expect_or_backtrace`, under a fixed message.
    fn unwrap_or_backtrace(self) -> (outcome: Outcome<Self::T>)
        ensures
            self.ends_with(unwrap_message(), outcome),
    {
        self.expect_or_backtrace("ResultExt::unwrap_or_backtrace found Err")
    }

    /// Hands back the success value, or on a failure the abort to carry out
    /// under `msg`.
    fn expect_or_backtrace(self, msg: &str) -> (outcome: Outcome<Self::T>)
        ensures
            self.ends_with(msg@, outcome),
    ;
}

impl<T, E: ErrorValue> ResultExt for Result<T, BacktraceError<E>> {
    type T = T;

    open spec fn ends_with(self, message: Seq<char>, outcome: Outcome<T>) -> bool {
        match self {
            Ok(value) => outcome == Outcome::Value(value),
            Err(wrapped) => exists|report: Seq<char>|
                #![trigger aborts_with(outcome, message, report)]
                wrapped.renders(report) && aborts_with(outcome, message, report),
        }
    }

    fn expect_or_backtrace(self, msg: &str) -> (outcome: Outcome<T>) {
        match self {
            Ok(value) => Outcome::Value(value),
            Err(wrapped) => abort_under(msg, wrapped.render().as_str()),
        }
    }
}

impl<T> ResultExt for Result<T, DynBacktraceError> {
    type T = T;

    open spec fn ends_with(self, message: Seq<char>, outcome: Outcome<T>) -> bool {
        match self {
            Ok(value) => outcome == Outcome::Value(value),
            Err(wrapped) => exists|report: Seq<char>|
                #![trigger aborts_with(outcome, message, report)]
                wrapped.renders(report) && aborts_with(outcome, message, report),
        }
    }

    fn expect_or_backtrace(self, msg: &str) -> (outcome: Outcome<T>) {
        match self {
            Ok(value) => Outcome::Value(value),
            Err(wrapped) => abort_under(msg, wrapped.render().as_str()),
        }
    }
}

} // verus!
