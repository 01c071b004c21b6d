use crate::mode::CaptureMode;
use crate::report::{lemma_report_begins_with_opening, render_report, report_opening, report_text};
use crate::trace::{no_trace_text, Trace};
use crate::value::ErrorValue;
use vstd::prelude::*;

verus! {

/// An error of any type, kept as what its interface gives (its message and
/// the message of its cause), together with the trace taken when it was
/// wrapped. The error's own type is gone once the wrapper is made, and
/// nothing in the wrapper is changed afterwards.
pub struct DynBacktraceError {
    message: String,
    cause: Option<String>,
    backtrace: Trace,
}

impl DynBacktraceError {
    /// The message of the wrapped error.
    pub closed spec fn message_text(&self) -> Seq<char> {
        self.message@
    }

    /// The message of the wrapped error's direct cause, if it named one.
    pub closed spec fn cause_text(&self) -> Option<Seq<char>> {
        self.cause.deep_view()
    }

    /// The trace taken at the wrapping.
    pub closed spec fn trace(&self) -> Trace {
        self.backtrace
    }

    /// This wrapper holds answers that `error` gives through its interface.
    pub open spec fn erases<E: ErrorValue>(&self, error: &E) -> bool {
        error.says(self.message_text()) && error.cause_is(self.cause_text())
    }

    /// `text` is a rendering of this wrapper: the report made of the wrapped
    /// error's message and of a rendering of the trace.
    pub open spec fn renders(&self, text: Seq<char>) -> bool {
        exists|trace: Seq<char>|
            #![trigger report_text(self.message_text(), trace)]
            self.trace().renders(trace) && text == report_text(self.message_text(), trace)
    }

    /// Wraps `error`, whatever its type, taking the trace of the current
    /// call stack as `mode` directs. The error must be fit to cross between
    /// threads. This cannot fail.
    pub fn capture<E: ErrorValue + Send + Sync + 'static>(
        error: E,
        mode: CaptureMode,
    ) -> (wrapped: Self)
        ensures
            wrapped.erases(&error),
            wrapped.trace().is_captured() <==> mode.is_enabled(),
    {
        let message = error.message();
        let cause = error.cause();
        DynBacktraceError::new(message, cause, Trace::capture(mode))
    }

    /// The wrapper of an error that gave `message` and `cause`, with a trace
    /// that was taken already.
    pub fn new(message: String, cause: Option<String>, backtrace: Trace) -> (wrapped: Self)
        ensures
            wrapped.message_text() == message@,
            wrapped.cause_text() == cause.deep_view(),
            wrapped.trace() == backtrace,
    {
        DynBacktraceError { message, cause, backtrace }
    }

    /// The wrapped error's message, as the error gave it.
    pub fn message(&self) -> (text: &str)
        ensures
            text@ == self.message_text(),
    {
        self.message.as_str()
    }

    /// The message of the wrapped error's direct cause, as the error gave
    /// it.
    pub fn cause(&self) -> (cause: Option<&str>)
        ensures
            cause.deep_view() == self.cause_text(),
    {
        match &self.cause {
            Some(text) => Some(text.as_str()),
            None => None,
        }
    }

    /// Renders the wrapper. The display form and the debug form of a wrapper
    /// are both this text.
    pub fn render(&self) -> (text: String)
        ensures
            self.renders(text@),
            report_opening(self.message_text()).is_prefix_of(text@),
    {
        let trace = self.backtrace.render();
        let text = render_report(self.message.as_str(), trace.as_str());
        proof {
            lemma_report_begins_with_opening(self.message_text(), trace@);
        }
        text
    }
}

/// Asking a wrapper made from `error` for the message or for the cause gives
/// an answer that `error` itself gives. Where `error` has one message only,
/// the wrapper's message is that message.
pub proof fn lemma_wrapper_answers_as_its_error<E: ErrorValue>(
    error: E,
    wrapped: DynBacktraceError,
    message: Seq<char>,
)
    requires
        wrapped.erases(&error),
    ensures
        error.says(wrapped.message_text()),
        error.cause_is(wrapped.cause_text()),
        (forall|text: Seq<char>| #[trigger] error.says(text) ==> text == message)
            ==> wrapped.message_text() == message,
{
}

/// A wrapper made with capture switched off renders as the report of its
/// error's message over the fixed text of a trace without frames, and as
/// nothing else.
pub proof fn lemma_erased_rendering_without_trace(wrapped: DynBacktraceError, text: Seq<char>)
    requires
        !wrapped.trace().is_captured(),
    ensures
        wrapped.renders(text) <==> text == report_text(wrapped.message_text(), no_trace_text()),
{
}

/// Every rendering of a wrapper made from `error` begins with the heading
/// and a message that `error` gives, on one line, and the heading of the
/// trace on the next.
pub proof fn lemma_erased_rendering_begins_with_message<E: ErrorValue>(
    error: E,
    wrapped: DynBacktraceError,
    text: Seq<char>,
)
    requires
        wrapped.erases(&error),
        wrapped.renders(text),
    ensures
        report_opening(wrapped.message_text()).is_prefix_of(text),
        exists|message: Seq<char>| #[trigger]
            error.says(message) && report_opening(message).is_prefix_of(text),
{
    let trace = choose|trace: Seq<char>|
        #![trigger report_text(wrapped.message_text(), trace)]
        wrapped.trace().renders(trace) && text == report_text(wrapped.message_text(), trace);
    lemma_report_begins_with_opening(wrapped.message_text(), trace);
}

} // verus!
