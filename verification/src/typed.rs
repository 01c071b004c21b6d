use crate::mode::CaptureMode;
use crate::report::{lemma_report_begins_with_opening, render_report, report_opening, report_text};
use crate::trace::{no_trace_text, Trace};
use crate::value::ErrorValue;
use vstd::prelude::*;

verus! {

/// An error of a type that the caller chose, together with the trace taken
/// when it was wrapped. Neither is changed once the wrapper is made.
pub struct BacktraceError<E: ErrorValue> {
    /// The wrapped error.
    pub inner: E,
    /// The trace taken at the wrapping.
    pub backtrace: Trace,
}

impl<E: ErrorValue> BacktraceError<E> {
    /// `text` is a rendering of this wrapper: the report made of a message
    /// that the wrapped error gives and of a rendering of the trace.
    pub open spec fn renders(&self, text: Seq<char>) -> bool {
        exists|message: Seq<char>, trace: Seq<char>|
            #![trigger report_text(message, trace)]
            self.inner.says(message) && self.backtrace.renders(trace) && text == report_text(
                message,
                trace,
            )
    }

    /// Wraps `inner`, taking the trace of the current call stack as `mode`
    /// directs. This cannot fail.
    pub fn capture(inner: E, mode: CaptureMode) -> (wrapped: Self)
        ensures
            wrapped.inner == inner,
            wrapped.backtrace.is_captured() <==> mode.is_enabled(),
    {
        BacktraceError { inner, backtrace: Trace::capture(mode) }
    }

    /// The wrapped error, which is the wrapper's one direct cause.
    pub fn source(&self) -> (cause: Option<&E>)
        ensures
            cause == Some(&self.inner),
    {
        Some(&self.inner)
    }

    /// Renders the wrapper. The display form and the debug form of a wrapper
    /// are both this text.
    pub fn render(&self) -> (text: String)
        ensures
            self.renders(text@),
            exists|message: Seq<char>| #[trigger]
                self.inner.says(message) && report_opening(message).is_prefix_of(text@),
    {
        let message = self.inner.message();
        let trace = self.backtrace.render();
        let text = render_report(message.as_str(), trace.as_str());
        proof {
            lemma_report_begins_with_opening(message@, trace@);
        }
        text
    }
}

/// A wrapper is an error value itself: its message is its rendering, and its
/// cause is the error that it wraps.
impl<E: ErrorValue> ErrorValue for BacktraceError<E> {
    open spec fn says(&self, text: Seq<char>) -> bool {
        self.renders(text)
    }

    open spec fn cause_is(&self, cause: Option<Seq<char>>) -> bool {
        cause matches Some(text) && self.inner.says(text)
    }

    fn message(&self) -> (text: String) {
        self.render()
    }

    fn cause(&self) -> (cause: Option<String>) {
        Some(self.inner.message())
    }
}

/// Every rendering of a wrapper made from `error` begins with the heading
/// and a message that `error` gives, on one line, and the heading of the
/// trace on the next.
pub proof fn lemma_rendering_begins_with_message<E: ErrorValue>(
    error: E,
    wrapped: BacktraceError<E>,
    text: Seq<char>,
)
    requires
        wrapped.inner == error,
        wrapped.renders(text),
    ensures
        exists|message: Seq<char>| #[trigger]
            error.says(message) && report_opening(message).is_prefix_of(text),
{
    let (message, trace) = choose|message: Seq<char>, trace: Seq<char>|
        #![trigger report_text(message, trace)]
        wrapped.inner.says(message) && wrapped.backtrace.renders(trace) && text == report_text(
            message,
            trace,
        );
    lemma_report_begins_with_opening(message, trace);
}

/// The cause that a wrapper made from `error` names is `error` itself: a
/// text is the cause's message exactly when `error` gives it, and the cause
/// is never missing.
pub proof fn lemma_cause_is_wrapped_error<E: ErrorValue>(
    error: E,
    wrapped: BacktraceError<E>,
    text: Seq<char>,
)
    requires
        wrapped.inner == error,
    ensures
        wrapped.cause_is(Some(text)) <==> error.says(text),
        !wrapped.cause_is(None),
{
}

/// A wrapper made with capture switched off renders as the report of a
/// message of its error over the fixed text of a trace without frames.
pub proof fn lemma_rendering_without_trace<E: ErrorValue>(
    wrapped: BacktraceError<E>,
    text: Seq<char>,
)
    requires
        !wrapped.backtrace.is_captured(),
    ensures
        wrapped.renders(text) <==> exists|message: Seq<char>| #[trigger]
            wrapped.inner.says(message) && text == report_text(message, no_trace_text()),
{
}

} // verus!
