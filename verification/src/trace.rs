use crate::mode::CaptureMode;
use crate::value::{display_text, displays};
use std::backtrace::Backtrace;
use vstd::prelude::*;

verus! {

/// The standard library's stack snapshot, `std::backtrace::Backtrace`.
/// Nothing inside a snapshot is read here: one is made, kept, and formatted
/// for display.
#[verifier::external_type_specification]
#[verifier::external_body]
pub struct ExBacktrace(Backtrace);

/// `Backtrace::force_capture` walks the current call stack, also where the
/// process's backtrace variables would switch capture off. What it returns
/// depends on the platform and on the stack at the call, so nothing is
/// claimed of it.
pub assume_specification[ Backtrace::force_capture ]() -> (snapshot: Backtrace);

/// What a trace renders as when no stack walk was made for it.
pub open spec fn no_trace_text() -> Seq<char> {
    "no backtrace captured"@
}

/// The stack trace taken when an error was wrapped, or the record that none
/// was taken. A trace is never changed once it is made.
pub struct Trace {
    /// The snapshot of the stack; `None` when capture was switched off.
    pub snapshot: Option<Box<Backtrace>>,
}

impl Trace {
    /// Whether a stack walk was made for this trace.
    pub open spec fn is_captured(&self) -> bool {
        self.snapshot is Some
    }

    /// `text` is a rendering of this trace: the snapshot's own display text,
    /// or the fixed text of a trace that holds no snapshot.
    pub open spec fn renders(&self, text: Seq<char>) -> bool {
        match self.snapshot {
            Some(snapshot) => displays(&*snapshot, text),
            None => text == no_trace_text(),
        }
    }

    /// Takes the trace of the current call stack as `mode` directs: with a
    /// snapshot when the mode walks the stack, without one otherwise. This
    /// cannot fail, in any mode.
    pub fn capture(mode: CaptureMode) -> (trace: Trace)
        ensures
            trace.is_captured() <==> mode.is_enabled(),
    {
        if mode.is_enabled() {
            Trace { snapshot: Some(Box::new(Backtrace::force_capture())) }
        } else {
            Trace { snapshot: None }
        }
    }

    /// Renders the trace.
    pub fn render(&self) -> (text: String)
        ensures
            self.renders(text@),
    {
        match &self.snapshot {
            Some(snapshot) => display_text(&**snapshot),
            None => String::from_str("no backtrace captured"),
        }
    }
}

/// With capture switched off, a trace renders as the fixed text that says no
/// stack was walked, and as nothing else: no frame is ever shown.
pub proof fn lemma_switched_off_trace_shows_no_frames(
    mode: CaptureMode,
    trace: Trace,
    text: Seq<char>,
)
    requires
        mode == CaptureMode::Off,
        trace.is_captured() <==> mode.is_enabled(),
    ensures
        trace.renders(text) <==> text == no_trace_text(),
{
}

} // verus!
