//! A small error wrapper that takes a stack trace when an error is wrapped
//! and renders it beside the error's message.
//!
//! `BacktraceError` wraps an error of one chosen type, `DynBacktraceError`
//! an error of any type. `ResultExt` gives results that fail with either
//! wrapper the two terminal helpers.
pub mod erased;
pub mod mode;
pub mod report;
pub mod result_ext;
pub mod trace;
pub mod typed;
pub mod value;

pub use crate::erased::DynBacktraceError;
pub use crate::mode::CaptureMode;
pub use crate::report::{Abort, Outcome};
pub use crate::result_ext::ResultExt;
pub use crate::trace::Trace;
pub use crate::typed::BacktraceError;
pub use crate::value::ErrorValue;
