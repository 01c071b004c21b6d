use std::fmt::Display;
use vstd::prelude::*;
use vstd::string::to_string_from_display_ensures;

verus! {

/// `text` is what formatting `value` for display may produce.
pub open spec fn displays<T: Display + ?Sized>(value: &T, text: Seq<char>) -> bool {
    exists|shown: String| #[trigger]
        to_string_from_display_ensures::<T>(value, shown) && shown@ == text
}

/// Formats `value` for display.
pub fn display_text<T: Display + ?Sized>(value: &T) -> (text: String)
    ensures
        displays(value, text@),
{
    value.to_string()
}

/// What the wrappers need of an error value: a human-readable message and,
/// where the error has one, the message of its direct cause.
///
/// The two predicates say which answers an error may give. A type that
/// leaves them as they are promises nothing about its answers.
pub trait ErrorValue {
    /// `text` is a message that this error gives.
    open spec fn says(&self, text: Seq<char>) -> bool {
        true
    }

    /// `cause` is what this error gives for its direct cause: the cause's
    /// message, or `None` where it names no cause.
    open spec fn cause_is(&self, cause: Option<Seq<char>>) -> bool {
        true
    }

    /// The error's message.
    fn message(&self) -> (text: String)
        ensures
            self.says(text@),
    ;

    /// The message of the error's direct cause, if it names one.
    fn cause(&self) -> (cause: Option<String>)
        ensures
            self.cause_is(cause.deep_view()),
    ;
}

/// Every displayable value is an error value: its message is its display
/// text, and it names no cause.
impl<T: Display> ErrorValue for T {
    open spec fn says(&self, text: Seq<char>) -> bool {
        displays(self, text)
    }

    open spec fn cause_is(&self, cause: Option<Seq<char>>) -> bool {
        cause is None
    }

    fn message(&self) -> (text: String) {
        display_text(self)
    }

    fn cause(&self) -> (cause: Option<String>) {
        None
    }
}

} // verus!
