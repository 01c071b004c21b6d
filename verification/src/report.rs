use vstd::prelude::*;

verus! {

/// The first two lines of every report: the wrapped error's message under
/// its heading, then the heading of the trace.
pub open spec fn report_opening(message: Seq<char>) -> Seq<char> {
    "Initial error: "@ + message + "\n"@ + "Error context:\n"@
}

/// The text that a wrapper renders as: the two opening lines, then the
/// trace's own rendering and a line break.
pub open spec fn report_text(message: Seq<char>, trace: Seq<char>) -> Seq<char> {
    report_opening(message) + trace + "\n"@
}

/// What a terminal helper has written before it aborts, one entry for each
/// write, in order: the caller's message and a line break, an empty line,
/// the wrapper's report and a line break.
pub open spec fn diagnostic_writes(message: Seq<char>, report: Seq<char>) -> Seq<Seq<char>> {
    seq![message + "\n"@, "\n"@, report + "\n"@]
}

/// What the diagnostic stream holds once those writes are made.
pub open spec fn diagnostic_text(message: Seq<char>, report: Seq<char>) -> Seq<char> {
    message + "\n"@ + "\n"@ + report + "\n"@
}

/// The message that `unwrap_or_backtrace` aborts with.
pub open spec fn unwrap_message() -> Seq<char> {
    "ResultExt::unwrap_or_backtrace found Err"@
}

/// A report begins with its two opening lines, whatever the trace holds.
pub proof fn lemma_report_begins_with_opening(message: Seq<char>, trace: Seq<char>)
    ensures
        report_opening(message).is_prefix_of(report_text(message, trace)),
{
}

/// The writes of a terminal helper, made one after the other, put the
/// message, the empty line and the report on the stream in that order.
pub proof fn lemma_writes_in_order(message: Seq<char>, report: Seq<char>)
    ensures
        diagnostic_writes(message, report).flatten() == diagnostic_text(message, report),
{
    let writes = diagnostic_writes(message, report);
    let second = writes.drop_first();
    let third = second.drop_first();
    third.lemma_flatten_one_element();
    assert(second.flatten() =~= "\n"@ + (report + "\n"@));
}

/// Puts a report together from the wrapped error's message and the trace's
/// rendering.
pub fn render_report(message: &str, trace: &str) -> (report: String)
    ensures
        report@ == report_text(message@, trace@),
{
    let mut report = String::from_str("Initial error: ");
    report.append(message);
    report.append("\n");
    report.append("Error context:\n");
    report.append(trace);
    report.append("\n");
    report
}

/// What a terminal helper asks of its caller on a failure: the writes to make
/// to the diagnostic stream, in order, and the reason to abort with once
/// they are all made.
#[derive(Debug)]
pub struct Abort {
    /// The texts to write, first to last.
    pub writes: Vec<String>,
    /// The reason that the abort carries.
    pub reason: String,
}

/// How a terminal helper ends: with the success value, or with the abort
/// that the caller is to carry out.
#[derive(Debug)]
pub enum Outcome<T> {
    /// The result was a success; this is its value, unchanged.
    Value(T),
    /// The result was a failure; this is what to write and to abort with.
    Abort(Abort),
}

impl Abort {
    /// The abort's writes, as texts.
    pub open spec fn written(&self) -> Seq<Seq<char>> {
        self.writes.deep_view()
    }

    /// The abort under the caller's `message` for a failure whose wrapper
    /// renders as `report`.
    pub fn new(message: &str, report: &str) -> (abort: Abort)
        ensures
            abort.written() == diagnostic_writes(message@, report@),
            abort.written().flatten() == diagnostic_text(message@, report@),
            abort.reason@ == message@,
    {
        let mut headline = String::from_str(message);
        headline.append("\n");
        let blank = String::from_str("\n");
        let mut body = String::from_str(report);
        body.append("\n");
        let mut writes: Vec<String> = Vec::new();
        writes.push(headline);
        writes.push(blank);
        writes.push(body);
        proof {
            lemma_writes_in_order(message@, report@);
        }
        Abort { writes, reason: String::from_str(message) }
    }
}

} // verus!
