use backtrace_error::{
    Abort, BacktraceError, CaptureMode, DynBacktraceError, Outcome, ResultExt,
};
use std::io;

type Typed<T> = Result<T, BacktraceError<io::Error>>;

type Erased<T> = Result<T, DynBacktraceError>;

fn denied() -> io::Error {
    io::Error::new(io::ErrorKind::PermissionDenied, "permission denied")
}

fn open_file(mode: CaptureMode, present: bool) -> Erased<u32> {
    if present {
        Ok(3)
    } else {
        Err(DynBacktraceError::capture(
            io::Error::new(io::ErrorKind::NotFound, "file not found"),
            mode,
        ))
    }
}

fn parse_number(mode: CaptureMode, text: &str) -> Erased<i32> {
    match text.parse::<i32>() {
        Ok(number) => Ok(number),
        Err(error) => Err(DynBacktraceError::capture(error, mode)),
    }
}

fn do_stuff(mode: CaptureMode, present: bool, text: &str) -> Erased<()> {
    open_file(mode, present)?;
    parse_number(mode, text)?;
    Ok(())
}

fn abort_of<T>(outcome: Outcome<T>) -> Abort {
    match outcome {
        Outcome::Value(_) => panic!("the helper handed back a value"),
        Outcome::Abort(abort) => abort,
    }
}

#[test]
fn abort_holds_three_writes_and_the_reason() {
    let abort = Abort::new("boom", "Initial error: x\nError context:\ny\n");
    assert_eq!(
        abort.writes,
        vec![
            String::from("boom\n"),
            String::from("\n"),
            String::from("Initial error: x\nError context:\ny\n\n"),
        ]
    );
    assert_eq!(abort.reason, "boom");
}

#[test]
fn abort_writes_put_the_message_first() {
    let abort = Abort::new("boom", "report");
    assert_eq!(abort.writes.concat(), "boom\n\nreport\n");
}

#[test]
fn unwrap_hands_back_the_success_value() {
    let typed: Typed<u8> = Ok(7);
    assert!(matches!(typed.unwrap_or_backtrace(), Outcome::Value(7)));
    let erased: Erased<&str> = Ok("kept");
    assert!(matches!(erased.unwrap_or_backtrace(), Outcome::Value("kept")));
    let unit: Erased<()> = Ok(());
    assert!(matches!(unit.unwrap_or_backtrace(), Outcome::Value(())));
}

#[test]
fn expect_hands_back_the_success_value() {
    let typed: Typed<Vec<u8>> = Ok(vec![1, 2, 3]);
    match typed.expect_or_backtrace("boom") {
        Outcome::Value(value) => assert_eq!(value, vec![1, 2, 3]),
        Outcome::Abort(_) => panic!("a success does not abort"),
    }
    let erased: Erased<i64> = Ok(-4);
    assert!(matches!(erased.expect_or_backtrace("boom"), Outcome::Value(-4)));
}

#[test]
fn expect_on_typed_failure_aborts_with_the_message() {
    let failed: Typed<u8> = Err(BacktraceError::capture(denied(), CaptureMode::Off));
    let abort = abort_of(failed.expect_or_backtrace("boom"));
    assert_eq!(abort.reason, "boom");
    assert_eq!(
        abort.writes,
        vec![
            String::from("boom\n"),
            String::from("\n"),
            String::from("Initial error: permission denied\nError context:\nno backtrace captured\n\n"),
        ]
    );
}

#[test]
fn expect_on_erased_failure_aborts_with_the_message() {
    let failed: Erased<()> = Err(DynBacktraceError::capture(denied(), CaptureMode::Off));
    let abort = abort_of(failed.expect_or_backtrace("boom"));
    assert_eq!(abort.reason, "boom");
    assert_eq!(
        abort.writes.concat(),
        "boom\n\nInitial error: permission denied\nError context:\nno backtrace captured\n\n"
    );
    assert_eq!(abort.writes.len(), 3);
}

#[test]
fn expect_on_failure_writes_the_whole_rendering() {
    let wrapped = BacktraceError::capture(denied(), CaptureMode::On);
    let report = wrapped.render();
    let failed: Typed<()> = Err(wrapped);
    let abort = abort_of(failed.expect_or_backtrace("boom"));
    assert_eq!(abort.writes[0], "boom\n");
    assert_eq!(abort.writes[1], "\n");
    assert_eq!(abort.writes[2], format!("{}\n", report));
}

#[test]
fn unwrap_on_failure_aborts_with_the_fixed_message() {
    let typed: Typed<u8> = Err(BacktraceError::capture(denied(), CaptureMode::Off));
    let abort = abort_of(typed.unwrap_or_backtrace());
    assert_eq!(abort.reason, "ResultExt::unwrap_or_backtrace found Err");
    assert_eq!(abort.writes[0], "ResultExt::unwrap_or_backtrace found Err\n");
    let erased: Erased<()> = Err(DynBacktraceError::capture(denied(), CaptureMode::Off));
    let abort = abort_of(erased.unwrap_or_backtrace());
    assert_eq!(abort.reason, "ResultExt::unwrap_or_backtrace found Err");
    assert_eq!(
        abort.writes.concat(),
        "ResultExt::unwrap_or_backtrace found Err\n\nInitial error: permission denied\nError context:\nno backtrace captured\n\n"
    );
}

#[test]
fn second_step_failure_is_the_one_reported() {
    let abort = abort_of(do_stuff(CaptureMode::Off, true, "not-a-number").expect_or_backtrace("boom"));
    assert_eq!(abort.reason, "boom");
    assert!(abort.writes[2].starts_with("Initial error: invalid digit found in string\n"));
    assert!(!abort.writes.concat().contains("file not found"));
}

#[test]
fn first_step_failure_stops_the_chain() {
    let abort = abort_of(do_stuff(CaptureMode::Off, false, "not-a-number").unwrap_or_backtrace());
    assert!(abort.writes[2].starts_with("Initial error: file not found\n"));
    assert!(!abort.writes.concat().contains("invalid digit"));
}

#[test]
fn chain_without_failure_ends_with_the_value() {
    assert!(matches!(
        do_stuff(CaptureMode::Full, true, "42").expect_or_backtrace("boom"),
        Outcome::Value(())
    ));
}
