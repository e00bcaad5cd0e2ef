use bekoedit::wait::{WaitStep, WaitUntil, STEP_DEADLINE_MS};

#[test]
fn a_condition_that_holds_ends_the_wait() {
    let mut wait = WaitUntil::new();
    assert_eq!(wait.polled("save_preserves_bytes", "x", Ok(true), 0), WaitStep::Done);
    assert_eq!(wait.polled("save_preserves_bytes", "x", Ok(true), STEP_DEADLINE_MS + 5), WaitStep::Done);
}

#[test]
fn before_the_deadline_the_wait_polls_again() {
    let mut wait = WaitUntil::new();
    assert_eq!(wait.polled("c", "x", Ok(false), 10), WaitStep::Again);
    assert_eq!(wait.polled("c", "x", Err("boom".into()), STEP_DEADLINE_MS - 1), WaitStep::Again);
}

#[test]
fn a_timed_out_wait_names_what_it_waited_for_and_the_last_error() {
    let mut wait = WaitUntil::new();
    assert_eq!(wait.polled("c", "x", Err("first".into()), 10), WaitStep::Again);
    assert_eq!(wait.polled("c", "x", Err("second".into()), 20), WaitStep::Again);
    assert_eq!(
        wait.polled("save_preserves_bytes", "the editor to take focus", Ok(false), STEP_DEADLINE_MS),
        WaitStep::TimedOut(
            "save_preserves_bytes: timed out waiting for the editor to take focus (last error: second)".into()
        )
    );
}

#[test]
fn a_timed_out_wait_without_errors_says_only_what_it_waited_for() {
    let mut wait = WaitUntil::new();
    assert_eq!(
        wait.polled("c", "rows", Ok(false), STEP_DEADLINE_MS),
        WaitStep::TimedOut("c: timed out waiting for rows".into())
    );
}
