//! Waiting for a condition in the release checks: the condition is polled
//! until it holds, and a wait that outlasts its deadline fails, naming what
//! it waited for and the last error seen while polling.

use vstd::prelude::*;
use crate::text::push_str;

verus! {

/// How long one step of a release check waits for its condition.
pub const STEP_DEADLINE_MS: u64 = 15_000;

/// The pause between two polls.
pub const STEP_POLL_MS: u64 = 50;

/// What to do after a poll.
#[derive(Debug, Clone, PartialEq, Eq)]
pub enum WaitStep {
    /// The condition holds.
    Done,
    /// Poll again after the pause.
    Again,
    /// The deadline passed; the failure message.
    TimedOut(String),
}

/// A wait in progress: the last error a poll reported, if any.
#[derive(Debug, Default)]
pub struct WaitUntil {
    last_error: Option<String>,
}

/// The failure message of a wait that timed out.
pub open spec fn timed_out_text(check: Seq<char>, what: Seq<char>, last_error: Option<Seq<char>>) -> Seq<char> {
    check + ": timed out waiting for "@ + what + match last_error {
        Some(e) => " (last error: "@ + e + ")"@,
        None => Seq::empty(),
    }
}

/// The view of an optional message.
pub open spec fn message_view(m: Option<String>) -> Option<Seq<char>> {
    match m {
        Some(e) => Some(e@),
        None => None,
    }
}

impl WaitUntil {
    /// The last error a poll reported.
    pub closed spec fn last_error_spec(&self) -> Option<Seq<char>> {
        message_view(self.last_error)
    }

    pub fn new() -> (w: Self)
        ensures
            w.last_error_spec() is None,
    {
        WaitUntil { last_error: None }
    }

    /// After a poll of the condition `what` in check `check`, made
    /// `elapsed_ms` after the wait began: done when the condition holds;
    /// otherwise an error is remembered, and the wait fails once the
    /// deadline has passed, else polls again.
    pub fn polled(&mut self, check: &str, what: &str, outcome: Result<bool, String>, elapsed_ms: u64) -> (step: WaitStep)
        ensures
            final(self).last_error_spec() == match outcome {
                Err(e) => Some(e@),
                Ok(_) => old(self).last_error_spec(),
            },
            outcome == Ok::<bool, String>(true) ==> step == WaitStep::Done,
            outcome != Ok::<bool, String>(true) && elapsed_ms < STEP_DEADLINE_MS ==> step
                == WaitStep::Again,
            outcome != Ok::<bool, String>(true) && elapsed_ms >= STEP_DEADLINE_MS ==> (step matches WaitStep::TimedOut(m)
                && m@ == timed_out_text(check@, what@, final(self).last_error_spec())),
    {
        match outcome {
            Ok(true) => {
                return WaitStep::Done;
            },
            Ok(false) => {},
            Err(error) => {
                self.last_error = Some(error);
            },
        }
        if elapsed_ms < STEP_DEADLINE_MS {
            return WaitStep::Again;
        }
        let mut m = String::new();
        push_str(&mut m, check);
        push_str(&mut m, ": timed out waiting for ");
        push_str(&mut m, what);
        match &self.last_error {
            Some(e) => {
                push_str(&mut m, " (last error: ");
                push_str(&mut m, e.as_str());
                push_str(&mut m, ")");
            },
            None => {},
        }
        assert(m@ =~= timed_out_text(check@, what@, self.last_error_spec()));
        WaitStep::TimedOut(m)
    }
}

} // verus!
