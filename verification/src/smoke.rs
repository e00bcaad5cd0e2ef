//! The first WebView run, the lifecycle regression: three phases, launch,
//! editor and preview, each one exchange with the driver.

use vstd::prelude::*;
use crate::transport::{run_result_spec, validate_run_result, walk, DriverResult, PhaseKind, PhaseMachine};

verus! {

/// The marker the run's final result must carry.
pub const MARKER: &'static str = "RFC041_WEBVIEW_SMOKE_MARKER";

/// The result stage the terminal phase's final result must carry.
pub const TERMINAL_STAGE: &'static str = "preview_verified";

#[derive(Debug, Clone, Copy, PartialEq, Eq, Structural)]
pub enum SmokePhase {
    Launch,
    Editor,
    /// The last phase: its report is the run's result.
    Preview,
}

/// Each phase's name.
pub open spec fn phase_name(p: SmokePhase) -> Seq<char> {
    match p {
        SmokePhase::Launch => "launch"@,
        SmokePhase::Editor => "editor"@,
        SmokePhase::Preview => "preview"@,
    }
}

/// Each phase's successor; none after the last.
pub open spec fn phase_successor(p: SmokePhase) -> Option<SmokePhase> {
    match p {
        SmokePhase::Launch => Some(SmokePhase::Editor),
        SmokePhase::Editor => Some(SmokePhase::Preview),
        SmokePhase::Preview => None,
    }
}

/// The milestone each phase's progress report carries.
pub open spec fn phase_milestone(p: SmokePhase) -> Seq<char> {
    match p {
        SmokePhase::Launch => "new_clicked"@,
        SmokePhase::Editor => "preview_clicked"@,
        SmokePhase::Preview => "preview_verified"@,
    }
}

impl PhaseKind for SmokePhase {
    open spec fn name_spec(self) -> Seq<char> {
        phase_name(self)
    }

    open spec fn successor(self) -> Option<Self> {
        phase_successor(self)
    }

    open spec fn milestone_spec(self) -> Seq<char> {
        phase_milestone(self)
    }

    open spec fn first_spec() -> Self {
        SmokePhase::Launch
    }

    fn as_str(self) -> (s: &'static str) {
        match self {
            SmokePhase::Launch => "launch",
            SmokePhase::Editor => "editor",
            SmokePhase::Preview => "preview",
        }
    }

    fn next(self) -> (n: Option<Self>) {
        match self {
            SmokePhase::Launch => Some(SmokePhase::Editor),
            SmokePhase::Editor => Some(SmokePhase::Preview),
            SmokePhase::Preview => None,
        }
    }

    fn expected_milestone(self) -> (m: &'static str) {
        match self {
            SmokePhase::Launch => "new_clicked",
            SmokePhase::Editor => "preview_clicked",
            SmokePhase::Preview => "preview_verified",
        }
    }

    fn first() -> (p: Self) {
        SmokePhase::Launch
    }
}

/// Every phase, in the order `next` walks them.
pub open spec fn all_phases() -> Seq<SmokePhase> {
    seq![
        SmokePhase::Launch,
        SmokePhase::Editor,
        SmokePhase::Preview,
    ]
}

/// The milestones of a successful run, in order.
pub open spec fn expected_milestones_spec() -> Seq<Seq<char>> {
    all_phases().map_values(|p: SmokePhase| phase_milestone(p))
}

/// The milestones of a successful run, in order.
pub fn expected_milestones() -> (m: [&'static str; 3])
    ensures
        m@.map_values(|s: &str| s@) == expected_milestones_spec(),
{
    let m = [
        "new_clicked",
        "preview_clicked",
        "preview_verified",
    ];
    assert(m@.map_values(|s: &str| s@) =~= expected_milestones_spec());
    m
}

/// Walking `next` from the first phase visits every phase, in table order,
/// and then stops.
pub proof fn lemma_walk_visits_every_phase()
    ensures
        forall|k: int| 0 <= k < 3 ==> walk(SmokePhase::Launch, k as nat) == Some(#[trigger] all_phases()[k]),
        walk(SmokePhase::Launch, 3) is None,
        forall|p: SmokePhase| #[trigger] all_phases().contains(p),
{
    assert(walk(SmokePhase::Launch, 0) == Some(all_phases()[0]));
    assert(walk(SmokePhase::Launch, 1) == Some(all_phases()[1]));
    assert(walk(SmokePhase::Launch, 2) == Some(all_phases()[2]));
    assert(walk(SmokePhase::Launch, 3) is None);
    assert forall|p: SmokePhase| #[trigger] all_phases().contains(p) by {
        match p {
            SmokePhase::Launch => assert(all_phases()[0] == p),
            SmokePhase::Editor => assert(all_phases()[1] == p),
            SmokePhase::Preview => assert(all_phases()[2] == p),
        }
    }
}

/// The judgement of the run's final result.
pub open spec fn result_spec(result: DriverResult) -> Result<(), Seq<char>> {
    run_result_spec(result, TERMINAL_STAGE@, MARKER@, "WebView smoke"@, expected_milestones_spec())
}

/// Checks the run's final result: success at the terminal stage, with the
/// marker, no error toast, and every milestone in order.
pub fn validate_driver_result(result: &DriverResult) -> (r: Result<(), String>)
    ensures
        match result_spec(*result) {
            Ok(u) => r == Ok::<(), String>(u),
            Err(m) => r matches Err(e) && e@ == m,
        },
{
    let expected = expected_milestones();
    validate_run_result(result, TERMINAL_STAGE, MARKER, "WebView smoke", &expected)
}

/// This run's phase machine.
pub type SmokeMachine = PhaseMachine<SmokePhase>;

/// The smoke run's result, recorded once; a run with none recorded failed.
#[derive(Debug, Default)]
pub struct SmokeTerminal {
    recorded: bool,
}

impl SmokeTerminal {
    /// Whether a successful result was recorded.
    pub closed spec fn recorded_spec(&self) -> bool {
        self.recorded
    }

    pub fn new() -> (t: Self)
        ensures
            !t.recorded_spec(),
    {
        SmokeTerminal { recorded: false }
    }

    /// Records the run's result: only a result that passes the run's
    /// checks, and only the first one.
    pub fn accept(&mut self, result: &DriverResult) -> (r: Result<(), String>)
        ensures
            result_spec(*result) matches Err(m) ==> (r matches Err(e) && e@ == m)
                && final(self).recorded_spec() == old(self).recorded_spec(),
            result_spec(*result) is Ok && old(self).recorded_spec() ==> (r matches Err(e) && e@
                == "smoke terminal result was already recorded"@) && final(self).recorded_spec(),
            result_spec(*result) is Ok && !old(self).recorded_spec() ==> r is Ok
                && final(self).recorded_spec(),
    {
        validate_driver_result(result)?;
        if self.recorded {
            return Err("smoke terminal result was already recorded".to_owned());
        }
        self.recorded = true;
        Ok(())
    }

    /// Whether the run succeeded: a valid result was recorded.
    pub fn succeeded(&self) -> (b: bool)
        ensures
            b == self.recorded_spec(),
    {
        self.recorded
    }
}

} // verus!
