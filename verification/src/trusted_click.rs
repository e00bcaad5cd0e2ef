//! The trusted-click run: four phases, one real click each. The phase name
//! (`as_str`) and the terminal result stage are two different strings: the
//! name is what the driver is asked for, the stage is what its final result
//! must carry.

use vstd::prelude::*;
use crate::text::push_str;
use crate::transport::{run_result_spec, validate_run_result, walk, DriverResult, PhaseKind, PhaseMachine};

verus! {

/// The marker the run's final result must carry.
pub const MARKER: &'static str = "TASK023_TRUSTED_CLICK_MARKER";

/// The result stage the terminal phase's final result must carry.
pub const TERMINAL_STAGE: &'static str = "mode_tab_trusted_click_focused_editor";

#[derive(Debug, Clone, Copy, PartialEq, Eq, Structural)]
pub enum TrustedClickPhase {
    /// A trusted click on a plain, always-present control moves focus to it.
    ProofOfTrust,
    /// A trusted click on a tree row opens its document and the editor takes focus.
    TreeRowFocus,
    /// A trusted click on a backlink opens its source and the editor takes focus.
    BacklinkFocus,
    /// A trusted click on the Text mode tab switches to it and the editor takes focus; the last phase.
    ModeTabFocus,
}

/// Each phase's name.
pub open spec fn phase_name(p: TrustedClickPhase) -> Seq<char> {
    match p {
        TrustedClickPhase::ProofOfTrust => "proof_of_trust"@,
        TrustedClickPhase::TreeRowFocus => "tree_row_focus"@,
        TrustedClickPhase::BacklinkFocus => "backlink_focus"@,
        TrustedClickPhase::ModeTabFocus => "mode_tab_focus"@,
    }
}

/// Each phase's successor; none after the last.
pub open spec fn phase_successor(p: TrustedClickPhase) -> Option<TrustedClickPhase> {
    match p {
        TrustedClickPhase::ProofOfTrust => Some(TrustedClickPhase::TreeRowFocus),
        TrustedClickPhase::TreeRowFocus => Some(TrustedClickPhase::BacklinkFocus),
        TrustedClickPhase::BacklinkFocus => Some(TrustedClickPhase::ModeTabFocus),
        TrustedClickPhase::ModeTabFocus => None,
    }
}

/// The milestone each phase's progress report carries.
pub open spec fn phase_milestone(p: TrustedClickPhase) -> Seq<char> {
    match p {
        TrustedClickPhase::ProofOfTrust => "trusted_click_focused_default_target"@,
        TrustedClickPhase::TreeRowFocus => "tree_row_trusted_click_focused_editor"@,
        TrustedClickPhase::BacklinkFocus => "backlink_trusted_click_focused_editor"@,
        TrustedClickPhase::ModeTabFocus => "mode_tab_trusted_click_focused_editor"@,
    }
}

impl PhaseKind for TrustedClickPhase {
    open spec fn name_spec(self) -> Seq<char> {
        phase_name(self)
    }

    open spec fn successor(self) -> Option<Self> {
        phase_successor(self)
    }

    open spec fn milestone_spec(self) -> Seq<char> {
        phase_milestone(self)
    }

    open spec fn first_spec() -> Self {
        TrustedClickPhase::ProofOfTrust
    }

    fn as_str(self) -> (s: &'static str) {
        match self {
            TrustedClickPhase::ProofOfTrust => "proof_of_trust",
            TrustedClickPhase::TreeRowFocus => "tree_row_focus",
            TrustedClickPhase::BacklinkFocus => "backlink_focus",
            TrustedClickPhase::ModeTabFocus => "mode_tab_focus",
        }
    }

    fn next(self) -> (n: Option<Self>) {
        match self {
            TrustedClickPhase::ProofOfTrust => Some(TrustedClickPhase::TreeRowFocus),
            TrustedClickPhase::TreeRowFocus => Some(TrustedClickPhase::BacklinkFocus),
            TrustedClickPhase::BacklinkFocus => Some(TrustedClickPhase::ModeTabFocus),
            TrustedClickPhase::ModeTabFocus => None,
        }
    }

    fn expected_milestone(self) -> (m: &'static str) {
        match self {
            TrustedClickPhase::ProofOfTrust => "trusted_click_focused_default_target",
            TrustedClickPhase::TreeRowFocus => "tree_row_trusted_click_focused_editor",
            TrustedClickPhase::BacklinkFocus => "backlink_trusted_click_focused_editor",
            TrustedClickPhase::ModeTabFocus => "mode_tab_trusted_click_focused_editor",
        }
    }

    fn first() -> (p: Self) {
        TrustedClickPhase::ProofOfTrust
    }
}

/// Every phase, in the order `next` walks them.
pub open spec fn all_phases() -> Seq<TrustedClickPhase> {
    seq![
        TrustedClickPhase::ProofOfTrust,
        TrustedClickPhase::TreeRowFocus,
        TrustedClickPhase::BacklinkFocus,
        TrustedClickPhase::ModeTabFocus,
    ]
}

/// The milestones of a successful run, in order.
pub open spec fn expected_milestones_spec() -> Seq<Seq<char>> {
    all_phases().map_values(|p: TrustedClickPhase| phase_milestone(p))
}

/// The milestones of a successful run, in order.
pub fn expected_milestones() -> (m: [&'static str; 4])
    ensures
        m@.map_values(|s: &str| s@) == expected_milestones_spec(),
{
    let m = [
        "trusted_click_focused_default_target",
        "tree_row_trusted_click_focused_editor",
        "backlink_trusted_click_focused_editor",
        "mode_tab_trusted_click_focused_editor",
    ];
    assert(m@.map_values(|s: &str| s@) =~= expected_milestones_spec());
    m
}

/// Walking `next` from the first phase visits every phase, in table order,
/// and then stops.
pub proof fn lemma_walk_visits_every_phase()
    ensures
        forall|k: int| 0 <= k < 4 ==> walk(TrustedClickPhase::ProofOfTrust, k as nat) == Some(#[trigger] all_phases()[k]),
        walk(TrustedClickPhase::ProofOfTrust, 4) is None,
        forall|p: TrustedClickPhase| #[trigger] all_phases().contains(p),
{
    assert(walk(TrustedClickPhase::ProofOfTrust, 0) == Some(all_phases()[0]));
    assert(walk(TrustedClickPhase::ProofOfTrust, 1) == Some(all_phases()[1]));
    assert(walk(TrustedClickPhase::ProofOfTrust, 2) == Some(all_phases()[2]));
    assert(walk(TrustedClickPhase::ProofOfTrust, 3) == Some(all_phases()[3]));
    assert(walk(TrustedClickPhase::ProofOfTrust, 4) is None);
    assert forall|p: TrustedClickPhase| #[trigger] all_phases().contains(p) by {
        match p {
            TrustedClickPhase::ProofOfTrust => assert(all_phases()[0] == p),
            TrustedClickPhase::TreeRowFocus => assert(all_phases()[1] == p),
            TrustedClickPhase::BacklinkFocus => assert(all_phases()[2] == p),
            TrustedClickPhase::ModeTabFocus => assert(all_phases()[3] == p),
        }
    }
}

/// The judgement of the run's final result.
pub open spec fn result_spec(result: DriverResult) -> Result<(), Seq<char>> {
    run_result_spec(result, TERMINAL_STAGE@, MARKER@, "trusted-click"@, expected_milestones_spec())
}

/// Checks the run's final result: success at the terminal stage, with the
/// marker, no error toast, and every milestone in order.
pub fn validate_trusted_click_result(result: &DriverResult) -> (r: Result<(), String>)
    ensures
        match result_spec(*result) {
            Ok(u) => r == Ok::<(), String>(u),
            Err(m) => r matches Err(e) && e@ == m,
        },
{
    let expected = expected_milestones();
    validate_run_result(result, TERMINAL_STAGE, MARKER, "trusted-click", &expected)
}

/// This run's phase machine.
pub type TrustedClickMachine = PhaseMachine<TrustedClickPhase>;

/// The trusted-click run's result, recorded once.
#[derive(Debug, Default)]
pub struct TrustedClickTerminal {
    recorded: bool,
}

impl TrustedClickTerminal {
    /// Whether a successful result was recorded.
    pub closed spec fn recorded_spec(&self) -> bool {
        self.recorded
    }

    pub fn new() -> (t: Self)
        ensures
            !t.recorded_spec(),
    {
        TrustedClickTerminal { recorded: false }
    }

    /// Records the run's result: only a result that passes the run's
    /// checks, and only the first one.
    pub fn accept(&mut self, result: &DriverResult) -> (r: Result<(), String>)
        ensures
            result_spec(*result) matches Err(m) ==> (r matches Err(e) && e@ == m)
                && final(self).recorded_spec() == old(self).recorded_spec(),
            result_spec(*result) is Ok && old(self).recorded_spec() ==> (r matches Err(e) && e@
                == "trusted-click terminal result was already recorded"@) && final(self).recorded_spec(),
            result_spec(*result) is Ok && !old(self).recorded_spec() ==> r is Ok
                && final(self).recorded_spec(),
    {
        validate_trusted_click_result(result)?;
        if self.recorded {
            return Err("trusted-click terminal result was already recorded".to_owned());
        }
        self.recorded = true;
        Ok(())
    }

    /// Whether the run succeeded: a valid result was recorded.
    pub fn succeeded(&self) -> (b: bool)
        ensures
            b == self.recorded_spec(),
    {
        self.recorded
    }
}

/// Where to click: the element matching `selector` (the `index`-th one),
/// among those whose text includes `text_includes` when it is given.
#[derive(Debug, Clone, Copy, PartialEq, Eq)]
pub struct ClickTarget {
    pub selector: &'static str,
    pub text_includes: Option<&'static str>,
    pub index: usize,
}

pub const APP_MENU_TRIGGER: &'static str = "#app-menu-trigger";
pub const TREE_FILE_ROW: &'static str = ".tree-row.tree-file";
pub const EDITOR_TOOLS_TRIGGER: &'static str = "#editor-tools-trigger";
/// The editor-tools menu's entries without a launch id: Outline,
/// Backlinks, History, in that order.
pub const EDITOR_TOOLS_ENTRY: &'static str = "#editor-tools-menu .dropdown-item[role=\"menuitem\"]:not([data-source-focus-launch])";
pub const BACKLINK: &'static str = "[data-source-focus-launch^=\"backlink:\"]";
/// The file the tree-row click opens.
pub const CHILD_FILE: &'static str = "child.md";

/// The real clicks sent before a phase's exchange, in order: one under
/// test per phase, and for the backlink phase first the two that open the
/// backlinks panel.
pub open spec fn click_plan(phase: TrustedClickPhase) -> Seq<ClickTarget> {
    match phase {
        TrustedClickPhase::ProofOfTrust => seq![ClickTarget { selector: APP_MENU_TRIGGER, text_includes: None, index: 0 }],
        TrustedClickPhase::TreeRowFocus => seq![ClickTarget { selector: TREE_FILE_ROW, text_includes: Some(CHILD_FILE), index: 0 }],
        TrustedClickPhase::BacklinkFocus => seq![
            ClickTarget { selector: EDITOR_TOOLS_TRIGGER, text_includes: None, index: 0 },
            ClickTarget { selector: EDITOR_TOOLS_ENTRY, text_includes: None, index: 1 },
            ClickTarget { selector: BACKLINK, text_includes: None, index: 0 },
        ],
        TrustedClickPhase::ModeTabFocus => Seq::empty(),
    }
}

/// The real clicks sent before a phase's exchange, in order.
pub fn clicks_for(phase: TrustedClickPhase) -> (clicks: Vec<ClickTarget>)
    ensures
        clicks@ == click_plan(phase),
{
    let mut clicks: Vec<ClickTarget> = Vec::new();
    match phase {
        TrustedClickPhase::ProofOfTrust => {
            clicks.push(ClickTarget { selector: APP_MENU_TRIGGER, text_includes: None, index: 0 });
        },
        TrustedClickPhase::TreeRowFocus => {
            clicks.push(ClickTarget { selector: TREE_FILE_ROW, text_includes: Some(CHILD_FILE), index: 0 });
        },
        TrustedClickPhase::BacklinkFocus => {
            clicks.push(ClickTarget { selector: EDITOR_TOOLS_TRIGGER, text_includes: None, index: 0 });
            clicks.push(ClickTarget { selector: EDITOR_TOOLS_ENTRY, text_includes: None, index: 1 });
            clicks.push(ClickTarget { selector: BACKLINK, text_includes: None, index: 0 });
        },
        TrustedClickPhase::ModeTabFocus => {},
    }
    assert(clicks@ =~= click_plan(phase));
    clicks
}

/// The script text before the locate request's JSON.
pub const LOCATE_HEAD: &'static str = "\n        return (async () => {\n            const request = ";

/// The script text after the locate request's JSON: it waits for the same
/// rect on two polls in a row before it answers, since a freshly launched
/// page can report a position it abandons once layout settles.
pub const LOCATE_TAIL: &'static str = ";\n            const deadline = performance.now() + request.timeoutMs;\n            const sameRect = (a, b) =>\n                a !== null && b !== null &&\n                a.x === b.x && a.y === b.y && a.width === b.width && a.height === b.height;\n            let rect = null;\n            let previous = null;\n            while (performance.now() < deadline) {\n                const matches = [...document.querySelectorAll(request.selector)].filter(\n                    (candidate) =>\n                        request.textIncludes === null ||\n                        candidate.textContent.includes(request.textIncludes),\n                );\n                const el = matches[request.index] ?? null;\n                const current = el && el.getClientRects().length > 0\n                    ? el.getBoundingClientRect()\n                    : null;\n                if (current && sameRect(current, previous)) {\n                    rect = current;\n                    break;\n                }\n                previous = current;\n                await new Promise((resolve) => setTimeout(resolve, 50));\n            }\n            if (!rect) {\n                dioxus.send({ found: false, x: 0, y: 0, width: 0, height: 0 });\n                return;\n            }\n            dioxus.send({\n                found: true,\n                x: rect.x,\n                y: rect.y,\n                width: rect.width,\n                height: rect.height,\n            });\n        })();\n        ";

/// The script that finds a click target's rect, for the encoded request
/// `payload`.
pub fn render_locate_script(payload: &str) -> (script: String)
    ensures
        script@ == LOCATE_HEAD@ + payload@ + LOCATE_TAIL@,
{
    let mut script = String::new();
    push_str(&mut script, LOCATE_HEAD);
    push_str(&mut script, payload);
    push_str(&mut script, LOCATE_TAIL);
    script
}

} // verus!
