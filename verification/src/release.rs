//! The release walkthrough's machine checks: one process launch per
//! scenario, because these are launch-time behaviours and one scenario's
//! state must not reach the next. Each scenario seeds its own isolated
//! profile, so no native dialog is ever involved.
//!
//! This module names the scenarios, holds what a scenario's seed put on
//! disk, and records the run's one result.

use vstd::prelude::*;
use crate::catalog::same_text;
use crate::fmt::{debug_text, push_debug};
use crate::text::push_str;

verus! {

#[derive(Debug, Clone, Copy, PartialEq, Eq, Structural)]
pub enum ReleaseScenario {
    ReopenUsable,
    ReopenMissing,
    ReopenDisabled,
    SavePreservesBytes,
    /// The uniform-file rule: a file whose every break is `\r\n`.
    SavePreservesCrlfBytes,
    /// Open a CRLF file in Text Mode, make no edit, switch to Preview, wait
    /// past autosave: the bytes must not change.
    ModeSwitchPreservesBytes,
    LinkClicksReachOnlyTheBrowser,
    PasteProbe,
}

/// Every scenario, in the order they are tried by name.
pub open spec fn all_scenarios() -> Seq<ReleaseScenario> {
    seq![
        ReleaseScenario::ReopenUsable,
        ReleaseScenario::ReopenMissing,
        ReleaseScenario::ReopenDisabled,
        ReleaseScenario::SavePreservesBytes,
        ReleaseScenario::SavePreservesCrlfBytes,
        ReleaseScenario::ModeSwitchPreservesBytes,
        ReleaseScenario::LinkClicksReachOnlyTheBrowser,
        ReleaseScenario::PasteProbe,
    ]
}

/// The scenario's name on the command line.
pub open spec fn scenario_name(s: ReleaseScenario) -> Seq<char> {
    match s {
        ReleaseScenario::ReopenUsable => "reopen_usable"@,
        ReleaseScenario::ReopenMissing => "reopen_missing"@,
        ReleaseScenario::ReopenDisabled => "reopen_disabled"@,
        ReleaseScenario::SavePreservesBytes => "save_preserves_bytes"@,
        ReleaseScenario::SavePreservesCrlfBytes => "save_preserves_crlf_bytes"@,
        ReleaseScenario::ModeSwitchPreservesBytes => "mode_switch_preserves_bytes"@,
        ReleaseScenario::LinkClicksReachOnlyTheBrowser => "link_clicks_reach_only_the_browser"@,
        ReleaseScenario::PasteProbe => "paste_probe"@,
    }
}

/// The first scenario from index `i` on whose name is `name`, if any.
pub open spec fn scenario_named_from(name: Seq<char>, i: int) -> Option<ReleaseScenario>
    decreases 8 - i,
{
    if i < 0 || i >= 8 {
        None
    } else if scenario_name(all_scenarios()[i]) == name {
        Some(all_scenarios()[i])
    } else {
        scenario_named_from(name, i + 1)
    }
}

/// The message for a name that is no scenario.
pub open spec fn unknown_scenario_text(name: Seq<char>) -> Seq<char> {
    "unknown release-checks scenario "@ + debug_text(name)
        + "; expected reopen_usable, reopen_missing, reopen_disabled, save_preserves_bytes, save_preserves_crlf_bytes, mode_switch_preserves_bytes, link_clicks_reach_only_the_browser or paste_probe"@
}

impl ReleaseScenario {
    /// The scenario's name on the command line.
    pub fn name(self) -> (n: &'static str)
        ensures
            n@ == scenario_name(self),
    {
        match self {
            ReleaseScenario::ReopenUsable => "reopen_usable",
            ReleaseScenario::ReopenMissing => "reopen_missing",
            ReleaseScenario::ReopenDisabled => "reopen_disabled",
            ReleaseScenario::SavePreservesBytes => "save_preserves_bytes",
            ReleaseScenario::SavePreservesCrlfBytes => "save_preserves_crlf_bytes",
            ReleaseScenario::ModeSwitchPreservesBytes => "mode_switch_preserves_bytes",
            ReleaseScenario::LinkClicksReachOnlyTheBrowser => "link_clicks_reach_only_the_browser",
            ReleaseScenario::PasteProbe => "paste_probe",
        }
    }

    /// The scenario with this name; any other text is refused, naming it.
    pub fn parse(name: &str) -> (r: Result<ReleaseScenario, String>)
        ensures
            match scenario_named_from(name@, 0) {
                Some(s) => r == Ok::<ReleaseScenario, String>(s),
                None => r matches Err(m) && m@ == unknown_scenario_text(name@),
            },
    {
        let all = [
            ReleaseScenario::ReopenUsable,
            ReleaseScenario::ReopenMissing,
            ReleaseScenario::ReopenDisabled,
            ReleaseScenario::SavePreservesBytes,
            ReleaseScenario::SavePreservesCrlfBytes,
            ReleaseScenario::ModeSwitchPreservesBytes,
            ReleaseScenario::LinkClicksReachOnlyTheBrowser,
            ReleaseScenario::PasteProbe,
        ];
        assert(all@ =~= all_scenarios());
        let mut i: usize = 0;
        while i < 8
            invariant
                i <= 8,
                all@ == all_scenarios(),
                scenario_named_from(name@, 0) == scenario_named_from(name@, i as int),
            decreases 8 - i,
        {
            if same_text(all[i].name(), name) {
                return Ok(all[i]);
            }
            i = i + 1;
        }
        let mut m = String::new();
        push_str(&mut m, "unknown release-checks scenario ");
        push_debug(&mut m, name);
        push_str(
            &mut m,
            "; expected reopen_usable, reopen_missing, reopen_disabled, save_preserves_bytes, save_preserves_crlf_bytes, mode_switch_preserves_bytes, link_clicks_reach_only_the_browser or paste_probe",
        );
        assert(m@ =~= unknown_scenario_text(name@));
        Err(m)
    }
}

proof fn lemma_named_from(n: Seq<char>, i: int, k: int)
    requires
        0 <= i <= k < 8,
        forall|j: int| i <= j < k ==> scenario_name(#[trigger] all_scenarios()[j]) != n,
        scenario_name(all_scenarios()[k]) == n,
    ensures
        scenario_named_from(n, i) == Some(all_scenarios()[k]),
    decreases k - i,
{
    if i < k {
        lemma_named_from(n, i + 1, k);
    }
}

/// The index of a scenario among all of them.
pub open spec fn scenario_index(s: ReleaseScenario) -> int {
    match s {
        ReleaseScenario::ReopenUsable => 0,
        ReleaseScenario::ReopenMissing => 1,
        ReleaseScenario::ReopenDisabled => 2,
        ReleaseScenario::SavePreservesBytes => 3,
        ReleaseScenario::SavePreservesCrlfBytes => 4,
        ReleaseScenario::ModeSwitchPreservesBytes => 5,
        ReleaseScenario::LinkClicksReachOnlyTheBrowser => 6,
        ReleaseScenario::PasteProbe => 7,
    }
}

/// Every scenario is found again by its own name: `parse` undoes `name`.
pub proof fn lemma_parse_finds_each_name(s: ReleaseScenario)
    ensures
        scenario_named_from(scenario_name(s), 0) == Some(s),
{
    reveal_strlit("reopen_usable");
    reveal_strlit("reopen_missing");
    reveal_strlit("reopen_disabled");
    reveal_strlit("save_preserves_bytes");
    reveal_strlit("save_preserves_crlf_bytes");
    reveal_strlit("mode_switch_preserves_bytes");
    reveal_strlit("link_clicks_reach_only_the_browser");
    reveal_strlit("paste_probe");
    let a = all_scenarios();
    let k = scenario_index(s);
    assert(a[k] == s);
    assert forall|j: int| 0 <= j < k implies scenario_name(#[trigger] a[j]) != scenario_name(s) by {
        assert(scenario_name(a[j]).len() != scenario_name(s).len());
    }
    lemma_named_from(scenario_name(s), 0, k);
}

/// A folder as the checks compare it: its path, and where it resolves on
/// disk when it exists.
#[derive(Debug, Clone)]
pub struct Folder {
    pub path: String,
    /// The path with every link resolved, if the folder exists.
    pub canonical: Option<String>,
}

/// Whether `Path::new(a) == Path::new(b)`: the two paths have the same
/// components.
pub uninterp spec fn same_path(a: Seq<char>, b: Seq<char>) -> bool;

/// `<Path as PartialEq>::eq` on the two paths.
///
/// Claimed: the answer is `same_path` of the two paths, a function of them
/// alone, and a path equals itself (`Path` is `Eq`). How paths split into
/// components (repeated and trailing separators, `.` components) is left
/// unsaid.
#[verifier::external_body]
pub(crate) fn paths_equal(a: &str, b: &str) -> (eq: bool)
    ensures
        eq == same_path(a@, b@),
        a@ == b@ ==> eq,
{
    std::path::Path::new(a) == std::path::Path::new(b)
}

/// Two folders are the same if their paths are, or if both resolve to the
/// same place.
pub open spec fn same_folder(a: Folder, b: Folder) -> bool {
    path_matches(a.path@, b.path@) || (a.canonical is Some && b.canonical is Some && path_matches(
        a.canonical->0@,
        b.canonical->0@,
    ))
}

/// Two paths are equal as paths: the same text, or the same components.
pub open spec fn path_matches(a: Seq<char>, b: Seq<char>) -> bool {
    a == b || same_path(a, b)
}

/// Whether two folders are the same.
pub fn same_dir(a: &Folder, b: &Folder) -> (same: bool)
    ensures
        same == same_folder(*a, *b),
{
    if paths_equal(a.path.as_str(), b.path.as_str()) {
        return true;
    }
    match (&a.canonical, &b.canonical) {
        (Some(x), Some(y)) => paths_equal(x.as_str(), y.as_str()),
        _ => false,
    }
}

/// What a scenario's seed put on disk, so the checks know what to expect.
#[derive(Debug, Clone)]
pub struct Expectation {
    pub workspace: Folder,
    pub display_name: String,
    /// `reopen_missing`: the older, still-usable recent entry that must not
    /// be opened in place of the missing one.
    pub older_workspace: Option<Folder>,
    /// The byte scenarios: the seeded file; its exact bytes are `original`.
    pub file: Option<String>,
    pub original: Vec<u8>,
    /// `link_clicks_reach_only_the_browser`: the opener stubs' log.
    pub opener_log: Option<String>,
}

/// The run's result, recorded once.
#[derive(Debug)]
pub struct ReleaseChecksTerminal {
    recorded: bool,
    pub scenario: ReleaseScenario,
    pub expectation: Expectation,
}

impl ReleaseChecksTerminal {
    /// Whether a result was recorded.
    pub closed spec fn recorded_spec(&self) -> bool {
        self.recorded
    }

    /// The scenario this run is for.
    pub closed spec fn scenario_of(&self) -> ReleaseScenario {
        self.scenario
    }

    /// What the seed put on disk.
    pub closed spec fn expectation_of(&self) -> Expectation {
        self.expectation
    }

    pub fn new(scenario: ReleaseScenario, expectation: Expectation) -> (t: Self)
        ensures
            !t.recorded_spec(),
            t.scenario_of() == scenario,
            t.expectation_of() == expectation,
    {
        ReleaseChecksTerminal { recorded: false, scenario, expectation }
    }

    /// Records the result; only the first call succeeds.
    pub fn accept(&mut self) -> (r: Result<(), String>)
        ensures
            final(self).recorded_spec(),
            final(self).scenario_of() == old(self).scenario_of(),
            final(self).expectation_of() == old(self).expectation_of(),
            r is Ok <==> !old(self).recorded_spec(),
            r matches Err(m) ==> m@ == "release-checks result was already recorded"@,
    {
        if self.recorded {
            return Err("release-checks result was already recorded".to_owned());
        }
        self.recorded = true;
        Ok(())
    }

    /// Whether the run's result was recorded as a success.
    pub fn succeeded(&self) -> (b: bool)
        ensures
            b == self.recorded_spec(),
    {
        self.recorded
    }
}

} // verus!
