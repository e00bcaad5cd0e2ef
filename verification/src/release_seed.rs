//! Each release scenario's own isolated profile: a workspace (or two), a
//! recents entry, and the reopen setting. This module decides what is put
//! on disk; creating the folders and writing the files is the caller's.

use vstd::prelude::*;
use vstd::string::{StrSliceExecFns, StringSliceAdditionalSpecFns};
use crate::link_judge::{NOTE, NOTE_FILE, OTHER_FILE};
use crate::editor_mode::EditorMode;
use crate::release::{scenario_name, ReleaseScenario};
use crate::text::push_str;

verus! {

/// The file the byte scenarios open and edit.
pub const SAVE_FILE: &'static str = "note.md";

/// The variable that tells the app where the opener stubs' log is
/// (`link_clicks_reach_only_the_browser`).
pub const OPENER_LOG_ENV: &'static str = "BEKOEDIT_LINK_OPENER_LOG";

/// Typed into the seeded file by the save scenario. Absent from the
/// original.
pub const EDIT_MARKER: &'static str = "ZQ7";

/// Mixed line endings (CRLF around one bare LF, and an unterminated last
/// line), plus constructs the parser preserves: a table, a fenced block and
/// an HTML comment. The first line is CRLF, and it is the one the scenario
/// edits.
pub const ORIGINAL_NOTE: &'static str = "# Title\r\nplain LF line\nsecond CRLF line\r\n\r\n| a | b |\r\n|---|---|\r\n| 1 | 2 |\r\n\r\n```rust\r\nfn main() {}\r\n```\r\n\r\n<!-- a comment -->\r\nlast line, no terminator";

/// A uniform-CRLF file (every break `\r\n`, and a terminated last line), for
/// the scenario that exercises the uniform-file rule.
pub const ORIGINAL_CRLF_NOTE: &'static str = "# Title\r\n\r\nSecond line\r\n\r\n| a | b |\r\n|---|---|\r\n| 1 | 2 |\r\n\r\n```rust\r\nfn main() {}\r\n```\r\n\r\n<!-- a comment -->\r\nlast line\r\n";

/// The mixed-ending note's bytes.
pub fn original_note() -> (bytes: Vec<u8>)
    ensures
        bytes@ == ORIGINAL_NOTE.spec_bytes(),
{
    ORIGINAL_NOTE.as_bytes_vec()
}

/// The uniform-CRLF note's bytes.
pub fn original_crlf_note() -> (bytes: Vec<u8>)
    ensures
        bytes@ == ORIGINAL_CRLF_NOTE.spec_bytes(),
{
    ORIGINAL_CRLF_NOTE.as_bytes_vec()
}

/// A workspace folder to create under the profile root, with its files.
#[derive(Debug, Clone)]
pub struct SeedWorkspace {
    /// The folder's name under the profile root.
    pub folder: String,
    /// Each file's name in the folder, and its bytes.
    pub files: Vec<(String, Vec<u8>)>,
}

/// What a scenario puts on disk, in order: the older workspace and its
/// recents entry (if any), the scenario's workspace and its newer recents
/// entry, the settings, and last the renaming that makes an entry stale.
#[derive(Debug, Clone)]
pub struct SeedPlan {
    /// An older recent workspace that must stay usable, with its display
    /// name; recorded at time 1.
    pub older: Option<(SeedWorkspace, String)>,
    /// The scenario's workspace; recorded at time 2, so it is the newest.
    pub workspace: SeedWorkspace,
    pub display_name: String,
    /// The file the scenario opens, in the workspace, if any.
    pub file: Option<String>,
    /// That file's exact bytes (empty with no file).
    pub original: Vec<u8>,
    pub reopen_last_workspace: bool,
    /// The mode documents open in.
    pub default_mode: EditorMode,
    /// After the recents entry is written, the workspace folder is renamed
    /// to this, so the entry names a folder that no longer exists.
    pub rename_to: Option<String>,
    /// The scenario needs the opener stubs' log from the environment.
    pub needs_opener_log: bool,
}

/// A seeded file as its name and bytes.
pub open spec fn file_view(f: (String, Vec<u8>)) -> (Seq<char>, Seq<u8>) {
    (f.0@, f.1@)
}

/// The files as names and bytes.
pub open spec fn files_view(files: Seq<(String, Vec<u8>)>) -> Seq<(Seq<char>, Seq<u8>)> {
    files.map_values(|f: (String, Vec<u8>)| file_view(f))
}

/// Two small notes, for the reopen scenarios.
pub open spec fn plain_files() -> Seq<(Seq<char>, Seq<u8>)> {
    seq![("a.md"@, "# a\n".spec_bytes()), ("b.md"@, "# b\n".spec_bytes())]
}

/// The scenario's bytes under test, if it has a file.
pub open spec fn original_of(s: ReleaseScenario) -> Seq<u8> {
    match s {
        ReleaseScenario::SavePreservesCrlfBytes => ORIGINAL_CRLF_NOTE.spec_bytes(),
        ReleaseScenario::SavePreservesBytes | ReleaseScenario::ModeSwitchPreservesBytes
        | ReleaseScenario::PasteProbe => ORIGINAL_NOTE.spec_bytes(),
        _ => Seq::empty(),
    }
}

/// The scenario opens a seeded file.
pub open spec fn has_file(s: ReleaseScenario) -> bool {
    s is SavePreservesBytes || s is SavePreservesCrlfBytes || s is ModeSwitchPreservesBytes
        || s is PasteProbe
}

/// The scenario's workspace folder, display name and files.
pub open spec fn workspace_of(s: ReleaseScenario) -> (Seq<char>, Seq<char>, Seq<(Seq<char>, Seq<u8>)>) {
    match s {
        ReleaseScenario::ReopenUsable | ReleaseScenario::ReopenDisabled => (
            "usable-project"@,
            "Usable Project"@,
            plain_files(),
        ),
        ReleaseScenario::ReopenMissing => ("gone-project"@, "Gone Project"@, plain_files()),
        ReleaseScenario::LinkClicksReachOnlyTheBrowser => (
            "link-project"@,
            "Link Project"@,
            seq![(NOTE_FILE@, NOTE.spec_bytes()), (OTHER_FILE@, "# other\n".spec_bytes())],
        ),
        _ => ("save-project"@, "Save Project"@, seq![(SAVE_FILE@, original_of(s))]),
    }
}

/// What the plan for `s` is.
pub open spec fn plan_matches(plan: SeedPlan, s: ReleaseScenario) -> bool {
    &&& plan.workspace.folder@ == workspace_of(s).0
    &&& plan.display_name@ == workspace_of(s).1
    &&& files_view(plan.workspace.files@) == workspace_of(s).2
    &&& plan.original@ == original_of(s)
    &&& (if has_file(s) { plan.file matches Some(f) && f@ == SAVE_FILE@ } else { plan.file is None })
    &&& plan.reopen_last_workspace == !(s is ReopenDisabled)
    &&& plan.default_mode == (if s is LinkClicksReachOnlyTheBrowser {
        EditorMode::Preview
    } else {
        EditorMode::Text
    })
    &&& (if s is ReopenMissing {
        &&& plan.older matches Some(o) && o.0.folder@ == "older-project"@ && files_view(o.0.files@)
            == plain_files() && o.1@ == "Older Project"@
        &&& plan.rename_to matches Some(r) && r@ == "gone-project-renamed"@
    } else {
        plan.older is None && plan.rename_to is None
    })
    &&& plan.needs_opener_log == (s is LinkClicksReachOnlyTheBrowser)
}

fn file_entry(name: &str, text: &str) -> (f: (String, Vec<u8>))
    ensures
        file_view(f) == (name@, text.spec_bytes()),
{
    (name.to_owned(), text.as_bytes_vec())
}

fn plain() -> (files: Vec<(String, Vec<u8>)>)
    ensures
        files_view(files@) == plain_files(),
{
    let mut files: Vec<(String, Vec<u8>)> = Vec::new();
    files.push(file_entry("a.md", "# a\n"));
    files.push(file_entry("b.md", "# b\n"));
    assert(files_view(files@) =~= plain_files());
    files
}

/// What scenario `s` puts on disk.
pub fn seed_plan(scenario: ReleaseScenario) -> (plan: SeedPlan)
    ensures
        plan_matches(plan, scenario),
{
    let mut older: Option<(SeedWorkspace, String)> = None;
    let mut rename_to: Option<String> = None;
    let mut file: Option<String> = None;
    let mut original: Vec<u8> = Vec::new();
    let (folder, display_name, files): (String, String, Vec<(String, Vec<u8>)>) = match scenario {
        ReleaseScenario::ReopenUsable | ReleaseScenario::ReopenDisabled => (
            "usable-project".to_owned(),
            "Usable Project".to_owned(),
            plain(),
        ),
        ReleaseScenario::ReopenMissing => {
            older = Some(
                (
                    SeedWorkspace { folder: "older-project".to_owned(), files: plain() },
                    "Older Project".to_owned(),
                ),
            );
            rename_to = Some("gone-project-renamed".to_owned());
            ("gone-project".to_owned(), "Gone Project".to_owned(), plain())
        },
        ReleaseScenario::LinkClicksReachOnlyTheBrowser => {
            let mut files: Vec<(String, Vec<u8>)> = Vec::new();
            files.push(file_entry(NOTE_FILE, NOTE));
            files.push(file_entry(OTHER_FILE, "# other\n"));
            assert(files_view(files@) =~= seq![
                (NOTE_FILE@, NOTE.spec_bytes()),
                (OTHER_FILE@, "# other\n".spec_bytes()),
            ]);
            ("link-project".to_owned(), "Link Project".to_owned(), files)
        },
        _ => {
            original = if let ReleaseScenario::SavePreservesCrlfBytes = scenario {
                original_crlf_note()
            } else {
                original_note()
            };
            let mut files: Vec<(String, Vec<u8>)> = Vec::new();
            files.push((SAVE_FILE.to_owned(), original.clone()));
            assert(files_view(files@) =~= seq![(SAVE_FILE@, original_of(scenario))]);
            file = Some(SAVE_FILE.to_owned());
            ("save-project".to_owned(), "Save Project".to_owned(), files)
        },
    };
    let reopen_last_workspace = match scenario {
        ReleaseScenario::ReopenDisabled => false,
        _ => true,
    };
    let default_mode = match scenario {
        ReleaseScenario::LinkClicksReachOnlyTheBrowser => EditorMode::Preview,
        _ => EditorMode::Text,
    };
    let needs_opener_log = match scenario {
        ReleaseScenario::LinkClicksReachOnlyTheBrowser => true,
        _ => false,
    };
    SeedPlan {
        older,
        workspace: SeedWorkspace { folder, files },
        display_name,
        file,
        original,
        reopen_last_workspace,
        default_mode,
        rename_to,
        needs_opener_log,
    }
}

/// The message when the opener log the scenario needs was not given.
pub open spec fn missing_log_text(s: ReleaseScenario) -> Seq<char> {
    scenario_name(s) + ": "@ + OPENER_LOG_ENV@
        + " is not set; run scripts/webview-link-opener-stubs.sh first and pass its log path and BROWSER through the environment"@
}

/// The opener log a scenario runs with: the one from the environment where
/// the scenario needs it, refused by name if it is missing; none otherwise.
pub fn opener_log(scenario: ReleaseScenario, from_env: Option<String>) -> (r: Result<
    Option<String>,
    String,
>)
    ensures
        !(scenario is LinkClicksReachOnlyTheBrowser) ==> r == Ok::<Option<String>, String>(None),
        scenario is LinkClicksReachOnlyTheBrowser ==> match from_env {
            Some(p) => r == Ok::<Option<String>, String>(Some(p)),
            None => r matches Err(m) && m@ == missing_log_text(scenario),
        },
{
    match scenario {
        ReleaseScenario::LinkClicksReachOnlyTheBrowser => match from_env {
            Some(p) => Ok(Some(p)),
            None => {
                let mut m = String::new();
                push_str(&mut m, scenario.name());
                push_str(&mut m, ": ");
                push_str(&mut m, OPENER_LOG_ENV);
                push_str(
                    &mut m,
                    " is not set; run scripts/webview-link-opener-stubs.sh first and pass its log path and BROWSER through the environment",
                );
                assert(m@ =~= missing_log_text(scenario));
                Err(m)
            },
        },
        _ => Ok(None),
    }
}

} // verus!
