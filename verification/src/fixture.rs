//! The fixtures the key spike, the shell-behaviour run and the trusted-click
//! run launch into: a workspace folder named `workspace` in an isolated
//! profile, recorded as the only recent workspace (display name
//! `workspace`, time 1) and reopened at launch, plus each run's files and
//! settings. Laying a plan out on disk is the caller's part.

use vstd::prelude::*;
use crate::editor_mode::EditorMode;
use crate::shell_behaviour::CONFLICT_AUTOSAVE_DEBOUNCE_MS;

verus! {

/// The workspace folder's name under the profile root, and its display name
/// in the recents list.
pub const FIXTURE_WORKSPACE: &'static str = "workspace";

/// A recovery snapshot to store before launch.
#[derive(Debug, Clone, PartialEq, Eq)]
pub struct SeedSnapshot {
    /// The document it recovers, relative to the workspace.
    pub original_path: String,
    pub text: String,
    pub revision: u64,
    pub created_at_secs: u64,
}

/// What a run's fixture puts on disk, in order: the folders under the
/// workspace, then the files, then the recovery snapshot, the settings and
/// the recents entry.
#[derive(Debug, Clone)]
pub struct FixturePlan {
    /// Sub-folders of the workspace, relative to it.
    pub folders: Vec<String>,
    /// Each file's path relative to the workspace, and its text.
    pub files: Vec<(String, String)>,
    pub recovery: Option<SeedSnapshot>,
    /// The mode documents open in; `None` keeps the settings' default.
    pub default_mode: Option<EditorMode>,
    /// The autosave debounce; `None` keeps the settings' default.
    pub autosave_debounce_ms: Option<u64>,
    /// The file the run changes behind the app's back, relative to the
    /// workspace, if any.
    pub conflict_file: Option<String>,
}

/// A file as its path and text.
pub open spec fn seed_file_view(f: (String, String)) -> (Seq<char>, Seq<char>) {
    (f.0@, f.1@)
}

/// The files as paths and texts.
pub open spec fn seed_files_view(files: Seq<(String, String)>) -> Seq<(Seq<char>, Seq<char>)> {
    files.map_values(|f: (String, String)| seed_file_view(f))
}

/// The folders as paths.
pub open spec fn folders_view(folders: Seq<String>) -> Seq<Seq<char>> {
    folders.map_values(|f: String| f@)
}

/// The key spike's two plain files.
pub open spec fn key_spike_files() -> Seq<(Seq<char>, Seq<char>)> {
    seq![("a.md"@, "# a\n"@), ("b.md"@, "# b\n"@)]
}

/// The shell-behaviour run's files: the conflict file in `sub`, the file
/// the recovery snapshot names, a file that is not Markdown, and a last
/// file.
pub open spec fn shell_behaviour_files() -> Seq<(Seq<char>, Seq<char>)> {
    seq![
        ("sub/child.md"@, "# child\n"@),
        ("a.md"@, "# a\n"@),
        ("notes.txt"@, "not markdown\n"@),
        ("z.md"@, "# z\n"@),
    ]
}

/// The text of the shell-behaviour run's recovery snapshot.
pub const RECOVERED_TEXT: &'static str = "# a (recovered by the RFC-044 harness)\n";

/// The trusted-click run's linked pair: `parent.md` links to `child.md`.
pub open spec fn trusted_click_files() -> Seq<(Seq<char>, Seq<char>)> {
    seq![
        ("child.md"@, "# child\n"@),
        ("parent.md"@, "# parent\n\nSee [child](./child.md) for details.\n"@),
    ]
}

fn seed_file(path: &str, text: &str) -> (f: (String, String))
    ensures
        seed_file_view(f) == (path@, text@),
{
    (path.to_owned(), text.to_owned())
}

/// The key spike's fixture: two plain files, the settings' default mode and
/// debounce, no snapshot.
pub fn key_spike_fixture() -> (plan: FixturePlan)
    ensures
        plan.folders@.len() == 0,
        seed_files_view(plan.files@) == key_spike_files(),
        plan.recovery is None,
        plan.default_mode is None,
        plan.autosave_debounce_ms is None,
        plan.conflict_file is None,
{
    let mut files: Vec<(String, String)> = Vec::new();
    files.push(seed_file("a.md", "# a\n"));
    files.push(seed_file("b.md", "# b\n"));
    assert(seed_files_view(files@) =~= key_spike_files());
    FixturePlan {
        folders: Vec::new(),
        files,
        recovery: None,
        default_mode: None,
        autosave_debounce_ms: None,
        conflict_file: None,
    }
}

/// The shell-behaviour run's fixture: one recovery snapshot of `a.md` whose
/// text differs from the file, a one-day autosave debounce so the conflict
/// is never saved over, Text mode, and `sub/child.md` as the conflict file.
pub fn shell_behaviour_fixture() -> (plan: FixturePlan)
    ensures
        folders_view(plan.folders@) == seq!["sub"@],
        seed_files_view(plan.files@) == shell_behaviour_files(),
        plan.recovery matches Some(r) && r.original_path@ == "a.md"@ && r.text@ == RECOVERED_TEXT@
            && r.revision == 1 && r.created_at_secs == 1,
        plan.default_mode == Some(EditorMode::Text),
        plan.autosave_debounce_ms == Some(CONFLICT_AUTOSAVE_DEBOUNCE_MS),
        plan.conflict_file matches Some(f) && f@ == "sub/child.md"@,
{
    let mut folders: Vec<String> = Vec::new();
    folders.push("sub".to_owned());
    let mut files: Vec<(String, String)> = Vec::new();
    files.push(seed_file("sub/child.md", "# child\n"));
    files.push(seed_file("a.md", "# a\n"));
    files.push(seed_file("notes.txt", "not markdown\n"));
    files.push(seed_file("z.md", "# z\n"));
    assert(folders_view(folders@) =~= seq!["sub"@]);
    assert(seed_files_view(files@) =~= shell_behaviour_files());
    FixturePlan {
        folders,
        files,
        recovery: Some(
            SeedSnapshot {
                original_path: "a.md".to_owned(),
                text: RECOVERED_TEXT.to_owned(),
                revision: 1,
                created_at_secs: 1,
            },
        ),
        default_mode: Some(EditorMode::Text),
        autosave_debounce_ms: Some(CONFLICT_AUTOSAVE_DEBOUNCE_MS),
        conflict_file: Some("sub/child.md".to_owned()),
    }
}

/// The trusted-click run's fixture: the linked pair, opened by neither the
/// fixture nor the launch, and Text mode.
pub fn trusted_click_fixture() -> (plan: FixturePlan)
    ensures
        plan.folders@.len() == 0,
        seed_files_view(plan.files@) == trusted_click_files(),
        plan.recovery is None,
        plan.default_mode == Some(EditorMode::Text),
        plan.autosave_debounce_ms is None,
        plan.conflict_file is None,
{
    let mut files: Vec<(String, String)> = Vec::new();
    files.push(seed_file("child.md", "# child\n"));
    files.push(seed_file("parent.md", "# parent\n\nSee [child](./child.md) for details.\n"));
    assert(seed_files_view(files@) =~= trusted_click_files());
    FixturePlan {
        folders: Vec::new(),
        files,
        recovery: None,
        default_mode: Some(EditorMode::Text),
        autosave_debounce_ms: None,
        conflict_file: None,
    }
}

} // verus!
