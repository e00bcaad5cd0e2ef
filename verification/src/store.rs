//! The application state store: the workspace, the single open document
//! session, the save lifecycle and the conflict state.
//!
//! Every command is a decision over this state. Where a command needs the
//! disk (reading a file, writing one, looking at what is there), the store
//! decides what is to be done, the caller does it, and the store takes the
//! outcome back: `save_now` then `save_finished`, `resolve_conflict` then
//! `conflict_resolved`.

use vstd::prelude::*;
use crate::conflict::{detect, detect_spec, needs_decision, ConflictResolution, ConflictState, DiskObservation};
use crate::save::{AutosaveScheduler, SaveState};
use crate::session::{line_ending_of, DocumentSession, Fingerprint, LineEnding, SessionError};

verus! {

/// An open workspace: its root folder and its display name.
#[derive(Debug, Clone, PartialEq, Eq)]
pub struct Workspace {
    pub root_path: String,
    pub display_name: String,
}

/// Store-level command failures.
#[derive(Debug, Clone, PartialEq, Eq)]
pub enum StoreError {
    NoWorkspace,
    NoDocument,
    /// The workspace could not be opened (the reason).
    Workspace(String),
    Session(SessionError),
    /// A file operation failed (the reason).
    FileOp(String),
    /// The file changed on disk; the conflict must be resolved first.
    ConflictPending,
    /// The document has unsaved changes; save or discard before this.
    DocumentDirty,
    /// A new untitled file: Save As chooses its location.
    Untitled,
    SaveFailed(String),
}

/// Unsaved text kept for crash recovery.
#[derive(Debug, Clone, PartialEq, Eq)]
pub struct RecoverySnapshot {
    pub original_path: String,
    pub text: String,
    pub revision: u64,
    pub created_at_secs: u64,
}

/// One saved version of a document, for local history.
#[derive(Debug, Clone, PartialEq, Eq)]
pub struct HistoryEntry {
    pub original_path: String,
    pub text: String,
    pub revision: u64,
    pub saved_at_secs: u64,
}

/// What a save asks of the caller.
#[derive(Debug, Clone, PartialEq, Eq)]
pub enum SaveStep {
    /// Nothing to write: the document is clean.
    Nothing,
    /// Write `text` to `path` atomically, then report with `save_finished`.
    Write { path: String, text: String },
}

/// What resolving a conflict asks of the caller.
#[derive(Debug, Clone, PartialEq, Eq)]
pub enum ResolveStep {
    /// Write `text` over `path`.
    Overwrite { path: String, text: String },
    /// Load document `document_id` again from `path`.
    Reload { document_id: u64, path: String },
    /// Write `text` to `relative_path` inside workspace `root`.
    WriteCopy { root: String, relative_path: String, text: String },
}

/// What the caller did for a `ResolveStep`.
#[derive(Debug, Clone)]
pub enum ResolveOutcome {
    /// The overwrite succeeded, leaving this disk identity.
    Overwritten(Fingerprint),
    /// The document was loaded again.
    Reloaded(DocumentSession),
    /// The copy was written to `path`, leaving this disk identity.
    Copied { path: String, fingerprint: Fingerprint },
    /// The step failed.
    Failed(StoreError),
}

/// Hands out document ids, in increasing order.
#[derive(Debug)]
pub struct DocumentIds {
    next: u64,
}

impl DocumentIds {
    /// The id handed out next.
    pub closed spec fn next_spec(&self) -> u64 {
        self.next
    }
}

/// Root application state.
#[derive(Debug)]
pub struct AppState {
    pub workspace: Option<Workspace>,
    pub session: Option<DocumentSession>,
    pub save_state: SaveState,
    pub conflict: ConflictState,
    pub autosave: AutosaveScheduler,
    pub ids: DocumentIds,
}

/// The recovery snapshot of a session's current text.
pub open spec fn snapshot_of(session: DocumentSession, now_ms: u64) -> RecoverySnapshot {
    RecoverySnapshot {
        original_path: session.path,
        text: session.canonical_text,
        revision: session.revision,
        created_at_secs: (now_ms / 1000) as u64,
    }
}

/// The history entry of a session's current text.
pub open spec fn history_of(session: DocumentSession, now_ms: u64) -> HistoryEntry {
    HistoryEntry {
        original_path: session.path,
        text: session.canonical_text,
        revision: session.revision,
        saved_at_secs: (now_ms / 1000) as u64,
    }
}

/// The save state after an edit, given the autosave schedule it left.
pub open spec fn edited_state(due: Option<u64>) -> SaveState {
    match due {
        Some(due_at_ms) => SaveState::AutoSaveScheduled { due_at_ms },
        None => SaveState::Dirty,
    }
}

/// No edit's autosave arithmetic can overflow.
pub open spec fn can_schedule(autosave: AutosaveScheduler, now_ms: u64) -> bool {
    now_ms + autosave.debounce() <= u64::MAX
}

fn snapshot(session: &DocumentSession, now_ms: u64) -> (s: RecoverySnapshot)
    ensures
        s == snapshot_of(*session, now_ms),
{
    RecoverySnapshot {
        original_path: session.path.clone(),
        text: session.canonical_text.clone(),
        revision: session.revision,
        created_at_secs: now_ms / 1000,
    }
}

fn history(session: &DocumentSession, now_ms: u64) -> (h: HistoryEntry)
    ensures
        h == history_of(*session, now_ms),
{
    HistoryEntry {
        original_path: session.path.clone(),
        text: session.canonical_text.clone(),
        revision: session.revision,
        saved_at_secs: now_ms / 1000,
    }
}

impl DocumentIds {
    fn take(&mut self) -> (id: u64)
        requires
            old(self).next_spec() < u64::MAX,
        ensures
            id == old(self).next_spec(),
            final(self).next_spec() == old(self).next_spec() + 1,
    {
        let id = self.next;
        self.next = self.next + 1;
        id
    }

    fn has_next(&self) -> (b: bool)
        ensures
            b == (self.next_spec() < u64::MAX),
    {
        self.next < u64::MAX
    }
}

impl AppState {
    /// The id the next opened document receives.
    pub open spec fn next_id(&self) -> u64 {
        self.ids.next_spec()
    }

    /// Whether another document id can be handed out.
    pub fn ids_left(&self) -> (left: bool)
        ensures
            left == (self.next_id() < u64::MAX),
    {
        self.ids.has_next()
    }

    /// Whether an edit at `now_ms` stays within the counters: the open
    /// document's revision can grow and the autosave deadline fits.
    pub fn edit_fits(&self, now_ms: u64) -> (fits: bool)
        ensures
            fits == (can_schedule(self.autosave, now_ms) && (self.session matches Some(s) ==> s.revision
                < u64::MAX)),
    {
        let revision_fits = match &self.session {
            Some(s) => s.revision < u64::MAX,
            None => true,
        };
        revision_fits && self.autosave.debounce_ms() <= u64::MAX - now_ms
    }

    pub fn new(autosave_debounce_ms: u64) -> (s: Self)
        ensures
            s.workspace is None,
            s.session is None,
            s.save_state == SaveState::Clean,
            s.conflict == ConflictState::NoConflict,
            s.autosave.debounce() == autosave_debounce_ms,
            s.autosave.enabled_spec(),
            s.autosave.due() is None,
            !s.autosave.paused_spec(),
            s.next_id() == 1,
    {
        AppState {
            workspace: None,
            session: None,
            save_state: SaveState::Clean,
            conflict: ConflictState::NoConflict,
            autosave: AutosaveScheduler::new(autosave_debounce_ms),
            ids: DocumentIds { next: 1 },
        }
    }

    /// A fresh document id; ids are handed out in increasing order.
    pub fn allocate_document_id(&mut self) -> (id: u64)
        requires
            old(self).next_id() < u64::MAX,
        ensures
            id == old(self).next_id(),
            final(self).next_id() == old(self).next_id() + 1,
            final(self).workspace == old(self).workspace,
            final(self).session == old(self).session,
            final(self).save_state == old(self).save_state,
            final(self).conflict == old(self).conflict,
            final(self).autosave == old(self).autosave,
    {
        self.ids.take()
    }

    /// The open workspace's root.
    pub fn workspace_root(&self) -> (r: Result<String, StoreError>)
        ensures
            match self.workspace {
                Some(w) => r == Ok::<String, StoreError>(w.root_path),
                None => r == Err::<String, StoreError>(StoreError::NoWorkspace),
            },
    {
        match &self.workspace {
            Some(w) => Ok(w.root_path.clone()),
            None => Err(StoreError::NoWorkspace),
        }
    }

    /// Makes `workspace` the active workspace, with no document open.
    pub fn open_workspace(&mut self, workspace: Workspace)
        ensures
            final(self).workspace == Some(workspace),
            final(self).session is None,
            final(self).save_state == SaveState::Clean,
            final(self).conflict == ConflictState::NoConflict,
            final(self).autosave == old(self).autosave,
            final(self).next_id() == old(self).next_id(),
    {
        self.workspace = Some(workspace);
        self.session = None;
        self.save_state = SaveState::Clean;
        self.conflict = ConflictState::NoConflict;
    }

    /// Makes a freshly loaded `session` the active document: clean, no
    /// conflict, autosave running with nothing pending.
    pub fn open_document(&mut self, session: DocumentSession)
        ensures
            final(self).session == Some(session),
            final(self).save_state == SaveState::Clean,
            final(self).conflict == ConflictState::NoConflict,
            !final(self).autosave.paused_spec(),
            final(self).autosave.due() is None,
            final(self).autosave.debounce() == old(self).autosave.debounce(),
            final(self).autosave.enabled_spec() == old(self).autosave.enabled_spec(),
            final(self).workspace == old(self).workspace,
            final(self).next_id() == old(self).next_id(),
    {
        self.session = Some(session);
        self.save_state = SaveState::Clean;
        self.conflict = ConflictState::NoConflict;
        self.autosave.resume();
        self.autosave.clear();
    }

    /// After an accepted edit: (re)schedule autosave and report the
    /// recovery snapshot to keep for the edited text.
    pub fn after_edit(&mut self, now_ms: u64) -> (snap: Option<RecoverySnapshot>)
        requires
            old(self).autosave.enabled_spec() && !old(self).autosave.paused_spec() ==> can_schedule(
                old(self).autosave,
                now_ms,
            ),
        ensures
            final(self).autosave.due() == if old(self).autosave.enabled_spec()
                && !old(self).autosave.paused_spec() {
                Some((now_ms + old(self).autosave.debounce()) as u64)
            } else {
                old(self).autosave.due()
            },
            final(self).autosave.paused_spec() == old(self).autosave.paused_spec(),
            final(self).autosave.debounce() == old(self).autosave.debounce(),
            final(self).autosave.enabled_spec() == old(self).autosave.enabled_spec(),
            final(self).save_state == edited_state(final(self).autosave.due()),
            snap == match old(self).session {
                Some(s) => Some(snapshot_of(s, now_ms)),
                None => None::<RecoverySnapshot>,
            },
            final(self).session == old(self).session,
            final(self).workspace == old(self).workspace,
            final(self).conflict == old(self).conflict,
            final(self).next_id() == old(self).next_id(),
    {
        self.autosave.note_edit(now_ms);
        self.save_state = match self.autosave.due_at() {
            Some(due_at_ms) => SaveState::AutoSaveScheduled { due_at_ms },
            None => SaveState::Dirty,
        };
        match &self.session {
            Some(session) => Some(snapshot(session, now_ms)),
            None => None,
        }
    }

    /// Text Mode edit: a whole-document snapshot at `base_revision`.
    /// Refused while a conflict awaits the user's decision.
    pub fn edit_text(&mut self, base_revision: u64, text: String, now_ms: u64) -> (r: Result<
        Option<RecoverySnapshot>,
        StoreError,
    >)
        requires
            old(self).session matches Some(s) ==> s.revision < u64::MAX,
            can_schedule(old(self).autosave, now_ms),
        ensures
            needs_decision(old(self).conflict) ==> r == Err::<Option<RecoverySnapshot>, StoreError>(
                StoreError::ConflictPending,
            ) && *final(self) == *old(self),
            !needs_decision(old(self).conflict) && old(self).session is None ==> r == Err::<
                Option<RecoverySnapshot>,
                StoreError,
            >(StoreError::NoDocument) && *final(self) == *old(self),
            old(self).session matches Some(s) ==> (!needs_decision(old(self).conflict) ==> {
                if base_revision != s.revision {
                    &&& r == Err::<Option<RecoverySnapshot>, StoreError>(
                        StoreError::Session(
                            SessionError::TextRevisionMismatch { base: base_revision, current: s.revision },
                        ),
                    )
                    &&& *final(self) == *old(self)
                } else {
                    let edited = if text@ == s.canonical_text@ {
                        s
                    } else {
                        DocumentSession {
                            canonical_text: text,
                            revision: (s.revision + 1) as u64,
                            dirty: true,
                            ..s
                        }
                    };
                    &&& final(self).session matches Some(t) && t.canonical_text@ == edited.canonical_text@
                        && t.revision == edited.revision && t.dirty == edited.dirty && t.path == s.path
                        && t.document_id == s.document_id && t.is_untitled == s.is_untitled
                        && t.disk_fingerprint == s.disk_fingerprint
                    &&& text@ != s.canonical_text@ ==> final(self).session->0.line_ending == line_ending_of(text@)
                    &&& r matches Ok(Some(snap)) && snap.original_path == s.path
                        && snap.text@ == edited.canonical_text@ && snap.revision == edited.revision
                        && snap.created_at_secs == now_ms / 1000
                    &&& final(self).autosave.due() == if old(self).autosave.enabled_spec()
                        && !old(self).autosave.paused_spec() {
                        Some((now_ms + old(self).autosave.debounce()) as u64)
                    } else {
                        old(self).autosave.due()
                    }
                    &&& final(self).autosave.paused_spec() == old(self).autosave.paused_spec()
                    &&& final(self).save_state == edited_state(final(self).autosave.due())
                    &&& final(self).conflict == old(self).conflict
                    &&& final(self).workspace == old(self).workspace
                    &&& final(self).next_id() == old(self).next_id()
                }
            }),
    {
        if self.conflict.requires_user_decision() {
            return Err(StoreError::ConflictPending);
        }
        let applied = match &mut self.session {
            None => {
                return Err(StoreError::NoDocument);
            },
            Some(session) => session.apply_text_snapshot(base_revision, text),
        };
        match applied {
            Err(e) => {
                return Err(StoreError::Session(e));
            },
            Ok(()) => {},
        }
        Ok(self.after_edit(now_ms))
    }

    /// Form Mode edit: `patched` is the open document's text with the form
    /// command's patch applied, or why it could not be. Refused while a
    /// conflict awaits the user's decision.
    pub fn edit_form(&mut self, patched: Result<String, SessionError>, now_ms: u64) -> (r: Result<
        Option<RecoverySnapshot>,
        StoreError,
    >)
        requires
            old(self).session matches Some(s) ==> s.revision < u64::MAX,
            can_schedule(old(self).autosave, now_ms),
        ensures
            needs_decision(old(self).conflict) ==> r == Err::<Option<RecoverySnapshot>, StoreError>(
                StoreError::ConflictPending,
            ) && *final(self) == *old(self),
            !needs_decision(old(self).conflict) && old(self).session is None ==> r == Err::<
                Option<RecoverySnapshot>,
                StoreError,
            >(StoreError::NoDocument) && *final(self) == *old(self),
            !needs_decision(old(self).conflict) && old(self).session is Some ==> match patched {
                Err(e) => r == Err::<Option<RecoverySnapshot>, StoreError>(StoreError::Session(e))
                    && *final(self) == *old(self),
                Ok(text) => {
                    let s = old(self).session->0;
                    &&& final(self).session matches Some(t) && t.canonical_text == text
                        && t.revision == s.revision + 1 && t.dirty && t.path == s.path
                        && t.document_id == s.document_id
                    &&& r matches Ok(Some(snap)) && snap.text == text && snap.original_path == s.path
                        && snap.revision == s.revision + 1
                    &&& final(self).save_state == edited_state(final(self).autosave.due())
                    &&& final(self).conflict == old(self).conflict
                    &&& final(self).workspace == old(self).workspace
                },
            },
    {
        if self.conflict.requires_user_decision() {
            return Err(StoreError::ConflictPending);
        }
        let applied = match &mut self.session {
            None => {
                return Err(StoreError::NoDocument);
            },
            Some(session) => session.apply_form_result(patched),
        };
        match applied {
            Err(e) => {
                return Err(StoreError::Session(e));
            },
            Ok(()) => {},
        }
        Ok(self.after_edit(now_ms))
    }

    /// The autosave tick: when a document is open and its autosave is due,
    /// the save's first half (see `save_now`); otherwise nothing.
    pub fn autosave_tick(&mut self, now_ms: u64, observed: DiskObservation) -> (r: Result<
        Option<SaveStep>,
        StoreError,
    >)
        ensures
            !(old(self).session is Some && old(self).autosave.due_spec(now_ms)) ==> r == Ok::<
                Option<SaveStep>,
                StoreError,
            >(None) && *final(self) == *old(self),
            old(self).session is Some && old(self).autosave.due_spec(now_ms) ==> (r is Ok ==> r->Ok_0
                is Some),
            old(self).session is Some && old(self).autosave.due_spec(now_ms) ==> {
                let s = old(self).session->0;
                let detected = detect_spec(s.disk_fingerprint is Some, observed, s.dirty);
                &&& final(self).conflict == detected
                &&& final(self).session == old(self).session
                &&& if needs_decision(detected) {
                    &&& r == Err::<Option<SaveStep>, StoreError>(StoreError::ConflictPending)
                    &&& final(self).save_state == SaveState::ConflictResolutionRequired
                } else if s.is_untitled {
                    r == Err::<Option<SaveStep>, StoreError>(StoreError::Untitled)
                } else if !s.dirty {
                    r == Ok::<Option<SaveStep>, StoreError>(Some(SaveStep::Nothing))
                } else {
                    &&& r == Ok::<Option<SaveStep>, StoreError>(
                        Some(SaveStep::Write { path: s.path, text: s.canonical_text }),
                    )
                    &&& final(self).save_state == SaveState::Saving
                }
            },
    {
        if self.session.is_none() || !self.autosave.is_due(now_ms) {
            return Ok(None);
        }
        match self.save_now(observed) {
            Ok(step) => Ok(Some(step)),
            Err(e) => Err(e),
        }
    }

    /// An outline move of one section: `moved` is the document's text with
    /// the section moved, or why the move could not be made. The moved text
    /// is applied as an edit at the current revision. Refused while a
    /// conflict awaits the user's decision.
    pub fn apply_section_move(&mut self, moved: Result<String, String>, now_ms: u64) -> (r: Result<
        Option<RecoverySnapshot>,
        StoreError,
    >)
        requires
            old(self).session matches Some(s) ==> s.revision < u64::MAX,
            can_schedule(old(self).autosave, now_ms),
        ensures
            needs_decision(old(self).conflict) ==> r == Err::<Option<RecoverySnapshot>, StoreError>(
                StoreError::ConflictPending,
            ) && *final(self) == *old(self),
            !needs_decision(old(self).conflict) && old(self).session is None ==> r == Err::<
                Option<RecoverySnapshot>,
                StoreError,
            >(StoreError::NoDocument) && *final(self) == *old(self),
            !needs_decision(old(self).conflict) && old(self).session is Some ==> match moved {
                Err(e) => r == Err::<Option<RecoverySnapshot>, StoreError>(StoreError::SaveFailed(e))
                    && *final(self) == *old(self),
                Ok(text) => {
                    let s = old(self).session->0;
                    let changed = text@ != s.canonical_text@;
                    &&& final(self).session matches Some(t) && t.canonical_text@ == text@
                        && t.revision == (if changed { (s.revision + 1) as u64 } else { s.revision })
                        && t.dirty == (s.dirty || changed) && t.path == s.path
                        && t.document_id == s.document_id
                    &&& r matches Ok(Some(snap)) && snap.text@ == text@ && snap.original_path == s.path
                    &&& final(self).save_state == edited_state(final(self).autosave.due())
                    &&& final(self).conflict == old(self).conflict
                    &&& final(self).workspace == old(self).workspace
                },
            },
    {
        if self.conflict.requires_user_decision() {
            return Err(StoreError::ConflictPending);
        }
        let revision = match &self.session {
            None => {
                return Err(StoreError::NoDocument);
            },
            Some(session) => session.revision,
        };
        match moved {
            Err(e) => Err(StoreError::SaveFailed(e)),
            Ok(text) => self.edit_text(revision, text, now_ms),
        }
    }

    /// Detects external modification of the open document from what the
    /// caller observed on disk. A conflict that needs the user's decision
    /// pauses autosave.
    pub fn check_external_change(&mut self, observed: DiskObservation) -> (c: ConflictState)
        ensures
            c == final(self).conflict,
            match old(self).session {
                None => *final(self) == *old(self),
                Some(s) => {
                    let detected = detect_spec(s.disk_fingerprint is Some, observed, s.dirty);
                    &&& final(self).conflict == detected
                    &&& final(self).session == old(self).session
                    &&& final(self).workspace == old(self).workspace
                    &&& final(self).next_id() == old(self).next_id()
                    &&& if needs_decision(detected) {
                        &&& final(self).autosave.paused_spec()
                        &&& final(self).autosave.due() is None
                        &&& final(self).autosave.debounce() == old(self).autosave.debounce()
                        &&& final(self).autosave.enabled_spec() == old(self).autosave.enabled_spec()
                        &&& final(self).save_state == SaveState::ConflictResolutionRequired
                    } else {
                        &&& final(self).autosave == old(self).autosave
                        &&& final(self).save_state == old(self).save_state
                    }
                },
            },
    {
        match &self.session {
            Some(session) => {
                self.conflict = detect(session.disk_fingerprint.is_some(), observed, session.dirty);
                if self.conflict.requires_user_decision() {
                    self.autosave.pause();
                    self.save_state = SaveState::ConflictResolutionRequired;
                }
            },
            None => {},
        }
        self.conflict
    }

    /// Whether a due autosave should run now.
    pub fn autosave_due(&self, now_ms: u64) -> (due: bool)
        ensures
            due == (self.session is Some && self.autosave.due_spec(now_ms)),
    {
        self.session.is_some() && self.autosave.is_due(now_ms)
    }

    /// Manual or autosave write, first half: the conflict check, then what
    /// to write. An untitled document must use `save_as`; a clean one needs
    /// no write.
    pub fn save_now(&mut self, observed: DiskObservation) -> (r: Result<SaveStep, StoreError>)
        ensures
            match old(self).session {
                None => {
                    &&& r == Err::<SaveStep, StoreError>(
                        if needs_decision(old(self).conflict) {
                            StoreError::ConflictPending
                        } else {
                            StoreError::NoDocument
                        },
                    )
                    &&& *final(self) == *old(self)
                },
                Some(s) => {
                    let detected = detect_spec(s.disk_fingerprint is Some, observed, s.dirty);
                    &&& final(self).conflict == detected
                    &&& final(self).session == old(self).session
                    &&& final(self).workspace == old(self).workspace
                    &&& final(self).next_id() == old(self).next_id()
                    &&& if needs_decision(detected) {
                        &&& r == Err::<SaveStep, StoreError>(StoreError::ConflictPending)
                        &&& final(self).autosave.paused_spec()
                        &&& final(self).save_state == SaveState::ConflictResolutionRequired
                    } else if s.is_untitled {
                        &&& r == Err::<SaveStep, StoreError>(StoreError::Untitled)
                        &&& final(self).autosave == old(self).autosave
                        &&& final(self).save_state == old(self).save_state
                    } else if !s.dirty {
                        &&& r == Ok::<SaveStep, StoreError>(SaveStep::Nothing)
                        &&& final(self).autosave.due() is None
                        &&& final(self).autosave.paused_spec() == old(self).autosave.paused_spec()
                        &&& final(self).save_state == old(self).save_state
                    } else {
                        &&& r == Ok::<SaveStep, StoreError>(
                            SaveStep::Write { path: s.path, text: s.canonical_text },
                        )
                        &&& final(self).autosave == old(self).autosave
                        &&& final(self).save_state == SaveState::Saving
                    }
                },
            },
    {
        if self.check_external_change(observed).requires_user_decision() {
            return Err(StoreError::ConflictPending);
        }
        let step = match &self.session {
            None => {
                return Err(StoreError::NoDocument);
            },
            Some(session) => {
                if session.is_untitled {
                    return Err(StoreError::Untitled);
                }
                if !session.dirty {
                    SaveStep::Nothing
                } else {
                    SaveStep::Write {
                        path: session.path.clone(),
                        text: session.canonical_text.clone(),
                    }
                }
            },
        };
        match step {
            SaveStep::Nothing => {
                self.autosave.clear();
            },
            SaveStep::Write { .. } => {
                self.save_state = SaveState::Saving;
            },
        }
        Ok(step)
    }

    /// Manual or autosave write, second half: the outcome of the write
    /// `save_now` asked for. A success marks the document saved and
    /// returns the history entry to record; a failure keeps the dirty text
    /// intact.
    pub fn save_finished(&mut self, now_ms: u64, written: Result<Fingerprint, String>) -> (r:
        Result<HistoryEntry, StoreError>)
        ensures
            match (old(self).session, written) {
                (None, _) => r == Err::<HistoryEntry, StoreError>(StoreError::NoDocument)
                    && *final(self) == *old(self),
                (Some(s), Ok(fingerprint)) => {
                    &&& r == Ok::<HistoryEntry, StoreError>(history_of(s, now_ms))
                    &&& final(self).session == Some(
                        DocumentSession { dirty: false, disk_fingerprint: Some(fingerprint), ..s },
                    )
                    &&& final(self).autosave.due() is None
                    &&& final(self).autosave.paused_spec() == old(self).autosave.paused_spec()
                    &&& final(self).save_state == SaveState::Saved { at_ms: now_ms }
                    &&& final(self).conflict == old(self).conflict
                    &&& final(self).workspace == old(self).workspace
                },
                (Some(s), Err(message)) => {
                    &&& r == Err::<HistoryEntry, StoreError>(StoreError::SaveFailed(message))
                    &&& final(self).session == old(self).session
                    &&& final(self).save_state == SaveState::SaveFailed {
                        message,
                        retryable: true,
                    }
                    &&& final(self).autosave == old(self).autosave
                    &&& final(self).conflict == old(self).conflict
                    &&& final(self).workspace == old(self).workspace
                },
            },
            final(self).next_id() == old(self).next_id(),
    {
        match written {
            Ok(fingerprint) => {
                let entry = match &mut self.session {
                    None => {
                        return Err(StoreError::NoDocument);
                    },
                    Some(session) => {
                        session.mark_saved(fingerprint);
                        history(session, now_ms)
                    },
                };
                self.autosave.clear();
                self.save_state = SaveState::Saved { at_ms: now_ms };
                Ok(entry)
            },
            Err(message) => {
                if self.session.is_none() {
                    return Err(StoreError::NoDocument);
                }
                self.save_state = SaveState::SaveFailed {
                    message: message.clone(),
                    retryable: true,
                };
                Err(StoreError::SaveFailed(message))
            },
        }
    }

    /// Applies the user's conflict decision, first half: what the caller
    /// must do on disk for it.
    pub fn resolve_conflict(&self, resolution: ConflictResolution) -> (r: Result<
        ResolveStep,
        StoreError,
    >)
        ensures
            match (self.workspace, self.session) {
                (None, _) => r == Err::<ResolveStep, StoreError>(StoreError::NoWorkspace),
                (Some(_), None) => r == Err::<ResolveStep, StoreError>(StoreError::NoDocument),
                (Some(w), Some(s)) => r == Ok::<ResolveStep, StoreError>(
                    match resolution {
                        ConflictResolution::KeepMine => ResolveStep::Overwrite {
                            path: s.path,
                            text: s.canonical_text,
                        },
                        ConflictResolution::ReloadDisk => ResolveStep::Reload {
                            document_id: s.document_id,
                            path: s.path,
                        },
                        ConflictResolution::SaveCopy { relative_path } => ResolveStep::WriteCopy {
                            root: w.root_path,
                            relative_path,
                            text: s.canonical_text,
                        },
                    },
                ),
            },
    {
        let root = match &self.workspace {
            None => {
                return Err(StoreError::NoWorkspace);
            },
            Some(w) => w.root_path.clone(),
        };
        let session = match &self.session {
            None => {
                return Err(StoreError::NoDocument);
            },
            Some(session) => session,
        };
        Ok(
            match resolution {
                ConflictResolution::KeepMine => ResolveStep::Overwrite {
                    path: session.path.clone(),
                    text: session.canonical_text.clone(),
                },
                ConflictResolution::ReloadDisk => ResolveStep::Reload {
                    document_id: session.document_id,
                    path: session.path.clone(),
                },
                ConflictResolution::SaveCopy { relative_path } => ResolveStep::WriteCopy {
                    root,
                    relative_path,
                    text: session.canonical_text.clone(),
                },
            },
        )
    }

    /// Applies the user's conflict decision, second half: the outcome of
    /// the step. A failed step changes nothing, and the conflict stays; any
    /// other outcome ends the conflict and resumes autosave. Returns the
    /// history entry to record, if the outcome saved the text.
    pub fn conflict_resolved(&mut self, now_ms: u64, outcome: ResolveOutcome) -> (r: Result<
        Option<HistoryEntry>,
        StoreError,
    >)
        ensures
            final(self).workspace == old(self).workspace,
            final(self).next_id() == old(self).next_id(),
            match (old(self).session, outcome) {
                (_, ResolveOutcome::Failed(e)) => r == Err::<Option<HistoryEntry>, StoreError>(e)
                    && *final(self) == *old(self),
                (None, _) => r == Err::<Option<HistoryEntry>, StoreError>(StoreError::NoDocument)
                    && *final(self) == *old(self),
                (Some(s), ResolveOutcome::Overwritten(fingerprint)) => {
                    &&& r == Ok::<Option<HistoryEntry>, StoreError>(Some(history_of(s, now_ms)))
                    &&& final(self).session == Some(
                        DocumentSession { dirty: false, disk_fingerprint: Some(fingerprint), ..s },
                    )
                    &&& final(self).save_state == SaveState::Saved { at_ms: now_ms }
                    &&& final(self).conflict == ConflictState::NoConflict
                    &&& !final(self).autosave.paused_spec()
                    &&& final(self).autosave.due() == old(self).autosave.due()
                },
                (Some(s), ResolveOutcome::Reloaded(loaded)) => {
                    &&& r == Ok::<Option<HistoryEntry>, StoreError>(None)
                    &&& final(self).session == Some(loaded)
                    &&& final(self).save_state == SaveState::Clean
                    &&& final(self).conflict == ConflictState::NoConflict
                    &&& !final(self).autosave.paused_spec()
                    &&& final(self).autosave.due() == old(self).autosave.due()
                },
                (Some(s), ResolveOutcome::Copied { path, fingerprint }) => {
                    &&& r == Ok::<Option<HistoryEntry>, StoreError>(Some(history_of(s, now_ms)))
                    &&& final(self).session == Some(
                        DocumentSession {
                            path,
                            dirty: false,
                            disk_fingerprint: Some(fingerprint),
                            ..s
                        },
                    )
                    &&& final(self).save_state == SaveState::Saved { at_ms: now_ms }
                    &&& final(self).conflict == ConflictState::NoConflict
                    &&& !final(self).autosave.paused_spec()
                    &&& final(self).autosave.due() == old(self).autosave.due()
                },
            },
    {
        if let ResolveOutcome::Failed(e) = outcome {
            return Err(e);
        }
        let entry = match &mut self.session {
            None => {
                return Err(StoreError::NoDocument);
            },
            Some(session) => match outcome {
                ResolveOutcome::Overwritten(fingerprint) => {
                    session.mark_saved(fingerprint);
                    Some(history(session, now_ms))
                },
                ResolveOutcome::Reloaded(loaded) => {
                    *session = loaded;
                    None
                },
                ResolveOutcome::Copied { path, fingerprint } => {
                    let entry = history(session, now_ms);
                    session.path = path;
                    session.mark_saved(fingerprint);
                    Some(entry)
                },
                ResolveOutcome::Failed(_) => {
                    return Err(StoreError::NoDocument);
                },
            },
        };
        self.save_state = if entry.is_some() {
            SaveState::Saved { at_ms: now_ms }
        } else {
            SaveState::Clean
        };
        self.conflict = ConflictState::NoConflict;
        self.autosave.resume();
        Ok(entry)
    }

    /// A blank in-memory document, at the scratch `path` the caller chose,
    /// needing no workspace. Autosave stays paused for it: an untitled file
    /// is only written through Save As.
    pub fn new_untitled(&mut self, path: String)
        requires
            old(self).next_id() < u64::MAX,
        ensures
            final(self).session == Some(
                DocumentSession {
                    document_id: old(self).next_id(),
                    path,
                    canonical_text: final(self).session->0.canonical_text,
                    revision: 1,
                    dirty: true,
                    is_untitled: true,
                    disk_fingerprint: None,
                    line_ending: LineEnding::Lf,
                },
            ),
            final(self).session->0.canonical_text@ == Seq::<char>::empty(),
            final(self).next_id() == old(self).next_id() + 1,
            final(self).save_state == SaveState::Dirty,
            final(self).conflict == ConflictState::NoConflict,
            final(self).autosave.paused_spec(),
            final(self).autosave.due() is None,
            final(self).autosave.debounce() == old(self).autosave.debounce(),
            final(self).autosave.enabled_spec() == old(self).autosave.enabled_spec(),
            final(self).workspace == old(self).workspace,
    {
        let id = self.allocate_document_id();
        self.session = Some(DocumentSession::new_untitled(id, path));
        self.save_state = SaveState::Dirty;
        self.conflict = ConflictState::NoConflict;
        self.autosave.clear();
        self.autosave.pause();
    }

    /// Moves the open document to a permanent `new_path` and saves it the
    /// normal way (see `save_now`).
    pub fn save_as(&mut self, new_path: String, observed: DiskObservation) -> (r: Result<
        SaveStep,
        StoreError,
    >)
        ensures
            old(self).session is None ==> r == Err::<SaveStep, StoreError>(StoreError::NoDocument)
                && *final(self) == *old(self),
            old(self).session matches Some(s) ==> {
                let moved = DocumentSession { path: new_path, is_untitled: false, ..s };
                let detected = detect_spec(moved.disk_fingerprint is Some, observed, moved.dirty);
                &&& final(self).session == Some(moved)
                &&& final(self).conflict == detected
                &&& if needs_decision(detected) {
                    &&& r == Err::<SaveStep, StoreError>(StoreError::ConflictPending)
                    &&& final(self).save_state == SaveState::ConflictResolutionRequired
                } else if !moved.dirty {
                    &&& r == Ok::<SaveStep, StoreError>(SaveStep::Nothing)
                    &&& final(self).save_state == old(self).save_state
                } else {
                    &&& r == Ok::<SaveStep, StoreError>(
                        SaveStep::Write { path: new_path, text: s.canonical_text },
                    )
                    &&& final(self).save_state == SaveState::Saving
                }
            },
    {
        match &mut self.session {
            None => {
                return Err(StoreError::NoDocument);
            },
            Some(session) => {
                session.path = new_path;
                session.is_untitled = false;
            },
        }
        self.save_now(observed)
    }

    /// Closes the workspace and the document, returning to the start
    /// screen. Dirty documents are not saved automatically.
    pub fn close_workspace(&mut self)
        ensures
            final(self).workspace is None,
            final(self).session is None,
            final(self).save_state == SaveState::Clean,
            final(self).conflict == ConflictState::NoConflict,
            final(self).autosave.due() is None,
            final(self).autosave.paused_spec() == old(self).autosave.paused_spec(),
            final(self).next_id() == old(self).next_id(),
    {
        self.workspace = None;
        self.session = None;
        self.save_state = SaveState::Clean;
        self.conflict = ConflictState::NoConflict;
        self.autosave.clear();
    }

    /// Whether a workspace path may be deleted: never the open document
    /// while it has unsaved changes. `is_open_document` says whether the
    /// path is the open document's.
    pub fn delete_path(&self, is_open_document: bool) -> (r: Result<(), StoreError>)
        ensures
            self.workspace is None ==> r == Err::<(), StoreError>(StoreError::NoWorkspace),
            self.workspace is Some ==> r == if is_open_document && (self.session matches Some(s)
                && s.dirty) {
                Err::<(), StoreError>(StoreError::DocumentDirty)
            } else {
                Ok::<(), StoreError>(())
            },
    {
        if self.workspace.is_none() {
            return Err(StoreError::NoWorkspace);
        }
        match &self.session {
            Some(session) => {
                if is_open_document && session.dirty {
                    return Err(StoreError::DocumentDirty);
                }
            },
            None => {},
        }
        Ok(())
    }

    /// After a path was deleted: deleting the open document closes it.
    pub fn path_deleted(&mut self, was_open_document: bool)
        ensures
            was_open_document && old(self).session is Some ==> final(self).session is None
                && final(self).save_state == SaveState::Clean,
            !(was_open_document && old(self).session is Some) ==> *final(self) == *old(self),
            final(self).workspace == old(self).workspace,
            final(self).conflict == old(self).conflict,
            final(self).autosave == old(self).autosave,
            final(self).next_id() == old(self).next_id(),
    {
        if was_open_document && self.session.is_some() {
            self.session = None;
            self.save_state = SaveState::Clean;
        }
    }

    /// After a path was renamed: the open document follows its file.
    pub fn path_renamed(&mut self, was_open_document: bool, new_path: String)
        ensures
            old(self).session matches Some(s) ==> (was_open_document ==> final(self).session
                == Some(DocumentSession { path: new_path, ..s })),
            !(old(self).session is Some && was_open_document) ==> final(self).session == old(
                self,
            ).session,
            final(self).workspace == old(self).workspace,
            final(self).save_state == old(self).save_state,
            final(self).conflict == old(self).conflict,
            final(self).autosave == old(self).autosave,
            final(self).next_id() == old(self).next_id(),
    {
        if was_open_document {
            match &mut self.session {
                Some(session) => {
                    session.path = new_path;
                },
                None => {},
            }
        }
    }

    /// Restores earlier text (a history entry) as a new dirty edit; nothing
    /// is written to disk. Refused while a conflict awaits the user.
    pub fn restore_history(&mut self, text: String, now_ms: u64) -> (r: Result<
        Option<RecoverySnapshot>,
        StoreError,
    >)
        requires
            old(self).session matches Some(s) ==> s.revision < u64::MAX,
            can_schedule(old(self).autosave, now_ms),
        ensures
            needs_decision(old(self).conflict) ==> r == Err::<Option<RecoverySnapshot>, StoreError>(
                StoreError::ConflictPending,
            ) && *final(self) == *old(self),
            !needs_decision(old(self).conflict) && old(self).session is None ==> r == Err::<
                Option<RecoverySnapshot>,
                StoreError,
            >(StoreError::NoDocument) && *final(self) == *old(self),
            old(self).session matches Some(s) ==> (!needs_decision(old(self).conflict) ==> {
                &&& final(self).session matches Some(t) && t.canonical_text@ == text@ && t.revision
                    == s.revision + 1 && t.dirty && t.path == s.path && t.document_id
                    == s.document_id && t.is_untitled == s.is_untitled && t.disk_fingerprint
                    == s.disk_fingerprint
                &&& r matches Ok(Some(snap)) && snap.original_path == s.path && snap.text@ == text@
                    && snap.revision == s.revision + 1 && snap.created_at_secs == now_ms / 1000
                &&& final(self).save_state == edited_state(final(self).autosave.due())
                &&& final(self).conflict == old(self).conflict
                &&& final(self).workspace == old(self).workspace
            }),
    {
        if self.conflict.requires_user_decision() {
            return Err(StoreError::ConflictPending);
        }
        match &mut self.session {
            None => {
                return Err(StoreError::NoDocument);
            },
            Some(session) => {
                session.apply_restored_snapshot(text);
            },
        }
        Ok(self.after_edit(now_ms))
    }

    /// Restoring a crash-recovery snapshot of `original_path`, first half:
    /// with no document open, a blank one stands for that path; the open
    /// document must be the snapshot's. The caller then removes the stale
    /// snapshot and restores its text with `restore_history`.
    pub fn prepare_recovery_restore(&mut self, original_path: String) -> (r: Result<(), StoreError>)
        requires
            old(self).next_id() < u64::MAX,
        ensures
            needs_decision(old(self).conflict) ==> r == Err::<(), StoreError>(
                StoreError::ConflictPending,
            ) && *final(self) == *old(self),
            !needs_decision(old(self).conflict) && old(self).session is None ==> {
                &&& final(self).session matches Some(t) && t.document_id == old(self).next_id()
                    && t.path == original_path && t.canonical_text@ == Seq::<char>::empty()
                    && t.revision == 1 && !t.dirty && !t.is_untitled && t.disk_fingerprint is None
                &&& final(self).next_id() == old(self).next_id() + 1
                &&& final(self).save_state == SaveState::Clean
                &&& final(self).conflict == ConflictState::NoConflict
                &&& !final(self).autosave.paused_spec()
                &&& final(self).autosave.due() is None
                &&& r is Ok
            },
            old(self).session matches Some(s) ==> (!needs_decision(old(self).conflict) ==> {
                &&& *final(self) == *old(self)
                &&& s.path@ == original_path@ ==> r is Ok
                &&& s.path@ != original_path@ ==> (r matches Err(StoreError::SaveFailed(m))
                    && m@ == recovery_mismatch_text())
            }),
    {
        if self.conflict.requires_user_decision() {
            return Err(StoreError::ConflictPending);
        }
        if self.session.is_none() {
            let id = self.allocate_document_id();
            self.session = Some(DocumentSession::from_text(id, original_path, String::new()));
            self.save_state = SaveState::Clean;
            self.conflict = ConflictState::NoConflict;
            self.autosave.resume();
            self.autosave.clear();
            return Ok(());
        }
        match &self.session {
            Some(session) => {
                if session.path != original_path {
                    return Err(StoreError::SaveFailed(mismatch_message()));
                }
            },
            None => {},
        }
        Ok(())
    }

}

/// The reason given when a recovery snapshot is not the open document's.
pub open spec fn recovery_mismatch_text() -> Seq<char> {
    "recovery snapshot path does not match open document"@
}

fn mismatch_message() -> (m: String)
    ensures
        m@ == recovery_mismatch_text(),
{
    "recovery snapshot path does not match open document".to_owned()
}

} // verus!
