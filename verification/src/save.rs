//! Save lifecycle state and the debounced autosave scheduler.
//!
//! The scheduler is pure: it takes the caller's notion of "now" in
//! milliseconds, so the debounce behaviour is deterministic.

use vstd::prelude::*;

verus! {

/// User-visible save lifecycle.
#[derive(Debug, Clone, PartialEq, Eq)]
pub enum SaveState {
    Clean,
    Dirty,
    AutoSaveScheduled { due_at_ms: u64 },
    Saving,
    Saved { at_ms: u64 },
    SaveFailed { message: String, retryable: bool },
    ConflictResolutionRequired,
}

/// The status-bar label key of each save state.
pub open spec fn label_key_spec(state: SaveState) -> Seq<char> {
    match state {
        SaveState::Clean => "save.clean"@,
        SaveState::Dirty => "save.dirty"@,
        SaveState::AutoSaveScheduled { .. } => "save.scheduled"@,
        SaveState::Saving => "save.saving"@,
        SaveState::Saved { .. } => "save.saved"@,
        SaveState::SaveFailed { .. } => "save.failed"@,
        SaveState::ConflictResolutionRequired => "save.conflict"@,
    }
}

impl SaveState {
    /// Status-bar label key, translated by the GUI.
    pub fn label_key(&self) -> (key: &'static str)
        ensures
            key@ == label_key_spec(*self),
    {
        match self {
            SaveState::Clean => "save.clean",
            SaveState::Dirty => "save.dirty",
            SaveState::AutoSaveScheduled { .. } => "save.scheduled",
            SaveState::Saving => "save.saving",
            SaveState::Saved { .. } => "save.saved",
            SaveState::SaveFailed { .. } => "save.failed",
            SaveState::ConflictResolutionRequired => "save.conflict",
        }
    }
}

/// Debounced autosave policy: do not write on every keystroke; reschedule
/// while edits keep arriving; pause entirely during conflicts.
#[derive(Debug, Clone, PartialEq, Eq)]
pub struct AutosaveScheduler {
    debounce_ms: u64,
    enabled: bool,
    due_at_ms: Option<u64>,
    paused: bool,
}

impl AutosaveScheduler {
    /// The pending autosave's due time, if one is scheduled.
    pub closed spec fn due(&self) -> Option<u64> {
        self.due_at_ms
    }

    /// The debounce delay in milliseconds.
    pub closed spec fn debounce(&self) -> u64 {
        self.debounce_ms
    }

    /// Whether autosave is enabled at all.
    pub closed spec fn enabled_spec(&self) -> bool {
        self.enabled
    }

    /// Whether autosave is paused.
    pub closed spec fn paused_spec(&self) -> bool {
        self.paused
    }

    /// The scheduler's own invariant: a paused scheduler holds no due time.
    pub open spec fn wf(&self) -> bool {
        self.paused_spec() ==> self.due() is None
    }

    /// When an autosave is due at `now_ms`.
    pub open spec fn due_spec(&self, now_ms: u64) -> bool {
        !self.paused_spec() && (self.due() matches Some(due) && now_ms >= due)
    }

    pub fn new(debounce_ms: u64) -> (s: Self)
        ensures
            s.debounce() == debounce_ms,
            s.enabled_spec(),
            s.due() is None,
            !s.paused_spec(),
            s.wf(),
    {
        Self { debounce_ms, enabled: true, due_at_ms: None, paused: false }
    }

    /// Called after every accepted edit; (re)schedules the next autosave.
    pub fn note_edit(&mut self, now_ms: u64)
        requires
            old(self).enabled_spec() && !old(self).paused_spec() ==> now_ms + old(self).debounce()
                <= u64::MAX,
        ensures
            final(self).debounce() == old(self).debounce(),
            final(self).enabled_spec() == old(self).enabled_spec(),
            final(self).paused_spec() == old(self).paused_spec(),
            final(self).due() == if old(self).enabled_spec() && !old(self).paused_spec() {
                Some((now_ms + old(self).debounce()) as u64)
            } else {
                old(self).due()
            },
            old(self).wf() ==> final(self).wf(),
    {
        if self.enabled && !self.paused {
            self.due_at_ms = Some(now_ms + self.debounce_ms);
        }
    }

    /// The debounce between an edit and its autosave.
    pub fn debounce_ms(&self) -> (d: u64)
        ensures
            d == self.debounce(),
    {
        self.debounce_ms
    }

    /// Whether autosave is enabled at all.
    pub fn is_enabled(&self) -> (enabled: bool)
        ensures
            enabled == self.enabled_spec(),
    {
        self.enabled
    }

    /// Turns autosave on or off; a pending autosave stays as it is.
    pub fn set_enabled(&mut self, enabled: bool)
        ensures
            final(self).enabled_spec() == enabled,
            final(self).debounce() == old(self).debounce(),
            final(self).due() == old(self).due(),
            final(self).paused_spec() == old(self).paused_spec(),
    {
        self.enabled = enabled;
    }

    /// Sets the debounce for edits from now on; a pending autosave keeps its
    /// due time.
    pub fn set_debounce_ms(&mut self, debounce_ms: u64)
        ensures
            final(self).debounce() == debounce_ms,
            final(self).enabled_spec() == old(self).enabled_spec(),
            final(self).due() == old(self).due(),
            final(self).paused_spec() == old(self).paused_spec(),
    {
        self.debounce_ms = debounce_ms;
    }

    /// True when a scheduled autosave has become due.
    pub fn is_due(&self, now_ms: u64) -> (due: bool)
        ensures
            due == self.due_spec(now_ms),
    {
        !self.paused && match self.due_at_ms {
            Some(due) => now_ms >= due,
            None => false,
        }
    }

    pub fn due_at(&self) -> (due: Option<u64>)
        ensures
            due == self.due(),
    {
        self.due_at_ms
    }

    /// Clears the pending autosave (after a save or document close).
    pub fn clear(&mut self)
        ensures
            final(self).due() is None,
            final(self).paused_spec() == old(self).paused_spec(),
            final(self).debounce() == old(self).debounce(),
            final(self).enabled_spec() == old(self).enabled_spec(),
            final(self).wf(),
    {
        self.due_at_ms = None;
    }

    /// Pauses autosave; used while a conflict awaits resolution.
    pub fn pause(&mut self)
        ensures
            final(self).paused_spec(),
            final(self).due() is None,
            final(self).debounce() == old(self).debounce(),
            final(self).enabled_spec() == old(self).enabled_spec(),
            final(self).wf(),
    {
        self.paused = true;
        self.due_at_ms = None;
    }

    pub fn resume(&mut self)
        ensures
            !final(self).paused_spec(),
            final(self).due() == old(self).due(),
            final(self).debounce() == old(self).debounce(),
            final(self).enabled_spec() == old(self).enabled_spec(),
            final(self).wf(),
    {
        self.paused = false;
    }

    pub fn is_paused(&self) -> (paused: bool)
        ensures
            paused == self.paused_spec(),
    {
        self.paused
    }
}

/// A paused scheduler is never due, whatever the time.
pub proof fn lemma_paused_never_due(s: AutosaveScheduler, now_ms: u64)
    requires
        s.paused_spec(),
    ensures
        !s.due_spec(now_ms),
{
}

/// After an edit at `edited_at`, autosave is due exactly once the debounce
/// has passed: never before, always from then on (until cleared or paused).
pub proof fn lemma_autosave_waits_for_the_debounce(s: AutosaveScheduler, edited_at: u64, now_ms: u64)
    requires
        !s.paused_spec(),
        edited_at + s.debounce() <= u64::MAX,
        s.due() == Some((edited_at + s.debounce()) as u64),
    ensures
        s.due_spec(now_ms) <==> now_ms >= edited_at + s.debounce(),
{
}

/// An autosave is due only when one is scheduled, its time has come and
/// autosave is not paused: with nothing scheduled it is never due.
pub proof fn lemma_due_only_when_scheduled(s: AutosaveScheduler, now_ms: u64)
    ensures
        s.due_spec(now_ms) ==> (s.due() matches Some(due) && now_ms >= due && !s.paused_spec()),
        s.due() is None ==> !s.due_spec(now_ms),
        (s.due() matches Some(due) && now_ms < due) ==> !s.due_spec(now_ms),
        (s.due() matches Some(due) && now_ms >= due && !s.paused_spec()) ==> s.due_spec(now_ms),
{
}

} // verus!
