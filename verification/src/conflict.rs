//! External-modification conflict detection and resolution.
//!
//! Detection compares the session's last-known disk identity with the
//! file's current state, which the caller observes on disk. It runs before
//! every write and may be triggered on demand. Neither version is ever lost
//! silently: resolution is always an explicit user choice.

use vstd::prelude::*;

verus! {

/// Conflict situations.
#[derive(Debug, Clone, Copy, PartialEq, Eq, Structural)]
pub enum ConflictState {
    NoConflict,
    /// Disk changed but memory is clean: safe to offer reload/auto-refresh.
    DiskChangedCleanMemory,
    /// Disk changed while memory has unsaved edits: user decision required.
    DiskChangedDirtyMemory,
    /// The backing file disappeared from disk.
    FileDeletedOnDisk,
}

impl Default for ConflictState {
    fn default() -> (state: Self)
        ensures
            state == ConflictState::NoConflict,
    {
        ConflictState::NoConflict
    }
}

/// The states in which the user must decide before anything is written.
pub open spec fn needs_decision(state: ConflictState) -> bool {
    state is DiskChangedDirtyMemory || state is FileDeletedOnDisk
}

impl ConflictState {
    pub fn requires_user_decision(&self) -> (decide: bool)
        ensures
            decide == needs_decision(*self),
    {
        match self {
            ConflictState::DiskChangedDirtyMemory | ConflictState::FileDeletedOnDisk => true,
            _ => false,
        }
    }
}

/// The user's resolution choice.
#[derive(Debug, Clone, PartialEq, Eq)]
pub enum ConflictResolution {
    /// Save the in-memory version over the disk version.
    KeepMine,
    /// Discard local changes and reload from disk.
    ReloadDisk,
    /// Save the in-memory version to a new workspace-relative path.
    SaveCopy { relative_path: String },
}

/// What the caller found on disk for the document's backing file.
#[derive(Debug, Clone, Copy, PartialEq, Eq, Structural)]
pub enum DiskObservation {
    /// The file does not exist.
    Missing,
    /// The file's identity matches the last-known one.
    Unchanged,
    /// The file's identity differs from the last-known one.
    Changed,
    /// The file exists but could not be read.
    Unreadable,
}

/// The conflict state for a document, given whether its last-known disk
/// identity is recorded, what is on disk now, and whether memory is dirty.
pub open spec fn detect_spec(known: bool, observed: DiskObservation, dirty: bool) -> ConflictState {
    if !known {
        ConflictState::NoConflict
    } else {
        match observed {
            DiskObservation::Missing => ConflictState::FileDeletedOnDisk,
            DiskObservation::Changed => if dirty {
                ConflictState::DiskChangedDirtyMemory
            } else {
                ConflictState::DiskChangedCleanMemory
            },
            DiskObservation::Unchanged => ConflictState::NoConflict,
            // Read errors are treated conservatively as requiring attention.
            DiskObservation::Unreadable => ConflictState::FileDeletedOnDisk,
        }
    }
}

/// Detects the current conflict state for a document whose last-known disk
/// identity is recorded when `fingerprint_known`, given what is on disk now.
pub fn detect(fingerprint_known: bool, observed: DiskObservation, dirty: bool) -> (state:
    ConflictState)
    ensures
        state == detect_spec(fingerprint_known, observed, dirty),
{
    if !fingerprint_known {
        return ConflictState::NoConflict;
    }
    match observed {
        DiskObservation::Missing => ConflictState::FileDeletedOnDisk,
        DiskObservation::Changed => if dirty {
            ConflictState::DiskChangedDirtyMemory
        } else {
            ConflictState::DiskChangedCleanMemory
        },
        DiskObservation::Unchanged => ConflictState::NoConflict,
        DiskObservation::Unreadable => ConflictState::FileDeletedOnDisk,
    }
}

/// Unsaved edits are never overwritten silently: whenever the disk changed
/// under dirty memory, or the file is gone or unreadable, detection asks
/// the user to decide.
pub proof fn lemma_detect_protects_unsaved(known: bool, observed: DiskObservation, dirty: bool)
    requires
        known,
        (observed is Changed && dirty) || observed is Missing || observed is Unreadable,
    ensures
        needs_decision(detect_spec(known, observed, dirty)),
{
}

/// What detection reports of a file whose last-known identity is recorded:
/// a changed file is always a disk change, told apart by whether memory is
/// dirty; and nothing is reported only when the identity is unknown or the
/// file is unchanged.
pub proof fn lemma_detect_reports_disk_change(known: bool, observed: DiskObservation, dirty: bool)
    ensures
        known && observed is Changed && !dirty ==> detect_spec(known, observed, dirty)
            == ConflictState::DiskChangedCleanMemory,
        known && observed is Changed && dirty ==> detect_spec(known, observed, dirty)
            == ConflictState::DiskChangedDirtyMemory,
        (detect_spec(known, observed, dirty) == ConflictState::NoConflict) <==> (!known
            || observed is Unchanged),
        known && (observed is Missing || observed is Unreadable) ==> detect_spec(
            known,
            observed,
            dirty,
        ) == ConflictState::FileDeletedOnDisk,
        (detect_spec(known, observed, dirty) is DiskChangedCleanMemory || detect_spec(
            known,
            observed,
            dirty,
        ) is DiskChangedDirtyMemory) ==> known && observed is Changed,
{
}

} // verus!
