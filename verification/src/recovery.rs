//! Restoring a crash-recovery snapshot: which document it belongs to.
//!
//! The whole restore runs in steps: `recovery_document` says whether the
//! snapshot's document must first be opened from the workspace (and under
//! which relative path), the caller opens it, `prepare_recovery_restore`
//! checks that the open document is the snapshot's, the caller removes the
//! stored snapshot, and `restore_history` puts its text back.

use vstd::prelude::*;
use crate::conflict::needs_decision;
use crate::store::{AppState, StoreError};

verus! {

/// What `Path::strip_prefix` gives for `path` and `base`: the rest of `path`
/// after the components of `base`, or the error's text where `base` is not
/// a prefix of `path`.
pub uninterp spec fn strip_path_prefix(path: Seq<char>, base: Seq<char>) -> Result<Seq<char>, Seq<char>>;

/// `std::path::Path::strip_prefix`, its result converted to a `String` and
/// its error to its text.
///
/// Claimed: the outcome is `strip_path_prefix` of the two paths, a function
/// of them alone. Which paths are prefixes of which (a component-wise
/// comparison) and the error's wording are left unsaid.
#[verifier::external_body]
fn strip_prefix(path: &str, base: &str) -> (r: Result<String, String>)
    ensures
        match r {
            Ok(rest) => strip_path_prefix(path@, base@) == Ok::<Seq<char>, Seq<char>>(rest@),
            Err(message) => strip_path_prefix(path@, base@) == Err::<Seq<char>, Seq<char>>(
                message@,
            ),
        },
{
    match std::path::Path::new(path).strip_prefix(base) {
        Ok(rest) => Ok(rest.to_string_lossy().into_owned()),
        Err(error) => Err(error.to_string()),
    }
}

/// Maps a prefix outcome to the recovery step: `Some(relative)` to open, or
/// `SaveFailed` with the error's text.
pub fn reopen_step(stripped: Result<String, String>) -> (r: Result<Option<String>, StoreError>)
    ensures
        match stripped {
            Ok(rest) => r matches Ok(Some(p)) && p@ == rest@,
            Err(message) => r == Err::<Option<String>, StoreError>(StoreError::SaveFailed(message)),
        },
{
    match stripped {
        Ok(rest) => Ok(Some(rest)),
        Err(message) => Err(StoreError::SaveFailed(message)),
    }
}

impl AppState {
    /// Restoring the snapshot of `original_path`, first step. A pending
    /// conflict refuses it. With a workspace open, the snapshot's document
    /// is opened again from the workspace first: the result is its path
    /// relative to the workspace root, and a snapshot outside the root fails
    /// with `SaveFailed`. With no workspace there is nothing to open.
    pub fn recovery_document(&self, original_path: &str) -> (r: Result<Option<String>, StoreError>)
        ensures
            needs_decision(self.conflict) ==> r == Err::<Option<String>, StoreError>(
                StoreError::ConflictPending,
            ),
            !needs_decision(self.conflict) ==> match self.workspace {
                None => r == Ok::<Option<String>, StoreError>(None),
                Some(w) => match strip_path_prefix(original_path@, w.root_path@) {
                    Ok(rest) => r matches Ok(Some(p)) && p@ == rest,
                    Err(message) => r matches Err(StoreError::SaveFailed(m)) && m@ == message,
                },
            },
    {
        if self.conflict.requires_user_decision() {
            return Err(StoreError::ConflictPending);
        }
        match &self.workspace {
            None => Ok(None),
            Some(w) => {
                let stripped = strip_prefix(original_path, w.root_path.as_str());
                reopen_step(stripped)
            },
        }
    }
}

} // verus!
