//! The error-translation boundary.
//!
//! The native engine reports failure as a negative status and leaves the
//! detail (a numeric error class and a message) in a mutable last-error
//! slot that the next native call overwrites. The caller must therefore
//! read the slot immediately after a failing call and hand the copy to
//! [`check`], which folds the status and the slot into one owned,
//! structured [`GitError`]. Failures that never reach the engine (an
//! argument that cannot be encoded for a native call, an initialization
//! that could not start) are built through [`GitError::from`] and
//! [`GitError::embedded_nul`] and share the same shape, so callers have a
//! single type to match on whatever the cause.

use vstd::prelude::*;

verus! {

/// A copy of the engine's last-error slot, taken immediately after a
/// failing native call and before any other native call.
pub struct LastError {
    /// The engine's error class for the most recent failure.
    pub klass: i32,
    /// The engine's message for the most recent failure.
    pub message: String,
}

/// A translated native failure: an owned value with no native resource.
#[derive(Debug)]
pub struct GitError {
    /// The failing call's status, or `-1` where no native status exists.
    pub code: i32,
    /// The engine's error class, or `0` where no native class exists.
    pub klass: i32,
    /// A human-readable description of the failure.
    pub message: String,
}

/// The result type every fallible operation of this library returns.
pub type GitResult<T> = Result<T, GitError>;

/// What [`check`] returns: the status untouched when the engine accepted
/// the call, else the last-error slot folded into a [`GitError`] that
/// carries the failing status verbatim.
pub open spec fn check_model(status: i32, last: LastError) -> Result<i32, GitError> {
    if status >= 0 {
        Ok(status)
    } else {
        Err(GitError { code: status, klass: last.klass, message: last.message })
    }
}

/// Translates a native call's status. A status of zero or more is a
/// success (possibly carrying a meaningful value) and is returned
/// unchanged; a negative status is folded together with the last-error
/// slot, which the caller must have copied into `last` immediately after
/// the failing call.
pub fn check(status: i32, last: LastError) -> (r: Result<i32, GitError>)
    ensures
        r == check_model(status, last),
{
    if status >= 0 {
        Ok(status)
    } else {
        Err(GitError { code: status, klass: last.klass, message: last.message })
    }
}

impl GitError {
    /// The failing status, negative on every error.
    pub fn code(&self) -> (c: i32)
        ensures
            c == self.code,
    {
        self.code
    }

    /// The engine's error class, `0` where the failure never reached the
    /// engine.
    pub fn klass(&self) -> (k: i32)
        ensures
            k == self.klass,
    {
        self.klass
    }

    /// The human-readable description of the failure.
    pub fn message(&self) -> (m: &String)
        ensures
            m == &self.message,
    {
        &self.message
    }

    /// The error for a text argument that holds an embedded terminator
    /// and so cannot be handed to a native call.
    pub fn embedded_nul() -> (e: GitError)
        ensures
            e.code == -1,
            e.klass == 0,
            e.message@.len() > 0,
    {
        proof {
            reveal_strlit("text for a native call holds an embedded nul byte");
        }
        GitError {
            code: -1,
            klass: 0,
            message: "text for a native call holds an embedded nul byte".to_owned(),
        }
    }
}

impl vstd::std_specs::convert::FromSpecImpl<String> for GitError {
    open spec fn obeys_from_spec() -> bool {
        true
    }

    open spec fn from_spec(message: String) -> GitError {
        GitError { code: -1i32, klass: 0i32, message }
    }
}

impl From<String> for GitError {
    /// A failure with no native status: a descriptive message under the
    /// synthetic code `-1` and class `0`.
    fn from(message: String) -> GitError {
        GitError { code: -1, klass: 0, message }
    }
}

} // verus!
