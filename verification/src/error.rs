//! The ways in which locking the catalog can fail.

use vstd::prelude::*;

use crate::build_lock::StaleLockError;

verus! {

/// An expression could not be scanned for catalog references.
#[derive(Debug)]
pub struct ScanError {
    pub message: String,
}

/// A lock file could not be read or written.
#[derive(Debug)]
pub struct LockfileError {
    pub message: String,
}

/// The catalog did not lock the references it was asked to.
#[derive(Debug)]
pub enum LockError {
    /// Some references cannot be resolved.
    Unresolvable {
        /// How many there are, in one line.
        summary: String,
        /// The references with their dependency chains and what to do about them.
        rendered: String,
    },
    /// Anything else.
    Other(String),
}

/// Why the catalog lock is not to be had.
#[derive(Debug)]
pub enum CatalogLockError {
    Scan(ScanError),
    Lock(LockError),
    /// References that cannot be resolved, rendered with their dependency chains and a next
    /// step, so that every command that locks reports their names and not just their number.
    Unresolvable(String),
    /// A lock that does not cover every reference, and the words that report it, which come
    /// from outside like those of the other errors.
    StaleLock { error: StaleLockError, rendered: String },
    Lockfile(LockfileError),
    CreateTempFile(std::io::Error),
}

impl LockError {
    /// What [LockError::message] says.
    pub open spec fn text(self) -> Seq<char> {
        match self {
            LockError::Unresolvable { summary, .. } => summary@,
            LockError::Other(message) => message@,
        }
    }

    /// The message that reports the error.
    pub fn message(&self) -> (message: String)
        ensures
            message@ == self.text(),
    {
        match self {
            LockError::Unresolvable { summary, .. } => summary.clone(),
            LockError::Other(message) => message.clone(),
        }
    }
}

impl StaleLockError {
    /// The failure that a lock does not cover these references, reported as `rendered`.
    pub fn reported(self, rendered: String) -> (error: CatalogLockError)
        ensures
            error == (CatalogLockError::StaleLock { error: self, rendered }),
    {
        CatalogLockError::StaleLock { error: self, rendered }
    }
}

impl CatalogLockError {
    /// What [CatalogLockError::message] says.
    pub open spec fn text(self) -> Seq<char> {
        match self {
            CatalogLockError::Scan(error) => error.message@,
            CatalogLockError::Lock(error) => error.text(),
            CatalogLockError::Unresolvable(rendered) => rendered@,
            CatalogLockError::StaleLock { rendered, .. } => rendered@,
            CatalogLockError::Lockfile(error) => error.message@,
            CatalogLockError::CreateTempFile(
                _,
            ) => "Could not create a temporary file for the catalog lock."@,
        }
    }

    /// The message that reports the error. An error that another one caused is reported as
    /// that one.
    pub fn message(&self) -> (message: String)
        ensures
            message@ == self.text(),
    {
        match self {
            CatalogLockError::Scan(error) => error.message.clone(),
            CatalogLockError::Lock(error) => error.message(),
            CatalogLockError::Unresolvable(rendered) => rendered.clone(),
            CatalogLockError::StaleLock { rendered, .. } => rendered.clone(),
            CatalogLockError::Lockfile(error) => error.message.clone(),
            CatalogLockError::CreateTempFile(
                _,
            ) => "Could not create a temporary file for the catalog lock.".to_owned(),
        }
    }
}

/// Every error is told in the words that came with it; only a temporary file that cannot be
/// created is told in words of its own.
pub proof fn errors_are_told_in_their_own_words(error: CatalogLockError)
    ensures
        match error {
            CatalogLockError::Scan(ScanError { message }) => error.text() == message@,
            CatalogLockError::Lock(LockError::Unresolvable { summary, .. }) => error.text()
                == summary@,
            CatalogLockError::Lock(LockError::Other(message)) => error.text() == message@,
            CatalogLockError::Unresolvable(rendered) => error.text() == rendered@,
            CatalogLockError::StaleLock { rendered, .. } => error.text() == rendered@,
            CatalogLockError::Lockfile(LockfileError { message }) => error.text() == message@,
            CatalogLockError::CreateTempFile(_) => error.text()
                == "Could not create a temporary file for the catalog lock."@,
        },
        error matches CatalogLockError::Lock(inner) ==> error.text() == inner.text(),
{
}

} // verus!
