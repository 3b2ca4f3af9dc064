use crate::job::JobName;
use vstd::prelude::*;

verus! {

/// Errors reported by the job manager and its repositories.
#[derive(Debug)]
pub enum Error {
    InvalidCronExpression { expression: String, msg: String },
    JobNotFound(JobName),
    Repo(String),
    LockRefreshFailed(String),
    CancelFailed(JobName),
    TODO,
}

/// Result type of the library.
pub type Result<T> = core::result::Result<T, Error>;

} // verus!
