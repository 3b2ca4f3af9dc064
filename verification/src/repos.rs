//! What the repositories compute: the records they store, how records become
//! job data, and the rules by which they lock jobs.

pub mod mongo;
pub mod pickledb;
