//! Job manager: scheduling, locking and execution decisions for recurring jobs.

pub mod cancel;
pub mod codec;
pub mod crontab;
pub mod error;
pub mod executor;
pub mod interval;
pub mod job;
pub mod lock;
pub mod manager;
pub mod repos;
pub mod schedule;
pub mod timestamp;

pub use error::Error;
pub use job::{JobConfig, JobData, JobName, Schedule};
