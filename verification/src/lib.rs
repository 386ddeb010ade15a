//! Decision logic of a fixed-period attitude-fusion loop.
//!
//! A fusion task reads one inertial sample per cycle, lets an extended Kalman
//! filter fold it into an orientation estimate, emits the estimate as a unit
//! quaternion and rests until the period is over. The numerical filter works
//! in floating point and lives with the caller; this crate holds everything
//! the task has to *decide*: whether a period is acceptable, whether a value
//! handed back by the filter may be published, what to do after each event,
//! and how long to rest.

pub mod error;
pub mod binary32;
pub mod fusion_loop;
pub mod message;
pub mod period;
