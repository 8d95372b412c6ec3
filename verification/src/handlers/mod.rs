//! The operations of the tracker, one per file. Each takes the records it
//! works on, checks every precondition before it changes anything, and
//! either applies all of its changes or none.

pub mod admin;
pub mod contribution;
pub mod distribution;
