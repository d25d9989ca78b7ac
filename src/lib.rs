//! A single-user task tracker: an ordered collection of tasks addressed by
//! 1-based position, the operations that change it, and the text shown for it.

pub mod command;
pub mod listing;
pub mod ops;
pub mod store;
pub mod task;
