//! The control-flow graphs of a memoized two-term recurrence and of the entry routine
//! that sets up its memo buffer, as plain data for a code-generation backend, together
//! with what the graphs mean and the proof that they compute the recurrence.

pub mod builder;
pub mod driver;
pub mod graph;
pub mod interp;
pub mod memo;
pub mod semantics;
pub mod sequence;
