//! Workflow strategies for running several agents over several tasks.
//!
//! The crew orchestration itself is a thin consumer of the conversation
//! loop — it hands each task's output to the next task — and stands with
//! the callers; only the strategy choice lives here.

use vstd::prelude::*;

verus! {

/// How a crew walks its tasks: one after another, feeding each result
/// forward, or under a planning manager.
#[derive(Debug, Clone, Copy, PartialEq, Eq, Structural)]
pub enum Workflow {
    Sequential,
    Hierarchical,
}

} // verus!
