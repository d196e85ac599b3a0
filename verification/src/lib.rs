//! A single-slot lazy-memoization cell.
//!
//! A [`CachedFn`] holds a zero-argument computation until it is first asked
//! for, runs it then, and once it has a result hands that out without running
//! anything again. A computation that fails leaves the cell poisoned, pending
//! again, or gone, depending on how it was invoked; one that unwinds leaves
//! it poisoned.
//!
//! - [`state`] is the model: the three states of a cell and the relations
//!   between a state, what an invocation returns and the state it leaves.
//! - [`cell`] is the cell, with its contracts over that model.
//! - [`laws`] holds what follows for every cell.

pub mod cell;
pub mod laws;
pub mod state;

pub use cell::CachedFn;
pub use state::State;
