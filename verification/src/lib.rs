//! A single-slot asynchronous handoff cell.
//!
//! An `MVar<T>` is a location that holds at most one value of type `T`.
//! It has two suspendable operations: `put`, which fills the cell and
//! suspends while the cell is full, and `take`, which empties the cell
//! and suspends while the cell is empty.  The two sides rendezvous
//! through the cell under a cooperative (non-blocking) scheduler.

mod laws;
mod mvar;
mod storage;
mod waker;

pub use crate::laws::alternating_takes;
pub use crate::laws::lemma_alternating_fifo;
pub use crate::laws::lemma_initial_value_taken;
pub use crate::laws::lemma_put_suspends_while_full;
pub use crate::laws::lemma_put_then_take;
pub use crate::laws::lemma_single_winner;
pub use crate::laws::lemma_take_suspends_while_empty;
pub use crate::laws::winning_puts;
pub use crate::mvar::put_step;
pub use crate::mvar::take_step;
pub use crate::mvar::MVar;
pub use crate::mvar::PutFuture;
pub use crate::mvar::TakeFuture;
pub use crate::storage::UnsafeCell;
