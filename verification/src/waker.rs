use vstd::prelude::*;

verus! {

/// The scheduler's resume handle for one suspended task.  The cell
/// never looks inside a handle; it only stores the most recent one and
/// asks the slot below to invoke it.
#[verifier::external_type_specification]
#[verifier::external_body]
pub struct ExWaker(core::task::Waker);

/// A single-entry store for "who to resume next" on one side of the
/// cell.  Registration overwrites, never queues: only the most recent
/// registrant is remembered.
#[verifier::external_type_specification]
#[verifier::external_body]
pub struct ExAtomicWaker(futures::task::AtomicWaker);

/// Relies on `futures::task::AtomicWaker::new`: a fresh slot holds no
/// resume handle, so waking it is a no-op until a handle is registered.
pub assume_specification[ futures::task::AtomicWaker::new ]() -> futures::task::AtomicWaker;

/// Relies on `futures::task::AtomicWaker::register`: stores a clone of
/// `waker` in the slot, discarding any handle stored earlier.  Nothing
/// is promised of the slot's contents afterwards: the slot is shared,
/// and a concurrent wake may consume the handle at any moment.
pub assume_specification[ futures::task::AtomicWaker::register ](
    slot: &futures::task::AtomicWaker,
    waker: &core::task::Waker,
);

/// Relies on `futures::task::AtomicWaker::wake`: invokes the most
/// recently registered handle, if one is stored, and clears the slot;
/// does nothing when the slot is empty.
pub assume_specification[ futures::task::AtomicWaker::wake ](slot: &futures::task::AtomicWaker);

} // verus!
