use vstd::prelude::*;
use vstd::pervasive::unreached;

use futures::task::AtomicWaker;

use crate::storage::UnsafeCell;

verus! {

/// The discrete state of the cell.
///
/// `Empty` and `Full` are the two resting states.  `Filling` and
/// `Emptying` are exclusive transitional states: a party that moves the
/// cell into one of them is the only party allowed to touch the slot,
/// and it moves the cell back out within the same poll.  Neither
/// transitional state ever survives across polls.
#[derive(Clone, Copy, PartialEq, Eq, Structural)]
enum State {
    Empty,
    Filling,
    Emptying,
    Full,
}

/// The contents of the cell after one put attempt of `v` against
/// contents `c`, paired with whether the attempt completed.  A put
/// completes exactly when the cell is empty; against a full cell it
/// changes nothing and the putter stays suspended.
pub open spec fn put_step<T>(c: Option<T>, v: T) -> (Option<T>, bool) {
    if c is None {
        (Some(v), true)
    } else {
        (c, false)
    }
}

/// What one take attempt against contents `c` leaves in the cell,
/// paired with what it removes.  A take removes the value exactly when
/// the cell is full; against an empty cell it changes nothing and the
/// taker stays suspended.
pub open spec fn take_step<T>(c: Option<T>) -> (Option<T>, Option<T>) {
    if c is Some {
        (Option::<T>::None, c)
    } else {
        (Option::<T>::None, Option::<T>::None)
    }
}

/// A mutable location that is either empty or holds one value of type
/// `T`, with rendezvous-style handoff between an inserting and a
/// removing party.
///
/// `put` fills the cell and suspends while it is full; `take` empties
/// the cell and suspends while it is empty.  Each side remembers at
/// most one waiting party and wakes it only after its own slot access
/// is complete, so the woken party never sees a half-finished exchange.
///
/// The slot stores the value directly, so dropping a full cell runs
/// the held value's finalizer exactly once, and dropping an empty cell
/// runs none.
pub struct MVar<T> {
    item: UnsafeCell<Option<T>>,
    state: State,
    take_waker: AtomicWaker,
    put_waker: AtomicWaker,
}

impl<T> View for MVar<T> {
    type V = Option<T>;

    /// The cell's contents: the held value while the cell is full.
    closed spec fn view(&self) -> Option<T> {
        self.item@
    }
}

impl<T> MVar<T> {
    /// The cell is at rest and its slot agrees with its state: a value
    /// is stored exactly when the state is `Full`.
    pub closed spec fn inv(&self) -> bool {
        &&& self.state == State::Empty || self.state == State::Full
        &&& (self.state == State::Full <==> self.item@ is Some)
    }

    /// Creates an empty cell.
    pub fn new_empty() -> (cell: Self)
        ensures
            cell.inv(),
            cell@ is None,
    {
        MVar {
            item: UnsafeCell::new(None),
            state: State::Empty,
            take_waker: AtomicWaker::new(),
            put_waker: AtomicWaker::new(),
        }
    }

    /// Creates a cell already holding `item`.
    pub fn new(item: T) -> (cell: Self)
        ensures
            cell.inv(),
            cell@ == Some(item),
    {
        MVar {
            item: UnsafeCell::new(Some(item)),
            state: State::Full,
            take_waker: AtomicWaker::new(),
            put_waker: AtomicWaker::new(),
        }
    }

    /// Begins removing the cell's value: returns the suspendable handle
    /// that performs one removal attempt per poll.
    pub fn take(&self) -> (f: TakeFuture) {
        TakeFuture {}
    }

    /// Begins inserting `item`: returns the suspendable handle that
    /// owns `item` until an insertion attempt succeeds.
    pub fn put(&self, item: T) -> (f: PutFuture<T>)
        ensures
            f@ == Some(item),
    {
        PutFuture { item: Some(item) }
    }

    /// Non-blocking probe: removes and returns the value if the cell is
    /// full, and reports no value otherwise.  Wins the `Full` state by
    /// moving to `Emptying`, swaps the value out while holding that
    /// exclusive state, and only then rests at `Empty`.
    pub(crate) fn probe_take(&mut self) -> (removed: Option<T>)
        requires
            old(self).inv(),
        ensures
            final(self).inv(),
            final(self)@ == take_step(old(self)@).0,
            removed == take_step(old(self)@).1,
    {
        if self.state == State::Full {
            self.state = State::Emptying;
            let mut value: Option<T> = None;
            self.item.with_mut(&mut value);
            self.state = State::Empty;
            value
        } else {
            None
        }
    }
}

/// One attempt to remove the value of an [`MVar`].  Present it to the
/// scheduler repeatedly: each poll either removes the value or leaves
/// the taker suspended until the put side signals.
#[must_use]
pub struct TakeFuture {}

impl TakeFuture {
    /// One poll of the take side: registers `waker` as the party to
    /// resume when a value next arrives, then attempts the removal.
    /// Registration comes first so that a put completing between the
    /// two steps cannot slip by unnoticed; the put side is woken only
    /// after the removal is complete.
    pub fn poll<T>(&mut self, mvar: &mut MVar<T>, waker: &core::task::Waker) -> (removed: Option<T>)
        requires
            old(mvar).inv(),
        ensures
            final(mvar).inv(),
            final(mvar)@ == take_step(old(mvar)@).0,
            removed == take_step(old(mvar)@).1,
    {
        mvar.take_waker.register(waker);
        match mvar.probe_take() {
            Some(value) => {
                mvar.put_waker.wake();
                Some(value)
            },
            None => None,
        }
    }
}

/// One pending attempt to insert a value into an [`MVar`].  The handle
/// owns the value until an insertion attempt succeeds; once it has
/// completed it must not be polled again.
#[must_use]
pub struct PutFuture<T> {
    item: Option<T>,
}

impl<T> View for PutFuture<T> {
    type V = Option<T>;

    /// The value still owed to the cell; `None` once the put completed.
    closed spec fn view(&self) -> Option<T> {
        self.item
    }
}

impl<T> PutFuture<T> {
    /// True while the handle still owns its value, that is, until a
    /// poll completes.  A completed handle must not be polled again.
    pub fn is_pending(&self) -> (pending: bool)
        ensures
            pending == (self@ is Some),
    {
        self.item.is_some()
    }

    /// One poll of the put side: registers `waker` as the party to
    /// resume when the cell next empties, then attempts the insertion.
    /// On success the owned value moves into the cell and the take side
    /// is woken, only after the slot write and the `Full` state are
    /// both in place.
    pub fn poll(&mut self, mvar: &mut MVar<T>, waker: &core::task::Waker) -> (done: bool)
        requires
            old(self)@ is Some,
            old(mvar).inv(),
        ensures
            final(mvar).inv(),
            done == put_step(old(mvar)@, old(self)@->0).1,
            final(mvar)@ == put_step(old(mvar)@, old(self)@->0).0,
            final(self)@ == (if done {
                Option::<T>::None
            } else {
                old(self)@
            }),
    {
        mvar.put_waker.register(waker);
        if mvar.state == State::Empty {
            mvar.state = State::Filling;
            match self.item.take() {
                Some(value) => {
                    let mut slot_value = Some(value);
                    mvar.item.with_mut(&mut slot_value);
                    mvar.state = State::Full;
                    mvar.take_waker.wake();
                    true
                },
                None => unreached(),
            }
        } else {
            false
        }
    }
}

} // verus!
