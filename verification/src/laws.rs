use vstd::prelude::*;

use crate::mvar::put_step;
use crate::mvar::take_step;

verus! {

/// Law: putting `v` into an empty cell completes and fills the cell
/// with `v`; the take that follows removes exactly `v` and leaves the
/// cell empty again.
pub proof fn lemma_put_then_take<T>(v: T)
    ensures
        put_step(Option::<T>::None, v).1,
        take_step(put_step(Option::<T>::None, v).0).1 == Some(v),
        take_step(put_step(Option::<T>::None, v).0).0 is None,
{
}

/// Law: a cell that starts out holding `v` yields `v` to the first
/// take, with no prior put, and is empty afterwards.
pub proof fn lemma_initial_value_taken<T>(v: T)
    ensures
        take_step(Some(v)).1 == Some(v),
        take_step(Some(v)).0 is None,
{
}

/// Law: a take attempt against an empty cell removes nothing and
/// leaves the cell empty — the taker stays suspended until a matching
/// put completes.
pub proof fn lemma_take_suspends_while_empty<T>()
    ensures
        take_step(Option::<T>::None).1 is None,
        take_step(Option::<T>::None).0 is None,
{
}

/// Law: a put attempt against a full cell does not complete and leaves
/// the held value untouched — the putter stays suspended until a
/// matching take completes.
pub proof fn lemma_put_suspends_while_full<T>(held: T, v: T)
    ensures
        !put_step(Some(held), v).1,
        put_step(Some(held), v).0 == Some(held),
{
}

/// The values removed when the puts of `vs` alternate strictly with
/// takes against a cell with contents `c`: each round is one put
/// attempt followed by one take attempt, and only the values a take
/// actually removes are collected.
pub open spec fn alternating_takes<T>(c: Option<T>, vs: Seq<T>) -> Seq<T>
    decreases vs.len(),
{
    if vs.len() == 0 {
        Seq::empty()
    } else {
        let filled = put_step(c, vs[0]).0;
        let taken = take_step(filled);
        let rest = alternating_takes(taken.0, vs.drop_first());
        if taken.1 is Some {
            seq![taken.1->0] + rest
        } else {
            rest
        }
    }
}

/// Law: with puts and takes strictly alternating against an initially
/// empty cell — one outstanding operation per side at a time — the
/// values arrive at the take side in exactly the order they were put.
pub proof fn lemma_alternating_fifo<T>(vs: Seq<T>)
    ensures
        alternating_takes(Option::<T>::None, vs) == vs,
    decreases vs.len(),
{
    if vs.len() == 0 {
        assert(alternating_takes(Option::<T>::None, vs) =~= vs);
    } else {
        lemma_alternating_fifo::<T>(vs.drop_first());
        assert(alternating_takes(Option::<T>::None, vs) =~= vs);
    }
}

/// How many of the put attempts of `vs` complete when each is polled
/// once, in order, against a cell with contents `c`.
pub open spec fn winning_puts<T>(c: Option<T>, vs: Seq<T>) -> int
    decreases vs.len(),
{
    if vs.len() == 0 {
        0
    } else {
        let step = put_step(c, vs[0]);
        (if step.1 {
            1int
        } else {
            0int
        }) + winning_puts(step.0, vs.drop_first())
    }
}

proof fn lemma_no_winner_while_full<T>(c: Option<T>, vs: Seq<T>)
    requires
        c is Some,
    ensures
        winning_puts(c, vs) == 0,
    decreases vs.len(),
{
    if vs.len() > 0 {
        lemma_no_winner_while_full(c, vs.drop_first());
    }
}

/// Law: of any number of put attempts polled against one empty cell,
/// exactly one completes per cycle; the rest find the cell full and
/// remain suspended.
pub proof fn lemma_single_winner<T>(vs: Seq<T>)
    requires
        vs.len() >= 1,
    ensures
        winning_puts(Option::<T>::None, vs) == 1,
{
    lemma_no_winner_while_full(Some(vs[0]), vs.drop_first());
}

} // verus!
