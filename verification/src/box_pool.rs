//! The bounded pool of sandbox slots: a first-in, first-out queue of the
//! identifiers that are free.

use crate::error::{DomainError, ErrorKind};
use crate::text::{append_decimal, decimal_text};
use std::collections::VecDeque;
use vstd::prelude::*;
use vstd::string::StringExecFns;

verus! {

/// A free queue is valid for a pool of `size` slots when it names only
/// slots of the pool and names none twice.
pub open spec fn queue_valid(free: Seq<u32>, size: nat) -> bool {
    &&& forall|i: int| 0 <= i < free.len() ==> (#[trigger] free[i] as nat) < size
    &&& free.no_duplicates()
}

/// The free queue of a new pool: every slot, in ascending order.
pub open spec fn initial_queue(size: nat) -> Seq<u32> {
    Seq::new(size, |i: int| i as u32)
}

/// Slot `id` may be given back: it belongs to the pool and is held.
pub open spec fn can_release(free: Seq<u32>, size: nat, id: u32) -> bool {
    (id as nat) < size && !free.contains(id)
}

/// The free queue after an attempt to take a slot.
pub open spec fn after_acquire(free: Seq<u32>) -> Seq<u32> {
    if free.len() > 0 {
        free.drop_first()
    } else {
        free
    }
}

/// The free queue after an attempt to give slot `id` back.
pub open spec fn after_release(free: Seq<u32>, size: nat, id: u32) -> Seq<u32> {
    if can_release(free, size, id) {
        free.push(id)
    } else {
        free
    }
}

/// The detail text of the error for a slot that cannot be given back.
pub open spec fn release_refusal(size: nat, id: u32) -> Seq<char> {
    if (id as nat) >= size {
        "Invalid box ID: "@ + decimal_text(id as nat)
    } else {
        "Box ID is not held: "@ + decimal_text(id as nat)
    }
}

/// How often `id` stands in the queue.
pub open spec fn occurrences(free: Seq<u32>, id: u32) -> nat
    decreases free.len(),
{
    if free.len() == 0 {
        0
    } else {
        occurrences(free.drop_last(), id) + if free.last() == id {
            1nat
        } else {
            0nat
        }
    }
}

/// One request made of the pool.
pub enum PoolOp {
    Acquire,
    Release(u32),
}

/// Whether the request is granted on the given free queue.
pub open spec fn op_granted(free: Seq<u32>, size: nat, op: PoolOp) -> bool {
    match op {
        PoolOp::Acquire => free.len() > 0,
        PoolOp::Release(id) => can_release(free, size, id),
    }
}

/// The free queue after the request.
pub open spec fn after_op(free: Seq<u32>, size: nat, op: PoolOp) -> Seq<u32> {
    match op {
        PoolOp::Acquire => after_acquire(free),
        PoolOp::Release(id) => after_release(free, size, id),
    }
}

/// The free queue after a sequence of requests, made in order.
pub open spec fn after_ops(free: Seq<u32>, size: nat, ops: Seq<PoolOp>) -> Seq<u32>
    decreases ops.len(),
{
    if ops.len() == 0 {
        free
    } else {
        after_op(after_ops(free, size, ops.drop_last()), size, ops.last())
    }
}

/// How many of the requests were granted acquisitions.
pub open spec fn acquires_granted(free: Seq<u32>, size: nat, ops: Seq<PoolOp>) -> nat
    decreases ops.len(),
{
    if ops.len() == 0 {
        0
    } else {
        let before = after_ops(free, size, ops.drop_last());
        acquires_granted(free, size, ops.drop_last()) + if ops.last() is Acquire && op_granted(
            before,
            size,
            ops.last(),
        ) {
            1nat
        } else {
            0nat
        }
    }
}

/// How many of the requests were granted releases.
pub open spec fn releases_granted(free: Seq<u32>, size: nat, ops: Seq<PoolOp>) -> nat
    decreases ops.len(),
{
    if ops.len() == 0 {
        0
    } else {
        let before = after_ops(free, size, ops.drop_last());
        releases_granted(free, size, ops.drop_last()) + if ops.last() is Release && op_granted(
            before,
            size,
            ops.last(),
        ) {
            1nat
        } else {
            0nat
        }
    }
}

/// In a valid queue an identifier stands once if it is free, and not at all
/// if it is held.
pub proof fn lemma_occurrences_in_valid_queue(free: Seq<u32>, size: nat, id: u32)
    requires
        queue_valid(free, size),
    ensures
        occurrences(free, id) == if free.contains(id) {
            1nat
        } else {
            0nat
        },
    decreases free.len(),
{
    if free.len() > 0 {
        let front = free.drop_last();
        assert forall|i: int| 0 <= i < front.len() implies (#[trigger] front[i] as nat)
            < size by {
            assert(front[i] == free[i]);
        }
        lemma_occurrences_in_valid_queue(front, size, id);
        if free.last() == id {
            if front.contains(id) {
                let k = front.index_of(id);
                assert(free[k] == free[free.len() - 1]);
            }
            assert(free[free.len() - 1] == id);
        } else {
            if free.contains(id) {
                let k = free.index_of(id);
                assert(front[k] == id);
            }
            if front.contains(id) {
                let k = front.index_of(id);
                assert(free[k] == id);
            }
        }
    }
}

/// The queue of a new pool is valid.
pub proof fn lemma_initial_queue_valid(size: nat)
    requires
        size <= u32::MAX,
    ensures
        queue_valid(initial_queue(size), size),
{
}

/// A request, granted or refused, leaves a valid queue valid.
pub proof fn lemma_op_keeps_queue_valid(free: Seq<u32>, size: nat, op: PoolOp)
    requires
        queue_valid(free, size),
    ensures
        queue_valid(after_op(free, size, op), size),
{
    let next = after_op(free, size, op);
    match op {
        PoolOp::Acquire => {
            if free.len() > 0 {
                assert forall|i: int, j: int|
                    0 <= i < next.len() && 0 <= j < next.len() && i != j implies next[i]
                    != next[j] by {
                    assert(free[i + 1] != free[j + 1]);
                }
                assert forall|i: int| 0 <= i < next.len() implies (#[trigger] next[i] as nat)
                    < size by {
                    assert(next[i] == free[i + 1]);
                }
            }
        },
        PoolOp::Release(id) => {},
    }
}

/// Whatever requests a new pool has served, every slot stands in its free
/// queue at most once, and only slots of the pool stand there.
pub proof fn lemma_free_queue_never_repeats(size: nat, ops: Seq<PoolOp>, id: u32)
    requires
        size <= u32::MAX,
    ensures
        queue_valid(after_ops(initial_queue(size), size, ops), size),
        occurrences(after_ops(initial_queue(size), size, ops), id) <= 1,
    decreases ops.len(),
{
    if ops.len() == 0 {
        lemma_initial_queue_valid(size);
    } else {
        lemma_free_queue_never_repeats(size, ops.drop_last(), id);
        lemma_op_keeps_queue_valid(
            after_ops(initial_queue(size), size, ops.drop_last()),
            size,
            ops.last(),
        );
    }
    lemma_occurrences_in_valid_queue(after_ops(initial_queue(size), size, ops), size, id);
}

/// Whatever requests a new pool has served, the number of slots held is
/// the number of granted acquisitions less the number of granted releases.
pub proof fn lemma_held_balance(size: nat, ops: Seq<PoolOp>)
    requires
        size <= u32::MAX,
    ensures
        size - after_ops(initial_queue(size), size, ops).len() == acquires_granted(
            initial_queue(size),
            size,
            ops,
        ) - releases_granted(initial_queue(size), size, ops),
    decreases ops.len(),
{
    if ops.len() > 0 {
        lemma_held_balance(size, ops.drop_last());
    }
}

/// After an attempt to give back a slot of the pool, granted or refused,
/// the slot stands in the free queue exactly once.
pub proof fn lemma_release_frees_exactly_once(free: Seq<u32>, size: nat, id: u32)
    requires
        queue_valid(free, size),
        (id as nat) < size,
    ensures
        occurrences(after_release(free, size, id), id) == 1,
{
    let next = after_release(free, size, id);
    lemma_op_keeps_queue_valid(free, size, PoolOp::Release(id));
    lemma_occurrences_in_valid_queue(next, size, id);
    if can_release(free, size, id) {
        assert(next[next.len() - 1] == id);
    }
}

/// After an attempt to give a slot back, granted or refused, a second
/// attempt for the same slot is refused.
pub proof fn lemma_second_release_is_refused(free: Seq<u32>, size: nat, id: u32)
    ensures
        !can_release(after_release(free, size, id), size, id),
{
    let next = after_release(free, size, id);
    if can_release(free, size, id) {
        assert(next[next.len() - 1] == id);
    }
}

/// The pool: the identifiers that are free, in the order in which they
/// became free, and the number of slots.
pub struct BoxPool {
    available: VecDeque<u32>,
    size: u32,
}

impl BoxPool {
    #[verifier::type_invariant]
    spec fn well_formed(self) -> bool {
        queue_valid(self.available@, self.size as nat)
    }

    /// The identifiers that are free, oldest first.
    pub closed spec fn free_queue(&self) -> Seq<u32> {
        self.available@
    }

    /// The number of slots the pool was made with.
    pub closed spec fn capacity(&self) -> nat {
        self.size as nat
    }

    /// Every identifier below the capacity is either free, and then queued
    /// exactly once, or held.
    pub open spec fn inv(&self) -> bool {
        queue_valid(self.free_queue(), self.capacity())
    }

    /// The number of slots that are held.
    pub open spec fn held(&self) -> int {
        self.capacity() - self.free_queue().len()
    }

    /// A pool of `size` slots, all free, in ascending order.
    pub fn new(size: u32) -> (pool: Self)
        ensures
            pool.inv(),
            pool.capacity() == size,
            pool.free_queue() == initial_queue(size as nat),
            pool.held() == 0,
    {
        let mut available: VecDeque<u32> = VecDeque::new();
        let mut i: u32 = 0;
        while i < size
            invariant
                i <= size,
                available@ =~= initial_queue(i as nat),
            decreases size - i,
        {
            available.push_back(i);
            i = i + 1;
        }
        proof {
            lemma_initial_queue_valid(size as nat);
        }
        BoxPool { available, size }
    }

    /// Takes the slot that has been free the longest. Fails at once with
    /// `BoxPoolExhausted` when none is free.
    pub fn acquire(&mut self) -> (r: Result<u32, DomainError>)
        ensures
            old(self).inv(),
            final(self).inv(),
            final(self).capacity() == old(self).capacity(),
            final(self).free_queue() == after_acquire(old(self).free_queue()),
            match r {
                Ok(id) => {
                    &&& old(self).free_queue().len() > 0
                    &&& id == old(self).free_queue()[0]
                    &&& (id as nat) < old(self).capacity()
                    &&& !final(self).free_queue().contains(id)
                    &&& final(self).held() == old(self).held() + 1
                },
                Err(e) => {
                    &&& old(self).free_queue().len() == 0
                    &&& e.kind_of() == ErrorKind::BoxPoolExhausted
                    &&& final(self).held() == old(self).held()
                },
            },
    {
        proof {
            use_type_invariant(&*self);
            lemma_op_keeps_queue_valid(self.available@, self.size as nat, PoolOp::Acquire);
        }
        let ghost before = self.available@;
        // The queue is taken out while it changes: the pool itself is
        // well-formed at every step.
        let mut queue: VecDeque<u32> = VecDeque::new();
        std::mem::swap(&mut self.available, &mut queue);
        let taken = queue.pop_front();
        proof {
            assert(queue@ =~= after_acquire(before));
            if taken is Some && queue@.contains(taken->0) {
                let k = queue@.index_of(taken->0);
                assert(before[k + 1] == before[0]);
            }
        }
        std::mem::swap(&mut self.available, &mut queue);
        match taken {
            Some(id) => Ok(id),
            None => Err(DomainError::BoxPoolExhausted),
        }
    }

    /// Tells whether slot `box_id` is in the free queue.
    pub fn is_free(&self, box_id: u32) -> (b: bool)
        ensures
            b == self.free_queue().contains(box_id),
    {
        let n: usize = self.available.len();
        let mut i: usize = 0;
        while i < n
            invariant
                n == self.available@.len(),
                i <= n,
                forall|j: int| 0 <= j < i ==> self.available@[j] != box_id,
            decreases n - i,
        {
            if self.available[i] == box_id {
                return true;
            }
            i = i + 1;
        }
        false
    }

    /// Gives slot `box_id` back: it joins the tail of the free queue. Fails
    /// with `Internal`, and changes nothing, when the identifier is not one
    /// of the pool or the slot is not held.
    pub fn release(&mut self, box_id: u32) -> (r: Result<(), DomainError>)
        ensures
            old(self).inv(),
            final(self).inv(),
            final(self).capacity() == old(self).capacity(),
            final(self).free_queue() == after_release(
                old(self).free_queue(),
                old(self).capacity(),
                box_id,
            ),
            match r {
                Ok(_) => {
                    &&& can_release(old(self).free_queue(), old(self).capacity(), box_id)
                    &&& final(self).held() == old(self).held() - 1
                },
                Err(e) => {
                    &&& !can_release(old(self).free_queue(), old(self).capacity(), box_id)
                    &&& e.kind_of() == ErrorKind::Internal
                    &&& e.detail() == release_refusal(old(self).capacity(), box_id)
                    &&& final(self).held() == old(self).held()
                },
            },
    {
        proof {
            use_type_invariant(&*self);
            lemma_op_keeps_queue_valid(self.available@, self.size as nat, PoolOp::Release(box_id));
        }
        if box_id >= self.size {
            let mut detail = String::from_str("Invalid box ID: ");
            append_decimal(&mut detail, box_id as u64);
            return Err(DomainError::Internal(detail));
        }
        if self.is_free(box_id) {
            let mut detail = String::from_str("Box ID is not held: ");
            append_decimal(&mut detail, box_id as u64);
            return Err(DomainError::Internal(detail));
        }
        let mut queue: VecDeque<u32> = VecDeque::new();
        std::mem::swap(&mut self.available, &mut queue);
        queue.push_back(box_id);
        std::mem::swap(&mut self.available, &mut queue);
        Ok(())
    }

    /// The number of slots the pool was made with.
    pub fn size(&self) -> (n: u32)
        ensures
            n == self.capacity(),
    {
        self.size
    }

    /// The number of slots that are free.
    pub fn free_count(&self) -> (n: usize)
        ensures
            n == self.free_queue().len(),
    {
        self.available.len()
    }
}

} // verus!
