//! A colorer that hands every question to the first of a queue of colorers.

use std::collections::VecDeque;
use vstd::prelude::*;
use vstd::arithmetic::div_mod::{
    lemma_add_mod_noop, lemma_mod_self_0, lemma_mod_twice, lemma_small_mod,
};
use crate::colors::Hsv;
use super::grid_colorer::{ColorerError, GridColorer, GridParams};

verus! {

/// A queue after its front entry has moved to the back.
pub open spec fn rotate_once<T>(queue: Seq<T>) -> Seq<T> {
    queue.drop_first().push(queue[0])
}

/// A queue after `k` rotations.
pub open spec fn rotated<T>(queue: Seq<T>, k: nat) -> Seq<T>
    decreases k,
{
    if k == 0 {
        queue
    } else {
        rotate_once(rotated(queue, (k - 1) as nat))
    }
}

/// RotatingColorer keeps a queue of colorers and will always use the front of
/// the queue as the current colorer. The colorer can be rotated by invoking
/// the `update` method.
pub struct RotatingColorer<C: GridColorer> {
    current: C,
    waiting: VecDeque<C>,
}

impl<C: GridColorer> View for RotatingColorer<C> {
    type V = Seq<C>;

    /// The queue of colorers, the current one first.
    closed spec fn view(&self) -> Seq<C> {
        seq![self.current] + self.waiting@
    }
}

impl<C: GridColorer> RotatingColorer<C> {
    /// Fails when `colorers` is empty, and only then.
    pub fn new(colorers: VecDeque<C>) -> (r: Result<Self, ColorerError>)
        ensures
            colorers@.len() == 0 ==> r == Err::<Self, ColorerError>(ColorerError::NoColorers),
            colorers@.len() > 0 ==> (r matches Ok(rotating) && rotating@ == colorers@),
    {
        let mut waiting = colorers;
        match waiting.pop_front() {
            Some(current) => {
                assert(seq![current] + waiting@ =~= colorers@);
                Ok(RotatingColorer { current, waiting })
            },
            None => Err(ColorerError::NoColorers),
        }
    }

    /// A rotation always has a colorer at its front.
    pub proof fn lemma_never_empty(&self)
        ensures
            self@.len() > 0,
    {
    }
}

impl<C: GridColorer> GridColorer for RotatingColorer<C> {
    open spec fn may_color(&self, params: GridParams, color: Hsv) -> bool {
        self@[0].may_color(params, color)
    }

    open spec fn steps_to(&self, next: &Self) -> bool {
        next@ == rotate_once(self@)
    }

    fn color(&self, params: GridParams) -> (color: Hsv) {
        self.current.color(params)
    }

    fn update(&mut self) {
        let ghost before = self@;
        match self.waiting.pop_front() {
            Some(next) => {
                let mut front_colorer = next;
                core::mem::swap(&mut self.current, &mut front_colorer);
                self.waiting.push_back(front_colorer);
                assert(self@ =~= rotate_once(before));
            },
            None => {
                assert(self@ =~= rotate_once(before));
            },
        }
    }
}

/// Rotation is first in, first out: after `k` rotations of a queue of length
/// `n`, the entry at position `i` is the one that started at position
/// `(i + k) mod n`. In particular the front entry is the one that started at
/// position `k mod n`.
pub proof fn lemma_rotation_is_fifo<T>(queue: Seq<T>, k: nat, i: int)
    requires
        0 <= i < queue.len(),
    ensures
        rotated(queue, k).len() == queue.len(),
        0 <= (i + k) % (queue.len() as int) < queue.len(),
        rotated(queue, k)[i] == queue[(i + k) % (queue.len() as int)],
    decreases k,
{
    let n = queue.len() as int;
    vstd::arithmetic::div_mod::lemma_mod_pos_bound(i + k, n);
    if k == 0 {
        lemma_small_mod(i as nat, n as nat);
    } else {
        if i < n - 1 {
            lemma_rotation_is_fifo(queue, (k - 1) as nat, i + 1);
        } else {
            lemma_rotation_is_fifo(queue, (k - 1) as nat, 0);
            // (n - 1 + k) mod n == (k - 1) mod n
            lemma_add_mod_noop(n, k - 1, n);
            lemma_mod_self_0(n);
            lemma_mod_twice(k - 1, n);
        }
    }
}

} // verus!
