//! Lazy Cartesian-product enumeration: the combinations of one element from
//! each of several input lists, produced one at a time in a fixed order.
//!
//! The enumeration order is mixed-radix counting over the per-list cursor
//! positions, with the last list as the fastest-varying digit. The engine
//! advances in O(number of lists) per step, supports random access to the
//! n-th combination, can overwrite a caller-supplied buffer instead of
//! allocating, and can save and restore its position.

pub mod index_counters;
pub mod list_wrapper;
pub mod mixed_radix;
pub mod output;

use core::marker::PhantomData;

use vstd::prelude::*;

use crate::index_counters::IndexCounters;
pub use crate::list_wrapper::{ListWrapper, Repeated};
use crate::list_wrapper::same_lists;
use crate::mixed_radix::{digits, in_bounds, odo_step, odo_step_k, product, to_ints};

verus! {

/// The `PermutatorWrapper` contains the methods (creation, position
/// bookkeeping, buffer re-use) which any permutator implements.
pub trait PermutatorWrapper<ListWrap, ItemWrap>: Sized where ListWrap: ListWrapper<ItemWrap> {
    /// The odometer state of the engine.
    spec fn counters(&self) -> IndexCounters;

    /// The wrapped input lists.
    spec fn wrapped(&self) -> ListWrap;

    /// A well-formed engine: well-formed input lists, and a well-formed
    /// odometer whose lengths are exactly those of the input lists.
    spec fn wf(&self) -> bool;

    /// Initializes a new `Permutator` over the given input lists: cursors
    /// all zero, iteration count zero, and the total set to the product of
    /// the list lengths.
    fn new(lists: &ListWrap) -> (p: Permutator<ListWrap, ItemWrap>)
        requires
            lists.wf(),
            product(lists.spec_lens()) <= usize::MAX,
        ensures
            p.inv(),
            same_lists::<ListWrap, ItemWrap>(*lists, p.lists),
            p.indexes.lens_int() == lists.spec_lens(),
            p.indexes.curr_iter == 0,
            p.indexes.max_iters == product(lists.spec_lens()),
            forall|i: int|
                0 <= i < p.indexes.cursors().len() ==> p.indexes.cursors()[i] == 0,
            p.indexes.synced(),
    ;

    /// Sets the internal index counter's values to a specific state, as
    /// previously obtained from `get_index`, to resume enumeration
    /// mid-stream. `iter_no` is the iteration position to resume from.
    fn set_index(&mut self, iter_no: usize, indexes: Vec<usize>)
        requires
            old(self).wf(),
            indexes@.len() == old(self).counters().indexes@.len(),
            in_bounds(to_ints(indexes@), old(self).counters().lens_int()),
            iter_no <= old(self).counters().max_iters,
        ensures
            final(self).wf(),
            final(self).wrapped() == old(self).wrapped(),
            final(self).counters().indexes@ == indexes@,
            final(self).counters().curr_iter == iter_no,
            final(self).counters().lens == old(self).counters().lens,
            final(self).counters().max_iters == old(self).counters().max_iters,
    ;

    /// Obtains the current iteration number and a copy of the index
    /// counter's indexes, suitable for a later `set_index`.
    fn get_index(&self) -> (r: (usize, Vec<usize>))
        requires
            self.wf(),
        ensures
            r.0 == self.counters().curr_iter,
            r.1@ == self.counters().indexes@,
    ;

    /// Returns the total number of permutations possible.
    fn max_permutations(&self) -> (n: usize)
        ensures
            n == self.counters().max_iters,
    ;

    /// Resets the internal state of the `Permutator` to allow you to start
    /// permutating again: cursors all zero and iteration count zero, exactly
    /// the state a fresh engine over the same lists starts in.
    fn reset(&mut self)
        requires
            old(self).wf(),
        ensures
            final(self).wf(),
            final(self).wrapped() == old(self).wrapped(),
            final(self).counters().lens == old(self).counters().lens,
            final(self).counters().max_iters == old(self).counters().max_iters,
            final(self).counters().curr_iter == 0,
            forall|i: int|
                0 <= i < final(self).counters().cursors().len()
                    ==> final(self).counters().cursors()[i] == 0,
            final(self).counters().synced(),
    ;

    /// Provides similar functionality as `next`, but writes the combination
    /// into a caller-supplied buffer (typically the value a prior `next`
    /// returned) in order to avoid an allocation. Returns whether a
    /// combination was produced; when the enumeration is exhausted, nothing
    /// is written and the state does not change.
    fn next_with_buffer(&mut self, buffer: &mut ItemWrap) -> (more: bool)
        requires
            old(self).wf(),
            old(self).wrapped().valid_buffer(*old(buffer)),
        ensures
            final(self).wf(),
            final(self).wrapped() == old(self).wrapped(),
            final(self).counters().lens == old(self).counters().lens,
            final(self).counters().max_iters == old(self).counters().max_iters,
            more == old(self).counters().has_more(),
            !more ==> *final(self) == *old(self) && *final(buffer) == *old(buffer),
            more ==> ListWrap::item_model(*final(buffer)) == old(self).wrapped().combo_at(
                old(self).counters().cursors(),
            ),
            more ==> old(self).wrapped().valid_buffer(*final(buffer)),
            more ==> final(self).counters().curr_iter == old(self).counters().curr_iter + 1,
            more ==> final(self).counters().cursors() == odo_step(
                old(self).counters().lens_int(),
                old(self).counters().cursors(),
            ),
            old(self).counters().synced() ==> final(self).counters().synced(),
            old(self).counters().synced() && more ==> ListWrap::item_model(*final(buffer))
                == old(self).wrapped().combo_at(
                digits(old(self).counters().lens_int(), old(self).counters().curr_iter as int),
            ),
    ;
}

/// The `Permutator` contains the state of the enumeration as well as the
/// owned input lists that are being permutated against.
pub struct Permutator<ListWrap, ItemWrap> where ListWrap: ListWrapper<ItemWrap> {
    /// The indexes are used to point to the next permutation sequence.
    pub indexes: IndexCounters,
    /// The internal data that the permutator is permutating against.
    pub lists: ListWrap,
    /// Marker tying the engine to the combination type its shape produces.
    pub _list_item_wrapper: PhantomData<ItemWrap>,
}

impl<ListWrap, ItemWrap> PermutatorWrapper<ListWrap, ItemWrap> for Permutator<
    ListWrap,
    ItemWrap,
> where ListWrap: ListWrapper<ItemWrap> {
    open spec fn counters(&self) -> IndexCounters {
        self.indexes
    }

    open spec fn wrapped(&self) -> ListWrap {
        self.lists
    }

    open spec fn wf(&self) -> bool {
        self.inv()
    }

    fn new(lists: &ListWrap) -> (p: Permutator<ListWrap, ItemWrap>) {
        let nlists = lists.wrapper_len();
        let nvalues = lists.lens();
        let ghost lens_i = lists.spec_lens();
        proof {
            lists.lemma_wf_lens();
            assert(forall|i: int|
                0 <= i < lens_i.len() ==> #[trigger] lens_i[i] == to_ints(nvalues@)[i]);
        }
        let mut max_iters: usize = 1;
        let mut i: usize = 0;
        proof {
            crate::mixed_radix::lemma_product_take_le(lens_i, 0);
            assert(lens_i.take(0) =~= Seq::<int>::empty());
        }
        while i < nvalues.len()
            invariant
                i <= nvalues@.len(),
                to_ints(nvalues@) == lens_i,
                nvalues@.len() == lens_i.len(),
                crate::mixed_radix::all_positive(lens_i),
                product(lens_i) <= usize::MAX,
                max_iters == product(lens_i.take(i as int)),
            decreases nvalues@.len() - i,
        {
            proof {
                crate::mixed_radix::lemma_product_take_le(lens_i, i + 1);
                assert(lens_i.take(i + 1).drop_last() =~= lens_i.take(i as int));
                assert(lens_i.take(i + 1).last() == lens_i[i as int]);
                assert(to_ints(nvalues@)[i as int] == nvalues@[i as int] as int);
            }
            max_iters = max_iters * nvalues[i];
            i = i + 1;
        }
        proof {
            assert(lens_i.take(nvalues@.len() as int) =~= lens_i);
        }
        let mut zeros: Vec<usize> = Vec::new();
        let mut k: usize = 0;
        while k < nlists
            invariant
                k <= nlists,
                zeros@.len() == k,
                forall|q: int| 0 <= q < k ==> zeros@[q] == 0,
            decreases nlists - k,
        {
            zeros.push(0);
            k = k + 1;
        }
        let p = Permutator {
            indexes: IndexCounters {
                indexes: zeros,
                lens: nvalues,
                curr_iter: 0,
                max_iters: max_iters,
            },
            lists: lists.duplicate(),
            _list_item_wrapper: PhantomData,
        };
        proof {
            assert(in_bounds(p.indexes.cursors(), p.indexes.lens_int()));
            crate::mixed_radix::lemma_product_positive(lens_i);
            crate::mixed_radix::lemma_digits_zero(lens_i);
            assert(p.indexes.cursors() =~= digits(lens_i, 0));
            assert(p.indexes.synced());
        }
        p
    }

    fn set_index(&mut self, iter_no: usize, indexes: Vec<usize>) {
        self.indexes.indexes = indexes;
        self.indexes.curr_iter = iter_no;
    }

    fn get_index(&self) -> (r: (usize, Vec<usize>)) {
        let mut copy: Vec<usize> = Vec::new();
        let mut i: usize = 0;
        while i < self.indexes.indexes.len()
            invariant
                i <= self.indexes.indexes@.len(),
                copy@.len() == i,
                forall|k: int| 0 <= k < i ==> copy@[k] == self.indexes.indexes@[k],
            decreases self.indexes.indexes@.len() - i,
        {
            let value = self.indexes.indexes[i];
            copy.push(value);
            i = i + 1;
        }
        proof {
            assert(copy@ =~= self.indexes.indexes@);
        }
        (self.indexes.curr_iter, copy)
    }

    fn max_permutations(&self) -> (n: usize) {
        self.indexes.max_iters
    }

    fn reset(&mut self) {
        self.indexes.reset();
        proof {
            crate::mixed_radix::lemma_digits_zero(self.indexes.lens_int());
            if self.indexes.curr_iter < self.indexes.max_iters {
                assert(self.indexes.cursors() =~= digits(self.indexes.lens_int(), 0));
            }
        }
    }

    fn next_with_buffer(&mut self, buffer: &mut ItemWrap) -> (more: bool) {
        if self.indexes.curr_iter == self.indexes.max_iters {
            return false;
        }
        let ghost c0 = self.indexes;
        self.indexes.curr_iter = self.indexes.curr_iter + 1;
        self.lists.next_with_buffer(&self.indexes.indexes, buffer);
        let nlists = self.lists.wrapper_len();
        self.indexes.increment(nlists - 1);
        proof {
            if c0.synced() && self.indexes.curr_iter < self.indexes.max_iters {
                crate::mixed_radix::lemma_step_digits(c0.lens_int(), c0.curr_iter as int);
            }
        }
        true
    }
}

impl<ListWrap, ItemWrap> Permutator<ListWrap, ItemWrap> where ListWrap: ListWrapper<ItemWrap> {
    /// A well-formed engine: well-formed input lists, and a well-formed
    /// odometer whose lengths are exactly those of the input lists.
    pub open spec fn inv(&self) -> bool {
        &&& self.indexes.wf()
        &&& self.lists.wf()
        &&& self.indexes.lens_int() == self.lists.spec_lens()
    }

    /// Produces the combination at the current position, freshly allocated,
    /// and advances; or signals exhaustion, forever until a `reset` or
    /// `set_index`, without changing any state.
    pub fn next(&mut self) -> (r: Option<ItemWrap>)
        requires
            old(self).wf(),
        ensures
            final(self).wf(),
            final(self).lists == old(self).lists,
            final(self).indexes.lens == old(self).indexes.lens,
            final(self).indexes.max_iters == old(self).indexes.max_iters,
            r is Some <==> old(self).indexes.has_more(),
            r is None ==> *final(self) == *old(self),
            r is Some ==> ListWrap::item_model(r->0) == old(self).lists.combo_at(
                old(self).indexes.cursors(),
            ),
            r is Some ==> old(self).lists.valid_buffer(r->0),
            r is Some ==> final(self).indexes.curr_iter == old(self).indexes.curr_iter + 1,
            r is Some ==> final(self).indexes.cursors() == odo_step(
                old(self).indexes.lens_int(),
                old(self).indexes.cursors(),
            ),
            old(self).indexes.synced() ==> final(self).indexes.synced(),
            old(self).indexes.synced() && r is Some ==> ListWrap::item_model(r->0)
                == old(self).lists.combo_at(
                digits(old(self).indexes.lens_int(), old(self).indexes.curr_iter as int),
            ),
    {
        if self.indexes.curr_iter == self.indexes.max_iters {
            return None;
        }
        let ghost c0 = self.indexes;
        self.indexes.curr_iter = self.indexes.curr_iter + 1;
        let output = self.lists.next_item(&self.indexes.indexes);
        let nlists = self.lists.wrapper_len();
        self.indexes.increment(nlists - 1);
        proof {
            if c0.synced() && self.indexes.curr_iter < self.indexes.max_iters {
                crate::mixed_radix::lemma_step_digits(c0.lens_int(), c0.curr_iter as int);
            }
        }
        Some(output)
    }

    /// Skips `n` combinations, advancing the cursors for each one exactly as
    /// `next` would, then produces and returns the following combination; or
    /// signals exhaustion if fewer than `n + 1` combinations remain.
    pub fn nth(&mut self, n: usize) -> (r: Option<ItemWrap>)
        requires
            old(self).wf(),
        ensures
            final(self).wf(),
            final(self).lists == old(self).lists,
            final(self).indexes.lens == old(self).indexes.lens,
            final(self).indexes.max_iters == old(self).indexes.max_iters,
            r is Some <==> old(self).indexes.curr_iter + n < old(self).indexes.max_iters,
            r is Some ==> {
                &&& ListWrap::item_model(r->0) == old(self).lists.combo_at(
                    odo_step_k(
                        old(self).indexes.lens_int(),
                        old(self).indexes.cursors(),
                        n as nat,
                    ),
                )
                &&& old(self).lists.valid_buffer(r->0)
                &&& final(self).indexes.curr_iter == old(self).indexes.curr_iter + n + 1
                &&& final(self).indexes.cursors() == odo_step_k(
                    old(self).indexes.lens_int(),
                    old(self).indexes.cursors(),
                    (n + 1) as nat,
                )
            },
            r is None ==> final(self).indexes.curr_iter == final(self).indexes.max_iters,
            r is None ==> final(self).indexes.cursors() == odo_step_k(
                old(self).indexes.lens_int(),
                old(self).indexes.cursors(),
                (old(self).indexes.max_iters - old(self).indexes.curr_iter) as nat,
            ),
            old(self).indexes.synced() ==> final(self).indexes.synced(),
            old(self).indexes.synced() && r is Some ==> ListWrap::item_model(r->0)
                == old(self).lists.combo_at(
                digits(
                    old(self).indexes.lens_int(),
                    old(self).indexes.curr_iter + n,
                ),
            ),
    {
        let mut remaining = n;
        loop
            invariant
                self.wf(),
                self.lists == old(self).lists,
                self.indexes.lens == old(self).indexes.lens,
                self.indexes.max_iters == old(self).indexes.max_iters,
                remaining <= n,
                self.indexes.curr_iter == old(self).indexes.curr_iter + (n - remaining),
                self.indexes.cursors() == odo_step_k(
                    old(self).indexes.lens_int(),
                    old(self).indexes.cursors(),
                    (n - remaining) as nat,
                ),
                old(self).indexes.synced() ==> self.indexes.synced(),
            decreases self.indexes.max_iters - self.indexes.curr_iter,
        {
            if self.indexes.curr_iter == self.indexes.max_iters {
                return None;
            }
            let ghost c0 = self.indexes;
            self.indexes.curr_iter = self.indexes.curr_iter + 1;
            if remaining != 0 {
                let nlists = self.lists.wrapper_len();
                self.indexes.increment(nlists - 1);
                remaining = remaining - 1;
                proof {
                    if c0.synced() && self.indexes.curr_iter < self.indexes.max_iters {
                        crate::mixed_radix::lemma_step_digits(c0.lens_int(), c0.curr_iter as int);
                    }
                }
            } else {
                let output = self.lists.next_item(&self.indexes.indexes);
                let nlists = self.lists.wrapper_len();
                self.indexes.increment(nlists - 1);
                proof {
                    if c0.synced() && self.indexes.curr_iter < self.indexes.max_iters {
                        crate::mixed_radix::lemma_step_digits(c0.lens_int(), c0.curr_iter as int);
                    }
                }
                return Some(output);
            }
        }
    }

    /// Buffer re-use does not change what is produced: `next` and
    /// `next_with_buffer` both promise the combination addressed by the
    /// engine's current cursors and the same advancement of the state, so
    /// from equal states the freshly allocated combination and the
    /// overwritten buffer hold the same value, and the two streams agree
    /// position by position.
    pub proof fn lemma_buffer_reuse_equivalence(
        lists: ListWrap,
        counters: IndexCounters,
        fresh: ItemWrap,
        reused: ItemWrap,
    )
        requires
            counters.wf(),
            counters.has_more(),
            ListWrap::item_model(fresh) == lists.combo_at(counters.cursors()),
            ListWrap::item_model(reused) == lists.combo_at(counters.cursors()),
        ensures
            ListWrap::item_model(fresh) == ListWrap::item_model(reused),
    {
    }

    /// Runs the enumeration to exhaustion and returns how many combinations
    /// it produced: the total, less the iterations already consumed.
    pub fn count(self) -> (n: usize)
        requires
            self.wf(),
        ensures
            n == self.indexes.max_iters - self.indexes.curr_iter,
    {
        let mut p = self;
        let mut n: usize = 0;
        loop
            invariant
                p.wf(),
                p.indexes.max_iters == self.indexes.max_iters,
                p.indexes.curr_iter >= self.indexes.curr_iter,
                n == p.indexes.curr_iter - self.indexes.curr_iter,
            ensures
                n == self.indexes.max_iters - self.indexes.curr_iter,
            decreases p.indexes.max_iters - p.indexes.curr_iter,
        {
            match p.next() {
                Some(_) => {
                    n = n + 1;
                },
                None => {
                    break;
                },
            }
        }
        n
    }
}

} // verus!
