//! The odometer counter: per-list cursor positions together with the global
//! iteration count and the total number of combinations.

use vstd::prelude::*;

use crate::mixed_radix::{all_positive, digits, in_bounds, odo_step, product, to_ints};

verus! {

/// Tracks the state of the indexes of each list.
pub struct IndexCounters {
    /// The current cursor position in each list.
    pub indexes: Vec<usize>,
    /// The lengths of the wrapped lists.
    pub lens: Vec<usize>,
    /// The current iteration position.
    pub curr_iter: usize,
    /// The maximum number of iterations to perform.
    pub max_iters: usize,
}

impl IndexCounters {
    /// The cursor positions as mathematical integers.
    pub open spec fn cursors(&self) -> Seq<int> {
        to_ints(self.indexes@)
    }

    /// The list lengths as mathematical integers.
    pub open spec fn lens_int(&self) -> Seq<int> {
        to_ints(self.lens@)
    }

    /// Structural well-formedness: one in-bounds cursor per list, the total
    /// is the product of the lengths, and the iteration count never passes
    /// the total.
    pub open spec fn wf(&self) -> bool {
        &&& in_bounds(self.cursors(), self.lens_int())
        &&& all_positive(self.lens_int())
        &&& self.max_iters == product(self.lens_int())
        &&& self.curr_iter <= self.max_iters
    }

    /// The cursors address the combination numbered by the iteration count.
    /// This holds from construction on and is preserved by every
    /// advancement; an arbitrary `seek` may break it.
    pub open spec fn synced(&self) -> bool {
        self.curr_iter < self.max_iters ==> self.cursors() == digits(
            self.lens_int(),
            self.curr_iter as int,
        )
    }

    /// Combinations remain to be produced.
    pub open spec fn has_more(&self) -> bool {
        self.curr_iter < self.max_iters
    }

    /// Increments and resets cursor positions according to their maximum
    /// values: the odometer advancement, starting at position `nlists` (the
    /// last list) and carrying leftward.
    pub fn increment(&mut self, nlists: usize)
        requires
            old(self).wf(),
            nlists + 1 == old(self).indexes@.len(),
        ensures
            final(self).wf(),
            final(self).cursors() == odo_step(old(self).lens_int(), old(self).cursors()),
            final(self).lens == old(self).lens,
            final(self).curr_iter == old(self).curr_iter,
            final(self).max_iters == old(self).max_iters,
    {
        let ghost orig = old(self).indexes@;
        let ghost lens_i = old(self).lens_int();
        proof {
            crate::mixed_radix::lemma_step_in_bounds(lens_i, to_ints(orig));
            assert(lens_i.take(orig.len() as int) =~= lens_i);
            assert(to_ints(orig).take(orig.len() as int) =~= to_ints(orig));
            assert(odo_step(lens_i, to_ints(orig)) + Seq::new(0nat, |i: int| 0) =~= odo_step(
                lens_i,
                to_ints(orig),
            ));
        }
        let mut j = nlists;
        loop
            invariant_except_break
                forall|i: int| 0 <= i <= j ==> self.indexes@[i] == orig[i],
                forall|i: int| j < i < orig.len() ==> self.indexes@[i] == 0,
                forall|i: int| j < i < orig.len() ==> orig[i] + 1 == lens_i[i],
                odo_step(lens_i, to_ints(orig)) == odo_step(
                    lens_i.take(j + 1),
                    to_ints(orig).take(j + 1),
                ) + Seq::new((orig.len() - 1 - j) as nat, |i: int| 0),
            invariant
                self.lens == old(self).lens,
                self.curr_iter == old(self).curr_iter,
                self.max_iters == old(self).max_iters,
                self.indexes@.len() == orig.len(),
                self.lens@.len() == orig.len(),
                lens_i == to_ints(self.lens@),
                0 <= j < orig.len(),
                in_bounds(to_ints(orig), lens_i),
                all_positive(lens_i),
            ensures
                self.lens == old(self).lens,
                self.curr_iter == old(self).curr_iter,
                self.max_iters == old(self).max_iters,
                self.indexes@.len() == orig.len(),
                to_ints(self.indexes@) == odo_step(lens_i, to_ints(orig)),
            decreases j,
        {
            proof {
                assert(lens_i.take(j + 1).last() == lens_i[j as int]);
                assert(to_ints(orig).take(j + 1).last() == orig[j as int]);
                assert(orig[j as int] < lens_i[j as int]);
            }
            let current = self.indexes[j];
            let max = self.lens[j];
            let ghost before = self.indexes@;
            if current + 1 >= max {
                if j != 0 {
                    self.indexes.set(j, 0);
                    proof {
                        assert(self.indexes@ == before.update(j as int, 0));
                        assert(lens_i.take(j + 1).drop_last() =~= lens_i.take(j as int));
                        assert(to_ints(orig).take(j + 1).drop_last() =~= to_ints(orig).take(
                            j as int,
                        ));
                        assert(odo_step(lens_i.take(j + 1), to_ints(orig).take(j + 1)) == odo_step(
                            lens_i.take(j as int),
                            to_ints(orig).take(j as int),
                        ).push(0));
                        assert(odo_step(lens_i.take(j as int), to_ints(orig).take(j as int)).push(0)
                            + Seq::new((orig.len() - 1 - j) as nat, |i: int| 0) =~= odo_step(
                            lens_i.take(j as int),
                            to_ints(orig).take(j as int),
                        ) + Seq::new((orig.len() - j) as nat, |i: int| 0));
                    }
                    j = j - 1;
                } else {
                    proof {
                        assert(odo_step(lens_i.take(1), to_ints(orig).take(1)) == to_ints(
                            orig,
                        ).take(1));
                        assert(to_ints(self.indexes@) =~= to_ints(orig).take(1) + Seq::new(
                            (orig.len() - 1) as nat,
                            |i: int| 0,
                        ));
                    }
                    break;
                }
            } else {
                self.indexes.set(j, current + 1);
                proof {
                    assert(self.indexes@ == before.update(j as int, (current + 1) as usize));
                    assert(odo_step(lens_i.take(j + 1), to_ints(orig).take(j + 1)) == to_ints(
                        orig,
                    ).take(j + 1).update(j as int, orig[j as int] + 1));
                    assert(to_ints(self.indexes@) =~= to_ints(orig).take(j + 1).update(
                        j as int,
                        orig[j as int] + 1,
                    ) + Seq::new((orig.len() - 1 - j) as nat, |i: int| 0));
                }
                break;
            }
        }
        proof {
            assert(in_bounds(self.cursors(), self.lens_int()));
        }
    }

    /// Resetting restores the initial enumeration exactly: two in-sync
    /// states over the same list lengths and at the same iteration count —
    /// such as the state after `reset` and the state of a fresh engine —
    /// agree on whether more combinations remain and on the cursors of the
    /// next one, so the same combinations follow from both.
    pub proof fn lemma_state_determines_cursors(a: IndexCounters, b: IndexCounters)
        requires
            a.wf(),
            b.wf(),
            a.synced(),
            b.synced(),
            a.lens_int() == b.lens_int(),
            a.curr_iter == b.curr_iter,
        ensures
            a.has_more() == b.has_more(),
            a.has_more() ==> a.cursors() == b.cursors(),
    {
    }

    /// Sets every cursor back to the first element of its list and the
    /// iteration position back to zero; the list lengths and the total are
    /// untouched.
    pub fn reset(&mut self)
        requires
            old(self).wf(),
        ensures
            final(self).wf(),
            final(self).cursors().len() == old(self).cursors().len(),
            forall|i: int| 0 <= i < final(self).cursors().len() ==> final(self).cursors()[i] == 0,
            final(self).lens == old(self).lens,
            final(self).curr_iter == 0,
            final(self).max_iters == old(self).max_iters,
    {
        self.curr_iter = 0;
        let mut i: usize = 0;
        while i < self.indexes.len()
            invariant
                self.lens == old(self).lens,
                self.curr_iter == 0,
                self.max_iters == old(self).max_iters,
                self.indexes@.len() == old(self).indexes@.len(),
                i <= self.indexes@.len(),
                forall|k: int| 0 <= k < i ==> self.indexes@[k] == 0,
                forall|k: int| i <= k < self.indexes@.len() ==> self.indexes@[k] == old(
                    self,
                ).indexes@[k],
                in_bounds(old(self).cursors(), old(self).lens_int()),
                all_positive(old(self).lens_int()),
            decreases self.indexes@.len() - i,
        {
            self.indexes.set(i, 0);
            i = i + 1;
        }
        proof {
            assert(in_bounds(self.cursors(), self.lens_int()));
        }
    }
}

} // verus!
