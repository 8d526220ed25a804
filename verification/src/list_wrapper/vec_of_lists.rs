//! The homogeneous shape: a variable-length collection of lists, all of the
//! same element type, each independently sized.

use vstd::prelude::*;

use crate::list_wrapper::ListWrapper;
use crate::mixed_radix::{in_bounds, to_ints};

verus! {

impl<T: Copy> ListWrapper<Vec<T>> for Vec<Vec<T>> {
    type Model = Seq<T>;

    open spec fn wf(&self) -> bool {
        &&& self@.len() >= 1
        &&& forall|i: int| 0 <= i < self@.len() ==> #[trigger] self@[i]@.len() >= 1
    }

    open spec fn spec_lens(&self) -> Seq<int> {
        Seq::new(self@.len(), |i: int| self@[i]@.len() as int)
    }

    open spec fn combo_at(&self, cursors: Seq<int>) -> Seq<T> {
        Seq::new(self@.len(), |i: int| self@[i]@[cursors[i]])
    }

    open spec fn item_model(item: Vec<T>) -> Seq<T> {
        item@
    }

    open spec fn valid_buffer(&self, item: Vec<T>) -> bool {
        item@.len() == self@.len()
    }

    proof fn lemma_wf_lens(&self) {
        assert forall|i: int| 0 <= i < self.spec_lens().len() implies #[trigger] self.spec_lens()[i]
            >= 1 by {
            assert(self@[i]@.len() >= 1);
        }
    }

    fn wrapper_len(&self) -> (n: usize) {
        self.len()
    }

    fn lens(&self) -> (r: Vec<usize>) {
        let mut r: Vec<usize> = Vec::new();
        let mut i: usize = 0;
        while i < self.len()
            invariant
                i <= self@.len(),
                r@.len() == i,
                forall|k: int| 0 <= k < i ==> r@[k] == self@[k]@.len(),
            decreases self@.len() - i,
        {
            r.push(self[i].len());
            i = i + 1;
        }
        proof {
            assert(to_ints(r@) =~= self.spec_lens());
        }
        r
    }

    fn next_item(&self, indexes: &Vec<usize>) -> (r: Vec<T>) {
        let mut out: Vec<T> = Vec::new();
        let mut i: usize = 0;
        while i < self.len()
            invariant
                i <= self@.len(),
                out@.len() == i,
                in_bounds(to_ints(indexes@), self.spec_lens()),
                forall|k: int| 0 <= k < i ==> out@[k] == self@[k]@[indexes@[k] as int],
            decreases self@.len() - i,
        {
            proof {
                assert(to_ints(indexes@)[i as int] < self.spec_lens()[i as int]);
            }
            let value = self[i][indexes[i]];
            out.push(value);
            i = i + 1;
        }
        proof {
            assert(out@ =~= self.combo_at(to_ints(indexes@)));
        }
        out
    }

    fn next_with_buffer(&self, indexes: &Vec<usize>, buffer: &mut Vec<T>) {
        let mut i: usize = 0;
        while i < self.len()
            invariant
                i <= self@.len(),
                buffer@.len() == self@.len(),
                in_bounds(to_ints(indexes@), self.spec_lens()),
                forall|k: int| 0 <= k < i ==> buffer@[k] == self@[k]@[indexes@[k] as int],
            decreases self@.len() - i,
        {
            proof {
                assert(to_ints(indexes@)[i as int] < self.spec_lens()[i as int]);
            }
            let value = self[i][indexes[i]];
            buffer.set(i, value);
            i = i + 1;
        }
        proof {
            assert(buffer@ =~= self.combo_at(to_ints(indexes@)));
        }
    }

    fn duplicate(&self) -> (r: Self) {
        let mut r: Vec<Vec<T>> = Vec::new();
        let mut i: usize = 0;
        while i < self.len()
            invariant
                i <= self@.len(),
                r@.len() == i,
                forall|k: int| 0 <= k < i ==> #[trigger] r@[k]@ == self@[k]@,
            decreases self@.len() - i,
        {
            let mut inner: Vec<T> = Vec::new();
            let mut j: usize = 0;
            while j < self[i].len()
                invariant
                    i < self@.len(),
                    j <= self@[i as int]@.len(),
                    inner@.len() == j,
                    forall|k: int| 0 <= k < j ==> inner@[k] == self@[i as int]@[k],
                decreases self@[i as int]@.len() - j,
            {
                let value = self[i][j];
                inner.push(value);
                j = j + 1;
            }
            proof {
                assert(inner@ =~= self@[i as int]@);
            }
            r.push(inner);
            i = i + 1;
        }
        proof {
            if self.wf() {
                assert forall|k: int| 0 <= k < r@.len() implies #[trigger] r@[k]@.len() >= 1 by {
                    assert(r@[k]@ == self@[k]@);
                    assert(self@[k]@.len() >= 1);
                }
                assert(r.wf());
            }
            if r.wf() {
                assert forall|k: int| 0 <= k < self@.len() implies #[trigger] self@[k]@.len()
                    >= 1 by {
                    assert(r@[k]@ == self@[k]@);
                    assert(r@[k]@.len() >= 1);
                }
                assert(self.wf());
            }
            assert forall|k: int| 0 <= k < r@.len() implies r.spec_lens()[k]
                == self.spec_lens()[k] by {
                assert(r@[k]@ == self@[k]@);
            }
            assert(r.spec_lens() =~= self.spec_lens());
            assert forall|c: Seq<int>| #[trigger] r.combo_at(c) == self.combo_at(c) by {
                assert(r.combo_at(c) =~= self.combo_at(c));
            }
        }
        r
    }
}

} // verus!
