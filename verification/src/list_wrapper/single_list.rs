//! The repeated shape: one underlying list of length `n`, read as `n`
//! logical lists each equal to it, so that the combinations are the
//! `n`-tuples drawn with repetition from one alphabet.

use vstd::prelude::*;

use crate::list_wrapper::ListWrapper;
use crate::mixed_radix::{in_bounds, to_ints};

verus! {

/// Indicates that the permutator will repeat the input and read it as a
/// square-sized matrix: a list of length `n` is treated as `n` lists each
/// equal to it.
pub struct Repeated<T>(pub Vec<T>);

impl<T: Copy> ListWrapper<Vec<T>> for Repeated<T> {
    type Model = Seq<T>;

    open spec fn wf(&self) -> bool {
        self.0@.len() >= 1
    }

    open spec fn spec_lens(&self) -> Seq<int> {
        Seq::new(self.0@.len(), |i: int| self.0@.len() as int)
    }

    open spec fn combo_at(&self, cursors: Seq<int>) -> Seq<T> {
        Seq::new(self.0@.len(), |i: int| self.0@[cursors[i]])
    }

    open spec fn item_model(item: Vec<T>) -> Seq<T> {
        item@
    }

    open spec fn valid_buffer(&self, item: Vec<T>) -> bool {
        item@.len() == self.0@.len()
    }

    proof fn lemma_wf_lens(&self) {
    }

    fn wrapper_len(&self) -> (n: usize) {
        self.0.len()
    }

    fn lens(&self) -> (r: Vec<usize>) {
        let n = self.0.len();
        let mut r: Vec<usize> = Vec::new();
        let mut i: usize = 0;
        while i < n
            invariant
                i <= n,
                n == self.0@.len(),
                r@.len() == i,
                forall|k: int| 0 <= k < i ==> r@[k] == n,
            decreases n - i,
        {
            r.push(n);
            i = i + 1;
        }
        proof {
            assert(to_ints(r@) =~= self.spec_lens());
        }
        r
    }

    fn next_item(&self, indexes: &Vec<usize>) -> (r: Vec<T>) {
        let mut out: Vec<T> = Vec::new();
        let mut i: usize = 0;
        while i < indexes.len()
            invariant
                i <= indexes@.len(),
                indexes@.len() == self.0@.len(),
                out@.len() == i,
                in_bounds(to_ints(indexes@), self.spec_lens()),
                forall|k: int| 0 <= k < i ==> out@[k] == self.0@[indexes@[k] as int],
            decreases indexes@.len() - i,
        {
            proof {
                assert(to_ints(indexes@)[i as int] < self.spec_lens()[i as int]);
            }
            let value = self.0[indexes[i]];
            out.push(value);
            i = i + 1;
        }
        proof {
            assert(out@ =~= self.combo_at(to_ints(indexes@)));
        }
        out
    }

    fn next_with_buffer(&self, indexes: &Vec<usize>, buffer: &mut Vec<T>) {
        let mut i: usize = 0;
        while i < indexes.len()
            invariant
                i <= indexes@.len(),
                indexes@.len() == self.0@.len(),
                buffer@.len() == self.0@.len(),
                in_bounds(to_ints(indexes@), self.spec_lens()),
                forall|k: int| 0 <= k < i ==> buffer@[k] == self.0@[indexes@[k] as int],
            decreases indexes@.len() - i,
        {
            proof {
                assert(to_ints(indexes@)[i as int] < self.spec_lens()[i as int]);
            }
            let value = self.0[indexes[i]];
            buffer.set(i, value);
            i = i + 1;
        }
        proof {
            assert(buffer@ =~= self.combo_at(to_ints(indexes@)));
        }
    }

    fn duplicate(&self) -> (r: Self) {
        let mut inner: Vec<T> = Vec::new();
        let mut i: usize = 0;
        while i < self.0.len()
            invariant
                i <= self.0@.len(),
                inner@.len() == i,
                forall|k: int| 0 <= k < i ==> inner@[k] == self.0@[k],
            decreases self.0@.len() - i,
        {
            let value = self.0[i];
            inner.push(value);
            i = i + 1;
        }
        proof {
            assert(inner@ =~= self.0@);
        }
        let r = Repeated(inner);
        proof {
            assert(r.spec_lens() =~= self.spec_lens());
            assert forall|c: Seq<int>| #[trigger] r.combo_at(c) == self.combo_at(c) by {
                assert(r.combo_at(c) =~= self.combo_at(c));
            }
        }
        r
    }
}

/// The repeated-shape equivalence: a repeated-shape engine over one list
/// enumerates exactly what a homogeneous engine over that list, repeated
/// once per element, does. The two wrappers have the same lengths and
/// address the same combination at every cursor tuple, so every contract of
/// the engine yields the same sequence for both.
pub proof fn lemma_repeated_matches_list_of_lists<T: Copy>(r: &Repeated<T>, lists: &Vec<Vec<T>>)
    requires
        lists@.len() == r.0@.len(),
        forall|i: int| 0 <= i < lists@.len() ==> #[trigger] lists@[i]@ == r.0@,
    ensures
        r.spec_lens() == lists.spec_lens(),
        forall|c: Seq<int>| #[trigger] r.combo_at(c) == lists.combo_at(c),
        r.wf() == lists.wf(),
{
    assert(r.spec_lens() =~= lists.spec_lens());
    assert forall|c: Seq<int>| #[trigger] r.combo_at(c) == lists.combo_at(c) by {
        assert(r.combo_at(c) =~= lists.combo_at(c));
    }
    if r.wf() {
        assert forall|i: int| 0 <= i < lists@.len() implies #[trigger] lists@[i]@.len() >= 1 by {
            assert(lists@[i]@ == r.0@);
        }
        assert(lists.wf());
    }
}

} // verus!
