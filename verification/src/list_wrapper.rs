//! The shape adapter: one trait over the three supported input shapes
//! (repeated single list, homogeneous collection of lists, fixed-arity
//! heterogeneous tuple of lists), translating cursor positions into the
//! combination of values they address.

use vstd::prelude::*;

use crate::mixed_radix::{all_positive, in_bounds, to_ints};

pub mod single_list;
pub mod tuple_of_lists;
pub mod vec_of_lists;

pub use single_list::Repeated;

verus! {

/// Abstracts the outermost wrapper behaviour over the input lists: how many
/// logical lists there are, how long each is, and which combination a tuple
/// of cursor positions addresses. `ItemWrap` is the type of one produced
/// combination.
pub trait ListWrapper<ItemWrap>: Sized {
    /// The mathematical value of one combination.
    type Model;

    /// Well-formed input: at least one list, each with at least one element.
    spec fn wf(&self) -> bool;

    /// The per-list lengths, as mathematical integers, one per logical list.
    spec fn spec_lens(&self) -> Seq<int>;

    /// The combination addressed by the given cursor positions.
    spec fn combo_at(&self, cursors: Seq<int>) -> Self::Model;

    /// The mathematical value of a produced combination.
    spec fn item_model(item: ItemWrap) -> Self::Model;

    /// The buffer has exactly the shape one combination needs.
    spec fn valid_buffer(&self, item: ItemWrap) -> bool;

    /// Well-formed input means at least one logical list, each nonempty:
    /// every implementation of this trait proves it of its own shape.
    proof fn lemma_wf_lens(&self)
        requires
            self.wf(),
        ensures
            self.spec_lens().len() >= 1,
            all_positive(self.spec_lens()),
    ;

    /// The total number of logical lists that are being permutated with.
    fn wrapper_len(&self) -> (n: usize)
        requires
            self.wf(),
        ensures
            n == self.spec_lens().len(),
            n >= 1,
    ;

    /// The length of each list that is being permutated with.
    fn lens(&self) -> (r: Vec<usize>)
        requires
            self.wf(),
        ensures
            to_ints(r@) == self.spec_lens(),
    ;

    /// Gets the combination of values addressed by the given `indexes`,
    /// freshly allocated.
    fn next_item(&self, indexes: &Vec<usize>) -> (r: ItemWrap)
        requires
            self.wf(),
            in_bounds(to_ints(indexes@), self.spec_lens()),
        ensures
            Self::item_model(r) == self.combo_at(to_ints(indexes@)),
            self.valid_buffer(r),
    ;

    /// Same as `next_item`, but writes the values into `buffer` instead of
    /// allocating.
    fn next_with_buffer(&self, indexes: &Vec<usize>, buffer: &mut ItemWrap)
        requires
            self.wf(),
            in_bounds(to_ints(indexes@), self.spec_lens()),
            self.valid_buffer(*old(buffer)),
        ensures
            Self::item_model(*final(buffer)) == self.combo_at(to_ints(indexes@)),
            self.valid_buffer(*final(buffer)),
    ;

    /// An owned copy of the wrapped input, equivalent list for list.
    fn duplicate(&self) -> (r: Self)
        ensures
            r.wf() == self.wf(),
            r.spec_lens() == self.spec_lens(),
            forall|c: Seq<int>| #[trigger] r.combo_at(c) == self.combo_at(c),
            forall|item: ItemWrap| #[trigger] r.valid_buffer(item) == self.valid_buffer(item),
    ;
}

/// An owned copy of one list, element for element.
pub fn copy_list<T: Copy>(v: &Vec<T>) -> (r: Vec<T>)
    ensures
        r@ == v@,
{
    let mut r: Vec<T> = Vec::new();
    let mut i: usize = 0;
    while i < v.len()
        invariant
            i <= v@.len(),
            r@.len() == i,
            forall|k: int| 0 <= k < i ==> r@[k] == v@[k],
        decreases v@.len() - i,
    {
        let value = v[i];
        r.push(value);
        i = i + 1;
    }
    proof {
        assert(r@ =~= v@);
    }
    r
}

/// Two wrappers describe the same input: the same lengths and the same
/// combination at every cursor position, interchangeable in every contract
/// of this library.
pub open spec fn same_lists<ListWrap: ListWrapper<ItemWrap>, ItemWrap>(
    a: ListWrap,
    b: ListWrap,
) -> bool {
    &&& b.wf() == a.wf()
    &&& b.spec_lens() == a.spec_lens()
    &&& forall|c: Seq<int>| #[trigger] b.combo_at(c) == a.combo_at(c)
    &&& forall|item: ItemWrap| #[trigger] b.valid_buffer(item) == a.valid_buffer(item)
}

} // verus!
