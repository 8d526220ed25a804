//! The computing core behind the command-line front end: building the
//! engine over either shape the front end uses, and rendering one
//! combination as the line the program prints. Reading the input and
//! writing to the console stay outside the library.

use vstd::prelude::*;

use crate::list_wrapper::{ListWrapper, Repeated};
use crate::mixed_radix::{in_bounds, product};
use crate::{Permutator, PermutatorWrapper};

verus! {

/// The list lengths the front end's engine enumerates over: a single input
/// list is read as the repeated shape (one logical list per element),
/// several input lists as the homogeneous shape.
pub open spec fn input_lens(lv: Seq<Vec<String>>) -> Seq<int> {
    if lv.len() == 1 {
        Seq::new(lv[0]@.len(), |i: int| lv[0]@.len() as int)
    } else {
        Seq::new(lv.len(), |i: int| lv[i]@.len() as int)
    }
}

/// The engine the command-line front end drives, over whichever shape the
/// input selects.
pub enum PreparedPermutator<'a> {
    /// One input list, squared against itself.
    RepeatedShape(Permutator<Repeated<&'a str>, Vec<&'a str>>),
    /// Several input lists, one element drawn from each.
    ListShape(Permutator<Vec<Vec<&'a str>>, Vec<&'a str>>),
}

/// Builds the engine over the parsed input lists: a single list is squared
/// against itself (the repeated shape), several lists are combined one
/// element from each (the homogeneous shape). Every combination the engine
/// addresses consists of the input's own strings.
pub fn prepare<'a>(list_vector: &'a Vec<Vec<String>>) -> (p: PreparedPermutator<'a>)
    requires
        list_vector@.len() >= 1,
        forall|i: int| 0 <= i < list_vector@.len() ==> #[trigger] list_vector@[i]@.len() >= 1,
        product(input_lens(list_vector@)) <= usize::MAX,
    ensures
        p is RepeatedShape <==> list_vector@.len() == 1,
        match p {
            PreparedPermutator::RepeatedShape(q) => {
                &&& q.inv()
                &&& q.indexes.curr_iter == 0
                &&& q.indexes.synced()
                &&& q.indexes.lens_int() == input_lens(list_vector@)
                &&& forall|c: Seq<int>, i: int|
                    in_bounds(c, input_lens(list_vector@)) && 0 <= i < c.len()
                        ==> (#[trigger] q.lists.combo_at(c)[i])@ == list_vector@[0]@[c[i]]@
            },
            PreparedPermutator::ListShape(q) => {
                &&& q.inv()
                &&& q.indexes.curr_iter == 0
                &&& q.indexes.synced()
                &&& q.indexes.lens_int() == input_lens(list_vector@)
                &&& forall|c: Seq<int>, i: int|
                    in_bounds(c, input_lens(list_vector@)) && 0 <= i < c.len()
                        ==> (#[trigger] q.lists.combo_at(c)[i])@ == list_vector@[i]@[c[i]]@
            },
        },
{
    let ghost lens_i = input_lens(list_vector@);
    if list_vector.len() == 1 {
        let first = &list_vector[0];
        let mut borrowed: Vec<&'a str> = Vec::new();
        let mut j: usize = 0;
        while j < first.len()
            invariant
                j <= first@.len(),
                borrowed@.len() == j,
                forall|k: int| 0 <= k < j ==> #[trigger] borrowed@[k]@ == first@[k]@,
            decreases first@.len() - j,
        {
            borrowed.push(first[j].as_str());
            j = j + 1;
        }
        let wrapper = Repeated(borrowed);
        proof {
            assert(wrapper.spec_lens() =~= lens_i);
        }
        let q = Permutator::<Repeated<&'a str>, Vec<&'a str>>::new(&wrapper);
        proof {
            assert forall|c: Seq<int>, i: int|
                in_bounds(c, lens_i) && 0 <= i < c.len() implies (
            #[trigger] q.lists.combo_at(c)[i])@ == list_vector@[0]@[c[i]]@ by {
                assert(q.lists.combo_at(c) == wrapper.combo_at(c));
                assert(wrapper.combo_at(c)[i] == wrapper.0@[c[i]]);
                assert(0 <= c[i] < wrapper.0@.len());
                assert(wrapper.0@[c[i]]@ == first@[c[i]]@);
            }
        }
        PreparedPermutator::RepeatedShape(q)
    } else {
        let mut borrowed: Vec<Vec<&'a str>> = Vec::new();
        let mut i: usize = 0;
        while i < list_vector.len()
            invariant
                i <= list_vector@.len(),
                borrowed@.len() == i,
                forall|k: int|
                    0 <= k < i ==> #[trigger] borrowed@[k]@.len() == list_vector@[k]@.len(),
                forall|k: int, l: int|
                    0 <= k < i && 0 <= l < borrowed@[k]@.len() ==> (#[trigger] borrowed@[k]@[l])@
                        == list_vector@[k]@[l]@,
            decreases list_vector@.len() - i,
        {
            let row = &list_vector[i];
            let mut inner: Vec<&'a str> = Vec::new();
            let mut j: usize = 0;
            while j < row.len()
                invariant
                    j <= row@.len(),
                    inner@.len() == j,
                    forall|k: int| 0 <= k < j ==> #[trigger] inner@[k]@ == row@[k]@,
                decreases row@.len() - j,
            {
                inner.push(row[j].as_str());
                j = j + 1;
            }
            borrowed.push(inner);
            i = i + 1;
        }
        let ghost lv = list_vector@;
        proof {
            assert forall|k: int| 0 <= k < borrowed@.len() implies #[trigger] borrowed@[k]@.len()
                >= 1 by {
                assert(lv[k]@.len() >= 1);
            }
            assert(borrowed.wf());
            assert(borrowed.spec_lens() =~= lens_i);
        }
        let q = Permutator::<Vec<Vec<&'a str>>, Vec<&'a str>>::new(&borrowed);
        proof {
            assert forall|c: Seq<int>, i2: int|
                in_bounds(c, lens_i) && 0 <= i2 < c.len() implies (
            #[trigger] q.lists.combo_at(c)[i2])@ == lv[i2]@[c[i2]]@ by {
                assert(q.lists.combo_at(c) == borrowed.combo_at(c));
                assert(borrowed.combo_at(c)[i2] == borrowed@[i2]@[c[i2]]);
                assert(0 <= c[i2] < borrowed@[i2]@.len());
                assert(borrowed@[i2]@[c[i2]]@ == lv[i2]@[c[i2]]@);
            }
        }
        PreparedPermutator::ListShape(q)
    }
}

/// The characters of everything printed for a sequence of combination
/// elements: the elements in order, separated by `sep`.
pub open spec fn joined(elems: Seq<Seq<char>>, sep: Seq<char>) -> Seq<char>
    decreases elems.len(),
{
    if elems.len() == 0 {
        Seq::empty()
    } else if elems.len() == 1 {
        elems[0]
    } else {
        joined(elems.drop_last(), sep) + sep + elems.last()
    }
}

/// One printed line: the combination's elements in order, separated by
/// single spaces — by nothing when delimiters are off — and closed by a
/// newline.
pub open spec fn line_of(elems: Seq<Seq<char>>, no_delimiters: bool) -> Seq<char> {
    joined(
        elems,
        if no_delimiters {
            Seq::empty()
        } else {
            seq![' ']
        },
    ) + seq!['\n']
}

/// The views of the strings of one combination.
pub open spec fn str_views(elems: Seq<&str>) -> Seq<Seq<char>> {
    elems.map_values(|s: &str| s@)
}

/// Renders one combination as the line the program prints for it.
pub fn format_combination(combo: &Vec<&str>, no_delimiters: bool) -> (r: String)
    ensures
        r@ == line_of(str_views(combo@), no_delimiters),
{
    let ghost views = str_views(combo@);
    let ghost sep: Seq<char> = if no_delimiters {
        Seq::empty()
    } else {
        seq![' ']
    };
    let mut out = String::new();
    let mut i: usize = 0;
    proof {
        assert(views.take(0) =~= Seq::<Seq<char>>::empty());
    }
    while i < combo.len()
        invariant
            i <= combo@.len(),
            views == str_views(combo@),
            sep == if no_delimiters {
                Seq::<char>::empty()
            } else {
                seq![' ']
            },
            out@ == joined(views.take(i as int), sep),
        decreases combo@.len() - i,
    {
        if i != 0 && !no_delimiters {
            out.append(" ");
            proof {
                reveal_strlit(" ");
                assert(" "@ =~= seq![' ']);
            }
        }
        out.append(combo[i]);
        proof {
            assert(views.take(i + 1).drop_last() =~= views.take(i as int));
            assert(views.take(i + 1).last() == combo@[i as int]@);
            if i == 0 {
                assert(out@ =~= joined(views.take(1), sep));
            }
        }
        i = i + 1;
    }
    out.append("\n");
    proof {
        reveal_strlit("\n");
        assert("\n"@ =~= seq!['\n']);
        assert(views.take(combo@.len() as int) =~= views);
    }
    out
}

} // verus!
