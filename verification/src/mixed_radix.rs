//! The mathematical model of the odometer: mixed-radix counting over the
//! per-list cursor positions, with the last position as the least-significant
//! digit.

use vstd::prelude::*;

verus! {

/// The view of a cursor or length vector as a sequence of mathematical
/// integers.
pub open spec fn to_ints(s: Seq<usize>) -> Seq<int> {
    Seq::new(s.len(), |i: int| s[i] as int)
}

/// Every list has at least one element.
pub open spec fn all_positive(lens: Seq<int>) -> bool {
    forall|i: int| 0 <= i < lens.len() ==> #[trigger] lens[i] >= 1
}

/// `cursors` selects one valid element position in each list.
pub open spec fn in_bounds(cursors: Seq<int>, lens: Seq<int>) -> bool {
    &&& cursors.len() == lens.len()
    &&& forall|i: int| 0 <= i < cursors.len() ==> 0 <= #[trigger] cursors[i] < lens[i]
}

/// The number of combinations: the product of all list lengths.
pub open spec fn product(lens: Seq<int>) -> int
    decreases lens.len(),
{
    if lens.len() == 0 {
        1
    } else {
        product(lens.drop_last()) * lens.last()
    }
}

/// The cursor positions that address the `n`-th combination: the digits of
/// `n` written in the mixed-radix system whose radix at position `i` is
/// `lens[i]`, with position `lens.len() - 1` least significant.
pub open spec fn digits(lens: Seq<int>, n: int) -> Seq<int>
    decreases lens.len(),
{
    if lens.len() == 0 {
        Seq::empty()
    } else {
        digits(lens.drop_last(), n / lens.last()).push(n % lens.last())
    }
}

/// One odometer advancement: increment the last cursor; on overflow reset it
/// to zero and carry leftward. A carry out of position zero is dropped, so
/// position zero never wraps around.
pub open spec fn odo_step(lens: Seq<int>, cursors: Seq<int>) -> Seq<int>
    decreases lens.len(),
{
    if lens.len() == 0 {
        cursors
    } else if cursors.last() + 1 < lens.last() {
        cursors.update(cursors.len() - 1, cursors.last() + 1)
    } else if lens.len() == 1 {
        cursors
    } else {
        odo_step(lens.drop_last(), cursors.drop_last()).push(0)
    }
}

/// `k` odometer advancements in a row.
pub open spec fn odo_step_k(lens: Seq<int>, cursors: Seq<int>, k: nat) -> Seq<int>
    decreases k,
{
    if k == 0 {
        cursors
    } else {
        odo_step(lens, odo_step_k(lens, cursors, (k - 1) as nat))
    }
}

/// The full enumeration: the cursor tuples of every combination, in the
/// order the engine produces them.
pub open spec fn enumeration(lens: Seq<int>) -> Seq<Seq<int>> {
    Seq::new(product(lens) as nat, |n: int| digits(lens, n))
}

/// The count property: over nonempty lists the enumeration holds exactly
/// `product(lens)` combinations — at least one — and each of its entries is
/// an in-bounds cursor tuple. A fresh engine starts at iteration count zero
/// and `next` produces one combination per count, stopping exactly at the
/// total, so exactly this many combinations come out before exhaustion.
pub proof fn lemma_count_property(lens: Seq<int>)
    requires
        all_positive(lens),
    ensures
        enumeration(lens).len() == product(lens),
        product(lens) >= 1,
        forall|n: int|
            0 <= n < product(lens) ==> in_bounds(#[trigger] enumeration(lens)[n], lens),
{
    lemma_product_positive(lens);
    assert forall|n: int| 0 <= n < product(lens) implies in_bounds(
        #[trigger] enumeration(lens)[n],
        lens,
    ) by {
        lemma_digits_in_bounds(lens, n);
    }
}

/// The product of nonempty lists is at least one.
pub proof fn lemma_product_positive(lens: Seq<int>)
    requires
        all_positive(lens),
    ensures
        product(lens) >= 1,
    decreases lens.len(),
{
    if lens.len() > 0 {
        assert(all_positive(lens.drop_last()));
        lemma_product_positive(lens.drop_last());
        assert(product(lens.drop_last()) * lens.last() >= 1) by (nonlinear_arith)
            requires
                product(lens.drop_last()) >= 1,
                lens.last() >= 1,
        {}
    }
}

/// Every prefix product is at least one and no larger than the full product.
pub proof fn lemma_product_take_le(lens: Seq<int>, i: int)
    requires
        all_positive(lens),
        0 <= i <= lens.len(),
    ensures
        1 <= product(lens.take(i)) <= product(lens),
    decreases lens.len() - i,
{
    assert(all_positive(lens.take(i)));
    lemma_product_positive(lens.take(i));
    if i < lens.len() {
        lemma_product_take_le(lens, i + 1);
        assert(lens.take(i + 1).drop_last() =~= lens.take(i));
        assert(lens.take(i + 1).last() == lens[i]);
        assert(product(lens.take(i)) <= product(lens.take(i)) * lens[i]) by (nonlinear_arith)
            requires
                product(lens.take(i)) >= 1,
                lens[i] >= 1,
        {}
    } else {
        assert(lens.take(i) =~= lens);
    }
}

/// The digits of any `n` in `[0, product(lens))` are in-bounds cursors.
pub proof fn lemma_digits_in_bounds(lens: Seq<int>, n: int)
    requires
        all_positive(lens),
        0 <= n < product(lens),
    ensures
        in_bounds(digits(lens, n), lens),
    decreases lens.len(),
{
    if lens.len() > 0 {
        let last = lens.last();
        let head = lens.drop_last();
        assert(all_positive(head));
        lemma_product_positive(head);
        assert(0 <= n % last < last) by (nonlinear_arith)
            requires
                last >= 1,
                n >= 0,
        {}
        assert(0 <= n / last < product(head)) by (nonlinear_arith)
            requires
                last >= 1,
                0 <= n,
                n < product(head) * last,
        {}
        lemma_digits_in_bounds(head, n / last);
        assert(digits(lens, n) == digits(head, n / last).push(n % last));
        assert forall|i: int| 0 <= i < digits(lens, n).len() implies 0 <= #[trigger] digits(
            lens,
            n,
        )[i] < lens[i] by {
            if i < digits(head, n / last).len() {
                assert(digits(lens, n)[i] == digits(head, n / last)[i]);
                assert(lens[i] == head[i]);
            }
        }
    }
}

/// The digits of zero are all zero.
pub proof fn lemma_digits_zero(lens: Seq<int>)
    requires
        all_positive(lens),
    ensures
        digits(lens, 0).len() == lens.len(),
        forall|i: int| 0 <= i < lens.len() ==> #[trigger] digits(lens, 0)[i] == 0,
    decreases lens.len(),
{
    if lens.len() > 0 {
        let last = lens.last();
        let head = lens.drop_last();
        assert(all_positive(head));
        assert(0int / last == 0 && 0int % last == 0) by (nonlinear_arith)
            requires
                last >= 1,
        {}
        lemma_digits_zero(head);
    }
}

/// One odometer advancement from the digits of `n` yields the digits of
/// `n + 1`, as long as `n + 1` is still a valid combination index.
pub proof fn lemma_step_digits(lens: Seq<int>, n: int)
    requires
        all_positive(lens),
        0 <= n,
        n + 1 < product(lens),
    ensures
        odo_step(lens, digits(lens, n)) == digits(lens, n + 1),
    decreases lens.len(),
{
    if lens.len() == 0 {
        assert(product(lens) == 1);
    } else {
        let last = lens.last();
        let head = lens.drop_last();
        let d = digits(lens, n);
        assert(all_positive(head));
        lemma_product_positive(head);
        assert(0 <= n % last < last) by (nonlinear_arith)
            requires
                last >= 1,
                n >= 0,
        {}
        assert(d == digits(head, n / last).push(n % last));
        assert(d.last() == n % last);
        assert(d.drop_last() == digits(head, n / last));
        if n % last + 1 < last {
            assert((n + 1) / last == n / last && (n + 1) % last == n % last + 1)
                by (nonlinear_arith)
                requires
                    last >= 1,
                    n >= 0,
                    n % last + 1 < last,
            {}
            assert(odo_step(lens, d) == d.update(d.len() - 1, d.last() + 1));
            assert(odo_step(lens, d) =~= digits(lens, n + 1));
        } else {
            // The last digit is at its maximum: it wraps to zero and the
            // carry moves left.
            assert(n % last + 1 == last);
            assert((n + 1) / last == n / last + 1 && (n + 1) % last == 0) by (nonlinear_arith)
                requires
                    last >= 1,
                    n >= 0,
                    n % last + 1 == last,
            {}
            vstd::arithmetic::div_mod::lemma_fundamental_div_mod(n, last);
            assert(n == last * (n / last) + n % last);
            assert(n / last + 1 < product(head)) by (nonlinear_arith)
                requires
                    last >= 1,
                    n >= 0,
                    n % last == last - 1,
                    n + 1 < product(head) * last,
                    n == last * (n / last) + n % last,
            {
            }
            if lens.len() == 1 {
                // A carry out of position zero cannot happen while another
                // combination remains.
                assert(product(head) == 1);
                assert(false);
            } else {
                lemma_step_digits(head, n / last);
                assert(odo_step(lens, d) == odo_step(head, d.drop_last()).push(0));
                assert(digits(lens, n + 1) == digits(head, (n + 1) / last).push(0));
            }
        }
    }
}

/// An odometer advancement keeps the cursors in bounds, whether or not it
/// wraps at position zero.
pub proof fn lemma_step_in_bounds(lens: Seq<int>, cursors: Seq<int>)
    requires
        all_positive(lens),
        in_bounds(cursors, lens),
    ensures
        in_bounds(odo_step(lens, cursors), lens),
    decreases lens.len(),
{
    if lens.len() == 0 {
    } else if cursors.last() + 1 < lens.last() {
        let stepped = cursors.update(cursors.len() - 1, cursors.last() + 1);
        assert forall|i: int| 0 <= i < stepped.len() implies 0 <= #[trigger] stepped[i]
            < lens[i] by {
            assert(0 <= cursors[i] < lens[i]);
        }
    } else if lens.len() == 1 {
    } else {
        let head = lens.drop_last();
        assert(all_positive(head));
        assert(in_bounds(cursors.drop_last(), head)) by {
            assert forall|i: int| 0 <= i < cursors.len() - 1 implies 0 <= #[trigger] cursors.drop_last()[i]
                < head[i] by {
                assert(0 <= cursors[i] < lens[i]);
            }
        }
        lemma_step_in_bounds(head, cursors.drop_last());
        let stepped = odo_step(head, cursors.drop_last()).push(0);
        assert forall|i: int| 0 <= i < stepped.len() implies 0 <= #[trigger] stepped[i]
            < lens[i] by {
            if i < stepped.len() - 1 {
                assert(0 <= odo_step(head, cursors.drop_last())[i] < head[i]);
            }
        }
    }
}

/// The skip rule: `k` odometer advancements from the digits of `m` yield
/// the digits of `m + k`, as long as `m + k` is still a valid combination
/// index — skipping combinations lands the engine exactly where stepping
/// one at a time would.
pub proof fn lemma_step_k_digits(lens: Seq<int>, m: int, k: nat)
    requires
        all_positive(lens),
        0 <= m,
        m + k < product(lens),
    ensures
        odo_step_k(lens, digits(lens, m), k) == digits(lens, m + k),
    decreases k,
{
    if k > 0 {
        lemma_step_k_digits(lens, m, (k - 1) as nat);
        lemma_step_digits(lens, m + k - 1);
    }
}

} // verus!
