//! Laws that relate several of the raw atomic operations, stated over the
//! models that the operations' own contracts use.
use vstd::prelude::*;
use crate::memory::{Span, read_span, write_span, compare_exchange};

verus! {

/// Reading back a span that was just written gives the bytes written, whatever
/// they are.
pub proof fn lemma_store_then_load(m: Seq<u8>, s: Span, p: Seq<u8>)
    requires
        s.fits(m.len()),
        p.len() == s.width.spec_size(),
    ensures
        read_span(write_span(m, s, p), s) == p,
{
    assert(read_span(write_span(m, s, p), s) =~= p);
}

/// Writing a span leaves every byte outside it as it was.
pub proof fn lemma_write_keeps_rest(m: Seq<u8>, s: Span, p: Seq<u8>, i: int)
    requires
        s.fits(m.len()),
        p.len() == s.width.spec_size(),
        0 <= i < m.len(),
        !(s.addr <= i < s.spec_end()),
    ensures
        write_span(m, s, p).len() == m.len(),
        write_span(m, s, p)[i] == m[i],
{
}

/// Two swaps in a row: the first hands out what the span held, the second
/// hands out what the first wrote, and the span ends with what the second wrote.
pub proof fn lemma_swap_twice(m: Seq<u8>, s: Span, v1: Seq<u8>, v2: Seq<u8>)
    requires
        s.fits(m.len()),
        v1.len() == s.width.spec_size(),
        v2.len() == s.width.spec_size(),
    ensures
        read_span(write_span(m, s, v1), s) == v1,
        read_span(write_span(write_span(m, s, v1), s, v2), s) == v2,
        write_span(write_span(m, s, v1), s, v2) == write_span(m, s, v2),
{
    lemma_store_then_load(m, s, v1);
    lemma_store_then_load(write_span(m, s, v1), s, v2);
    assert(write_span(write_span(m, s, v1), s, v2) =~= write_span(m, s, v2));
}

/// A compare-exchange that finds `expected` leaves `new` in the span; one that
/// does not leaves the memory as it was.
pub proof fn lemma_compare_exchange_outcome(m: Seq<u8>, s: Span, expected: Seq<u8>, new: Seq<u8>)
    requires
        s.fits(m.len()),
        expected.len() == s.width.spec_size(),
        new.len() == s.width.spec_size(),
    ensures
        read_span(m, s) == expected ==> read_span(compare_exchange(m, s, expected, new), s) == new,
        read_span(m, s) != expected ==> compare_exchange(m, s, expected, new) == m,
{
    lemma_store_then_load(m, s, new);
}

/// The memory after a run of weak compare-exchange attempts, one for each
/// entry of `committed`, each made with the same `expected` and `new`: an
/// attempt that keeps its reservation acts as the strong operation, one that
/// loses it changes nothing.
pub open spec fn weak_attempts(
    m: Seq<u8>,
    s: Span,
    expected: Seq<u8>,
    new: Seq<u8>,
    committed: Seq<bool>,
) -> Seq<u8>
    decreases committed.len(),
{
    if committed.len() == 0 {
        m
    } else {
        let next = if committed[0] {
            compare_exchange(m, s, expected, new)
        } else {
            m
        };
        weak_attempts(next, s, expected, new, committed.drop_first())
    }
}

/// Retrying a weak compare-exchange on a span that holds `expected`, with no
/// other writer, succeeds at the first attempt that keeps its reservation: the
/// attempts before it change nothing, and from there the span holds `new`.
pub proof fn lemma_weak_retry_succeeds(
    m: Seq<u8>,
    s: Span,
    expected: Seq<u8>,
    new: Seq<u8>,
    committed: Seq<bool>,
    k: int,
)
    requires
        s.fits(m.len()),
        expected.len() == s.width.spec_size(),
        new.len() == s.width.spec_size(),
        read_span(m, s) == expected,
        0 <= k < committed.len(),
        committed[k],
        forall|j: int| 0 <= j < k ==> !committed[j],
    ensures
        weak_attempts(m, s, expected, new, committed.take(k)) == m,
        read_span(weak_attempts(m, s, expected, new, committed.take(k + 1)), s) == new,
    decreases k,
{
    lemma_store_then_load(m, s, new);
    if k == 0 {
        let t = committed.take(1);
        assert(t.drop_first() =~= Seq::<bool>::empty());
        assert(t[0]);
        assert(weak_attempts(m, s, expected, new, t) == weak_attempts(
            compare_exchange(m, s, expected, new),
            s,
            expected,
            new,
            t.drop_first(),
        ));
    } else {
        assert(committed.take(k).drop_first() =~= committed.drop_first().take(k - 1));
        assert(committed.take(k + 1).drop_first() =~= committed.drop_first().take(k));
        lemma_weak_retry_succeeds(m, s, expected, new, committed.drop_first(), k - 1);
    }
}

/// The memory after swapping each of `vals` into the span in turn.
pub open spec fn swap_all(m: Seq<u8>, s: Span, vals: Seq<Seq<u8>>) -> Seq<u8>
    decreases vals.len(),
{
    if vals.len() == 0 {
        m
    } else {
        swap_all(write_span(m, s, vals[0]), s, vals.drop_first())
    }
}

/// What each of those swaps hands out, in turn.
pub open spec fn swap_outs(m: Seq<u8>, s: Span, vals: Seq<Seq<u8>>) -> Seq<Seq<u8>>
    decreases vals.len(),
{
    if vals.len() == 0 {
        Seq::empty()
    } else {
        seq![read_span(m, s)] + swap_outs(write_span(m, s, vals[0]), s, vals.drop_first())
    }
}

/// Swaps into one span, in any interleaving of any number of writers: what the
/// swaps hand out, followed by what the span holds at the end, is what it held
/// at the start followed by the values written. So no value is lost and none
/// is duplicated.
pub proof fn lemma_swaps_conserve_values(m: Seq<u8>, s: Span, vals: Seq<Seq<u8>>)
    requires
        s.fits(m.len()),
        forall|i: int| 0 <= i < vals.len() ==> (#[trigger] vals[i]).len() == s.width.spec_size(),
    ensures
        swap_all(m, s, vals).len() == m.len(),
        swap_outs(m, s, vals).push(read_span(swap_all(m, s, vals), s)) == seq![read_span(m, s)] + vals,
        swap_outs(m, s, vals).push(read_span(swap_all(m, s, vals), s)).to_multiset() == (seq![read_span(m, s)]
            + vals).to_multiset(),
    decreases vals.len(),
{
    if vals.len() == 0 {
        assert(swap_outs(m, s, vals).push(read_span(m, s)) =~= seq![read_span(m, s)] + vals);
    } else {
        let m1 = write_span(m, s, vals[0]);
        let rest = vals.drop_first();
        assert forall|i: int| 0 <= i < rest.len() implies (#[trigger] rest[i]).len()
            == s.width.spec_size() by {
            assert(rest[i] == vals[i + 1]);
        }
        lemma_swaps_conserve_values(m1, s, rest);
        lemma_store_then_load(m, s, vals[0]);
        assert(swap_outs(m, s, vals).push(read_span(swap_all(m, s, vals), s)) =~= seq![read_span(m, s)]
            + (swap_outs(m1, s, rest).push(read_span(swap_all(m1, s, rest), s))));
        assert(seq![read_span(m, s)] + vals =~= seq![read_span(m, s)] + (seq![read_span(m1, s)] + rest));
    }
}

} // verus!
