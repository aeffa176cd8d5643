//! What holds of every constant pool that the loader reads, and of every
//! resolution of text.

use crate::class::format::{be_u16, class_of, const_at, pool_at, pool_from};
use crate::class::{entry_at, text_at, text_within, ConstView, PoolError};
use vstd::prelude::*;
use vstd::set_lib::{lemma_int_range, lemma_len_subset, set_int_range};

verus! {

/// Every `Long` and every `Double` of the table is followed by an
/// `Unusable` entry.
pub open spec fn aligned(table: Seq<ConstView>) -> bool {
    forall|j: int|
        0 <= j < table.len() && (#[trigger] table[j]).is_wide() ==> j + 1 < table.len()
            && table[j + 1] == ConstView::Unusable
}

/// The table has one entry less than the declared count `size`; or it has
/// as many, where the count is zero or the last index fell to the first
/// half of a `Long` or a `Double`.
pub open spec fn fills(table: Seq<ConstView>, size: int) -> bool {
    ||| table.len() == size - 1
    ||| (table.len() == size && (size == 0 || (size >= 2 && table[size - 2].is_wide())))
}

proof fn lemma_pool_from_aligned(b: Seq<u8>, at: int, i: int, size: int, table: Seq<ConstView>)
    requires
        aligned(table),
        table.len() == i - 1,
        1 <= i <= size + 1,
        i == size + 1 ==> size == 0 || (size >= 2 && table[size - 2].is_wide()),
        pool_from(b, at, i, size, table) is Ok,
    ensures
        aligned(pool_from(b, at, i, size, table)->Ok_0.0),
        fills(pool_from(b, at, i, size, table)->Ok_0.0, size),
    decreases
        (if i < size {
            size - i
        } else {
            0
        }),
{
    if i < size {
        let (c, next) = const_at(b, at)->Ok_0;
        if c.is_wide() {
            lemma_pool_from_aligned(b, next, i + 2, size, table.push(c).push(ConstView::Unusable));
        } else {
            lemma_pool_from_aligned(b, next, i + 1, size, table.push(c));
        }
    }
}

/// Pool alignment. In a constant pool that was read from a file, every
/// `Long` and every `Double` is followed by an `Unusable` entry, so that
/// the entry with index `i` stands at position `i - 1`. The table has one
/// entry less than the declared count; only where the count is zero, or
/// where the last index fell to the first half of a `Long` or a `Double`,
/// it has as many entries as the count.
pub proof fn lemma_pool_alignment(b: Seq<u8>, at: int)
    requires
        pool_at(b, at) is Ok,
    ensures
        aligned(pool_at(b, at)->Ok_0.0.table),
        fills(pool_at(b, at)->Ok_0.0.table, pool_at(b, at)->Ok_0.0.size as int),
{
    lemma_pool_from_aligned(b, at + 2, 1, be_u16(b, at) as int, Seq::empty());
}

/// Pool alignment, of the pool of a class that was loaded.
pub proof fn lemma_class_pool_alignment(b: Seq<u8>)
    requires
        class_of(b) is Ok,
    ensures
        aligned(class_of(b)->Ok_0.const_pool.table),
        fills(class_of(b)->Ok_0.const_pool.table, class_of(b)->Ok_0.const_pool.size as int),
{
    lemma_pool_alignment(b, 8);
}

/// The entry at `idx` is a class reference.
pub open spec fn is_link(table: Seq<ConstView>, idx: int) -> bool {
    entry_at(table, idx) matches Some(ConstView::ClassIndex(_))
}

/// The index that is reached from `idx` by following `n` class references
/// one after the other; 0, which is no index, where the way ends before.
pub open spec fn reached(table: Seq<ConstView>, idx: int, n: nat) -> int
    decreases n,
{
    if n == 0 {
        idx
    } else {
        match entry_at(table, idx) {
            Some(ConstView::ClassIndex(i)) => reached(table, i as int, (n - 1) as nat),
            _ => 0,
        }
    }
}

proof fn lemma_reached_sum(table: Seq<ConstView>, idx: int, a: nat, b: nat)
    ensures
        reached(table, idx, a + b) == reached(table, reached(table, idx, a), b),
    decreases a,
{
    if a > 0 {
        if let Some(ConstView::ClassIndex(i)) = entry_at(table, idx) {
            lemma_reached_sum(table, i as int, (a - 1) as nat, b);
        }
    }
}

/// A result other than `Circular` stays the same with more hops.
proof fn lemma_more_hops(table: Seq<ConstView>, idx: int, hops: nat)
    requires
        text_within(table, idx, hops) != Err::<Seq<char>, PoolError>(PoolError::Circular),
    ensures
        text_within(table, idx, hops + 1) == text_within(table, idx, hops),
    decreases hops,
{
    if let Some(ConstView::ClassIndex(i)) = entry_at(table, idx) {
        if hops > 0 {
            lemma_more_hops(table, i as int, (hops - 1) as nat);
        }
    }
}

/// The result is `Circular` exactly if every index on the way is a class reference.
proof fn lemma_circular_iff_links(table: Seq<ConstView>, idx: int, hops: nat)
    ensures
        text_within(table, idx, hops) == Err::<Seq<char>, PoolError>(PoolError::Circular) <==> (
        forall|n: nat| n <= hops ==> is_link(table, #[trigger] reached(table, idx, n))),
    decreases hops,
{
    let links = forall|n: nat| n <= hops ==> is_link(table, #[trigger] reached(table, idx, n));
    match entry_at(table, idx) {
        Some(ConstView::ClassIndex(i)) => {
            if hops > 0 {
                lemma_circular_iff_links(table, i as int, (hops - 1) as nat);
                let inner = forall|n: nat|
                    n <= hops - 1 ==> is_link(table, #[trigger] reached(table, i as int, n));
                if inner {
                    assert forall|n: nat| n <= hops implies is_link(
                        table,
                        #[trigger] reached(table, idx, n),
                    ) by {
                        if n > 0 {
                            assert(reached(table, idx, n) == reached(
                                table,
                                i as int,
                                (n - 1) as nat,
                            ));
                        }
                    }
                }
                if links {
                    assert forall|n: nat| n <= hops - 1 implies is_link(
                        table,
                        #[trigger] reached(table, i as int, n),
                    ) by {
                        assert(reached(table, idx, n + 1) == reached(table, i as int, n));
                    }
                }
            }
        },
        _ => {
            assert(reached(table, idx, 0) == idx);
        },
    }
}

/// Among more class references than the table has entries, one comes twice.
proof fn lemma_revisit(table: Seq<ConstView>, idx: int) -> (r: (nat, nat))
    requires
        forall|n: nat| n <= table.len() ==> is_link(table, #[trigger] reached(table, idx, n)),
    ensures
        r.0 < r.1 <= table.len(),
        reached(table, idx, r.0) == reached(table, idx, r.1),
{
    let len = table.len() as int;
    let way = Seq::new((len + 1) as nat, |n: int| reached(table, idx, n as nat));
    if way.no_duplicates() {
        way.unique_seq_to_set();
        lemma_int_range(1, len + 1);
        lemma_len_subset(way.to_set(), set_int_range(1, len + 1));
    }
    let (i, j) = choose|i: int, j: int|
        0 <= i < way.len() && 0 <= j < way.len() && i != j && way[i] == way[j];
    if i < j {
        (i as nat, j as nat)
    } else {
        (j as nat, i as nat)
    }
}

/// A way that comes to one index twice consists of class references for ever.
proof fn lemma_round(table: Seq<ConstView>, idx: int, a: nat, b: nat, n: nat)
    requires
        a < b,
        reached(table, idx, a) == reached(table, idx, b),
        forall|k: nat| k <= b ==> is_link(table, #[trigger] reached(table, idx, k)),
    ensures
        is_link(table, reached(table, idx, n)),
    decreases n,
{
    if n > b {
        let back = (n - b + a) as nat;
        lemma_reached_sum(table, idx, b, (n - b) as nat);
        lemma_reached_sum(table, idx, a, (n - b) as nat);
        lemma_round(table, idx, a, b, back);
    }
}

/// String resolution. The text that a class reference stands for is the
/// text that the entry stands for which it points at; and where that
/// entry stands for none, both fail alike.
pub proof fn lemma_class_reference_text(table: Seq<ConstView>, idx: int, target: u16)
    requires
        entry_at(table, idx) == Some(ConstView::ClassIndex(target)),
    ensures
        text_at(table, idx) == text_at(table, target as int),
{
    let len = table.len();
    let short = text_within(table, target as int, (len - 1) as nat);
    if short != Err::<Seq<char>, PoolError>(PoolError::Circular) {
        lemma_more_hops(table, target as int, (len - 1) as nat);
    } else {
        lemma_circular_iff_links(table, target as int, (len - 1) as nat);
        assert forall|n: nat| n <= len implies is_link(
            table,
            #[trigger] reached(table, idx, n),
        ) by {
            if n > 0 {
                assert(reached(table, idx, n) == reached(table, target as int, (n - 1) as nat));
            }
        }
        let (a, b) = lemma_revisit(table, idx);
        assert forall|n: nat| n <= len implies is_link(
            table,
            #[trigger] reached(table, target as int, n),
        ) by {
            lemma_round(table, idx, a, b, n + 1);
        }
        lemma_circular_iff_links(table, target as int, len);
    }
}

} // verus!
