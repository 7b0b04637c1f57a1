//! Weighted-interval selection of a catalogue entry from a draw value.
//!
//! The entries split the draw range `0..100` into consecutive intervals, one
//! per entry and as wide as the entry's ratio. A draw selects the entry whose
//! interval holds it, and entry 0 where no interval does.

use vstd::prelude::*;
use crate::catalogue::{RewardCatalogue, RewardEntry};

verus! {

/// Number of distinct draw values; a ratio is a share out of this many.
pub const DRAW_RANGE: u8 = 100;

/// The index that a draw falls back to where no interval holds it.
pub const FALLBACK_INDEX: usize = 0;

/// Where the interval of entry `i` starts: the sum of the ratios before it.
pub open spec fn interval_start(entries: Seq<RewardEntry>, i: int) -> int
    decreases i,
{
    if i <= 0 {
        0
    } else {
        interval_start(entries, i - 1) + entries[i - 1].ratio
    }
}

/// Sum of all ratios of the catalogue.
pub open spec fn total_ratio(entries: Seq<RewardEntry>) -> int {
    interval_start(entries, entries.len() as int)
}

/// Whether the interval of entry `i` holds the draw `r`.
pub open spec fn covers(entries: Seq<RewardEntry>, i: int, r: int) -> bool {
    &&& 0 <= i < entries.len()
    &&& interval_start(entries, i) <= r < interval_start(entries, i) + entries[i].ratio
}

/// Whether some interval holds the draw `r`.
pub open spec fn covered(entries: Seq<RewardEntry>, r: int) -> bool {
    exists|i: int| covers(entries, i, r)
}

/// The draw value of an entropy input: its remainder modulo 100, in `0..100`
/// for negative inputs too.
pub open spec fn draw_value(entropy: int) -> int {
    entropy % 100
}

/// The entry that the draw `r` selects: the one whose interval holds `r`, and
/// entry 0 where none does.
pub open spec fn selected(entries: Seq<RewardEntry>, r: int) -> int {
    if covered(entries, r) {
        choose|i: int| covers(entries, i, r)
    } else {
        0
    }
}

/// Intervals start no earlier than the intervals before them end.
pub proof fn lemma_intervals_ordered(entries: Seq<RewardEntry>, i: int, j: int)
    requires
        0 <= i < j <= entries.len(),
    ensures
        interval_start(entries, i) + entries[i].ratio <= interval_start(entries, j),
    decreases j,
{
    if j > i + 1 {
        lemma_intervals_ordered(entries, i, j - 1);
    }
}

/// No two intervals overlap: a draw is held by at most one entry.
pub proof fn lemma_no_overlap(entries: Seq<RewardEntry>, i: int, j: int, r: int)
    requires
        covers(entries, i, r),
        covers(entries, j, r),
    ensures
        i == j,
{
    if i < j {
        lemma_intervals_ordered(entries, i, j);
    } else if j < i {
        lemma_intervals_ordered(entries, j, i);
    }
}

/// A draw that an interval holds selects the entry of that interval.
pub proof fn lemma_selected_is_the_covering_entry(entries: Seq<RewardEntry>, i: int, r: int)
    requires
        covers(entries, i, r),
    ensures
        selected(entries, r) == i,
{
    let k = choose|k: int| covers(entries, k, r);
    lemma_no_overlap(entries, i, k, r);
}

/// The intervals leave no gap below the sum of the first `n` ratios.
pub proof fn lemma_no_gap(entries: Seq<RewardEntry>, n: int, r: int)
    requires
        0 <= n <= entries.len(),
        0 <= r < interval_start(entries, n),
    ensures
        exists|i: int| 0 <= i < n && covers(entries, i, r),
    decreases n,
{
    if r >= interval_start(entries, n - 1) {
        assert(covers(entries, n - 1, r));
    } else {
        lemma_no_gap(entries, n - 1, r);
    }
}

/// Interval partition: where the ratios sum to 100, every draw in `0..100`
/// is held by exactly one entry, and that entry is the one selected.
pub proof fn lemma_full_catalogue_partitions_the_range(entries: Seq<RewardEntry>, r: int)
    requires
        total_ratio(entries) == 100,
        0 <= r < 100,
    ensures
        covers(entries, selected(entries, r), r),
        forall|i: int| covers(entries, i, r) ==> i == selected(entries, r),
{
    lemma_no_gap(entries, entries.len() as int, r);
    assert forall|i: int| covers(entries, i, r) implies i == selected(entries, r) by {
        lemma_selected_is_the_covering_entry(entries, i, r);
    }
}

/// Fallback: a draw at or above the sum of all ratios lies in no interval and
/// selects entry 0.
pub proof fn lemma_uncovered_tail_selects_fallback(entries: Seq<RewardEntry>, r: int)
    requires
        r >= total_ratio(entries),
    ensures
        !covered(entries, r),
        selected(entries, r) == 0,
{
    assert forall|i: int| !covers(entries, i, r) by {
        if 0 <= i < entries.len() {
            lemma_intervals_ordered(entries, i, entries.len() as int);
        }
    }
}

/// Selection depends on the draw value and on the ratios in catalogue order,
/// and on nothing else.
pub proof fn lemma_selection_is_determined(
    first: Seq<RewardEntry>,
    second: Seq<RewardEntry>,
    entropy_first: int,
    entropy_second: int,
)
    requires
        draw_value(entropy_first) == draw_value(entropy_second),
        first.len() == second.len(),
        forall|i: int| 0 <= i < first.len() ==> first[i].ratio == second[i].ratio,
    ensures
        selected(first, draw_value(entropy_first)) == selected(
            second,
            draw_value(entropy_second),
        ),
{
    let r = draw_value(entropy_first);
    assert forall|i: int| 0 <= i <= first.len() implies interval_start(first, i)
        == interval_start(second, i) by {
        lemma_same_ratios_same_intervals(first, second, i);
    }
    assert forall|i: int| covers(first, i, r) == covers(second, i, r) by {
        if 0 <= i < first.len() {
            lemma_same_ratios_same_intervals(first, second, i);
        }
    }
    if covered(first, r) {
        let i = choose|i: int| covers(first, i, r);
        assert(covers(second, i, r));
        lemma_selected_is_the_covering_entry(first, i, r);
        lemma_selected_is_the_covering_entry(second, i, r);
    } else {
        assert forall|i: int| !covers(second, i, r) by {
            assert(!covers(first, i, r));
        }
    }
}

proof fn lemma_same_ratios_same_intervals(first: Seq<RewardEntry>, second: Seq<RewardEntry>, n: int)
    requires
        first.len() == second.len(),
        forall|i: int| 0 <= i < first.len() ==> first[i].ratio == second[i].ratio,
        0 <= n <= first.len(),
    ensures
        interval_start(first, n) == interval_start(second, n),
    decreases n,
{
    if n > 0 {
        lemma_same_ratios_same_intervals(first, second, n - 1);
    }
}

/// Reduces an entropy input to its draw value.
pub fn draw(entropy: i64) -> (r: u8)
    ensures
        r == draw_value(entropy as int),
        r < DRAW_RANGE,
{
    match entropy.checked_rem_euclid(100) {
        Some(r) => r as u8,
        None => 0,
    }
}

/// Finds the entry whose interval holds the draw `r`, if there is one.
pub fn locate(catalogue: &RewardCatalogue, r: u8) -> (hit: Option<usize>)
    ensures
        match hit {
            Some(i) => covers(catalogue@, i as int, r as int),
            None => !covered(catalogue@, r as int),
        },
{
    let entries = catalogue.entries();
    let mut start: u16 = 0;
    let mut i: usize = 0;
    while i < entries.len()
        invariant
            entries@ == catalogue@,
            i <= entries.len(),
            start == interval_start(entries@, i as int),
            start <= r,
            forall|j: int| 0 <= j < i ==> !covers(entries@, j, r as int),
        decreases entries.len() - i,
    {
        let end: u16 = start + entries[i].ratio as u16;
        if (r as u16) < end {
            return Some(i);
        }
        start = end;
        i += 1;
    }
    None
}

/// Selects the entry for an entropy input: the entry whose interval holds
/// the draw value, and entry 0 where no interval does.
pub fn select(entropy: i64, catalogue: &RewardCatalogue) -> (index: usize)
    ensures
        index == selected(catalogue@, draw_value(entropy as int)),
        covered(catalogue@, draw_value(entropy as int)) ==> covers(
            catalogue@,
            index as int,
            draw_value(entropy as int),
        ),
        !covered(catalogue@, draw_value(entropy as int)) ==> index == FALLBACK_INDEX,
{
    let r = draw(entropy);
    match locate(catalogue, r) {
        Some(i) => {
            proof {
                lemma_selected_is_the_covering_entry(catalogue@, i as int, r as int);
            }
            i
        },
        None => FALLBACK_INDEX,
    }
}

} // verus!
