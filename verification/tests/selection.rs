use spin_escrow::account::AccountHandle;
use spin_escrow::catalogue::{RewardCatalogue, RewardEntry};
use spin_escrow::selector::{draw, locate, select, DRAW_RANGE, FALLBACK_INDEX};

fn handle(tag: u8) -> AccountHandle {
    AccountHandle::new([tag; 32])
}

fn catalogue_of(ratios: &[u8]) -> RewardCatalogue {
    let mut catalogue = RewardCatalogue::new(None);
    for (position, ratio) in ratios.iter().enumerate() {
        let entry = RewardEntry::fungible(*ratio, 10 * (position as u64 + 1), handle(7));
        assert_eq!(catalogue.add(entry), Ok(position));
    }
    catalogue
}

/// Reference walk over the intervals, counting how many entries hold `r`.
fn holders(ratios: &[u8], r: u32) -> Vec<usize> {
    let mut found = Vec::new();
    let mut start: u32 = 0;
    for (position, ratio) in ratios.iter().enumerate() {
        let end = start + *ratio as u32;
        if start <= r && r < end {
            found.push(position);
        }
        start = end;
    }
    found
}

#[test]
fn draw_reduces_modulo_one_hundred() {
    assert_eq!(DRAW_RANGE, 100);
    assert_eq!(draw(0), 0);
    assert_eq!(draw(10), 10);
    assert_eq!(draw(99), 99);
    assert_eq!(draw(100), 0);
    assert_eq!(draw(160), 60);
    assert_eq!(draw(1_700_000_085), 85);
    assert_eq!(draw(i64::MAX), 7);
}

#[test]
fn draw_of_negative_entropy_stays_in_range() {
    assert_eq!(draw(-1), 99);
    assert_eq!(draw(-100), 0);
    assert_eq!(draw(-101), 99);
    assert_eq!(draw(-15), 85);
    assert_eq!(draw(i64::MIN), 92);
}

#[test]
fn scenario_two_halves() {
    let mut catalogue = RewardCatalogue::new(None);
    catalogue.add(RewardEntry::fungible(50, 100, handle(1))).unwrap();
    catalogue.add(RewardEntry::fungible(50, 200, handle(1))).unwrap();
    assert_eq!(draw(10), 10);
    assert_eq!(select(10, &catalogue), 0);
    assert_eq!(draw(60), 60);
    assert_eq!(select(60, &catalogue), 1);
    assert_eq!(select(49, &catalogue), 0);
    assert_eq!(select(50, &catalogue), 1);
    assert_eq!(select(99, &catalogue), 1);
}

#[test]
fn scenario_uncovered_tail_falls_back() {
    let catalogue = catalogue_of(&[30, 30]);
    assert_eq!(draw(85), 85);
    assert_eq!(locate(&catalogue, 85), None);
    assert_eq!(select(85, &catalogue), 0);
    assert_eq!(select(85, &catalogue), FALLBACK_INDEX);
    assert_eq!(select(29, &catalogue), 0);
    assert_eq!(select(30, &catalogue), 1);
    assert_eq!(select(59, &catalogue), 1);
    assert_eq!(select(60, &catalogue), 0);
}

#[test]
fn full_catalogue_partitions_the_range() {
    let ratios = [10u8, 0, 25, 5, 0, 60];
    assert_eq!(ratios.iter().map(|r| *r as u32).sum::<u32>(), 100);
    let catalogue = catalogue_of(&ratios);
    let mut hits = [0u32; 6];
    for r in 0..100u32 {
        let expected = holders(&ratios, r);
        assert_eq!(expected.len(), 1);
        assert_eq!(locate(&catalogue, r as u8), Some(expected[0]));
        let index = select(r as i64, &catalogue);
        assert_eq!(index, expected[0]);
        hits[index] += 1;
    }
    assert_eq!(hits, [10, 0, 25, 5, 0, 60]);
}

#[test]
fn short_catalogue_sends_every_uncovered_draw_to_entry_zero() {
    let ratios = [20u8, 15, 5];
    let catalogue = catalogue_of(&ratios);
    for r in 0..100u32 {
        let index = select(r as i64, &catalogue);
        if r >= 40 {
            assert_eq!(locate(&catalogue, r as u8), None);
            assert_eq!(index, 0);
        } else {
            assert_eq!(vec![index], holders(&ratios, r));
        }
    }
}

#[test]
fn selection_depends_only_on_draw_value_and_ratios() {
    let first = catalogue_of(&[40, 35, 25]);
    let mut second = RewardCatalogue::new(Some(3));
    second.add(RewardEntry::non_fungible(40, handle(3))).unwrap();
    second.add(RewardEntry::fungible(35, 1, handle(4))).unwrap();
    second.add(RewardEntry::non_fungible(25, handle(5))).unwrap();
    for r in 0..100i64 {
        let index = select(r, &first);
        assert_eq!(select(r, &first), index);
        assert_eq!(select(r + 100, &first), index);
        assert_eq!(select(r + 1_000_000_000_000, &first), index);
        assert_eq!(select(r - 100, &first), index);
        assert_eq!(select(r, &second), index);
    }
}

#[test]
fn empty_catalogue_selects_the_fallback() {
    let catalogue = RewardCatalogue::new(None);
    for r in 0..100i64 {
        assert_eq!(locate(&catalogue, r as u8), None);
        assert_eq!(select(r, &catalogue), 0);
    }
}

#[test]
fn oversized_ratios_cover_what_they_reach() {
    let catalogue = catalogue_of(&[90, 200, 255]);
    assert_eq!(select(89, &catalogue), 0);
    assert_eq!(select(90, &catalogue), 1);
    assert_eq!(select(99, &catalogue), 1);
    assert_eq!(locate(&catalogue, 255), Some(1));
    let wide = catalogue_of(&[255, 255]);
    assert_eq!(locate(&wide, 254), Some(0));
    assert_eq!(locate(&wide, 255), Some(1));
}

#[test]
fn zero_ratio_entries_are_never_selected() {
    let catalogue = catalogue_of(&[0, 0, 100, 0]);
    for r in 0..100i64 {
        assert_eq!(select(r, &catalogue), 2);
    }
}
