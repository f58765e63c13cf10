use bevy::prelude::Entity;
use emergence_lib::crafting::workers::WorkersPresent;

fn bits(ratio: f32) -> u32 {
    ratio.to_bits()
}

fn effective_workers(present: &WorkersPresent) -> f32 {
    present.ratios().iter().map(|ratio| f32::from_bits(*ratio)).sum()
}

fn sorted_ratios(present: &WorkersPresent) -> Vec<u32> {
    let mut ratios = present.ratios();
    ratios.sort_unstable();
    ratios
}

#[test]
fn new_structure_is_empty() {
    let present = WorkersPresent::new(3);
    assert_eq!(present.current(), 0);
    assert_eq!(present.allowed(), 3);
    assert!(present.needs_more());
    assert_eq!(present.ratios(), Vec::<u32>::new());
    assert_eq!(effective_workers(&present), 0.0);
}

#[test]
fn structure_that_allows_nobody_needs_nobody() {
    let mut present = WorkersPresent::new(0);
    assert!(!present.needs_more());
    assert_eq!(present.add_worker(1, bits(1.0)), Err(()));
    assert_eq!(present.current(), 0);
    assert_eq!(present.ratios(), Vec::<u32>::new());
}

#[test]
fn third_worker_is_turned_away_from_two_places() {
    let mut present = WorkersPresent::new(2);
    assert_eq!(present.add_worker(10, bits(1.0)), Ok(()));
    assert_eq!(present.add_worker(11, bits(0.5)), Ok(()));
    assert_eq!(present.add_worker(12, bits(1.0)), Err(()));
    assert_eq!(present.current(), 2);
    assert_eq!(effective_workers(&present), 1.5);
    assert!(!present.needs_more());
    assert_eq!(sorted_ratios(&present), vec![bits(0.5), bits(1.0)]);
}

#[test]
fn worker_that_leaves_makes_room() {
    let mut present = WorkersPresent::new(1);
    assert_eq!(present.add_worker(10, bits(1.0)), Ok(()));
    assert!(!present.needs_more());
    present.remove_worker(10);
    assert!(present.needs_more());
    assert_eq!(present.current(), 0);
    assert_eq!(present.ratios(), Vec::<u32>::new());
    assert_eq!(present.add_worker(11, bits(0.25)), Ok(()));
    assert_eq!(present.ratios(), vec![bits(0.25)]);
}

#[test]
fn full_house_of_whole_workers() {
    for allowed in [0u8, 1, 2, 7, 100, 255] {
        let mut present = WorkersPresent::new(allowed);
        for worker in 0..allowed {
            assert!(present.needs_more());
            assert_eq!(present.add_worker(u64::from(worker) + 1000, bits(1.0)), Ok(()));
        }
        assert_eq!(present.current(), allowed);
        assert!(!present.needs_more());
        assert_eq!(effective_workers(&present), f32::from(allowed));
        assert_eq!(present.ratios(), vec![bits(1.0); usize::from(allowed)]);
    }
}

#[test]
fn count_never_passes_the_limit() {
    let mut present = WorkersPresent::new(4);
    for round in 0..50u64 {
        let worker = (round * 7) % 13;
        let had_room = present.current() < present.allowed();
        let added = present.add_worker(worker, bits(0.75));
        assert_eq!(added.is_ok(), had_room);
        assert!(present.current() <= present.allowed());
        if round % 5 == 4 {
            present.remove_worker(worker);
            assert!(present.current() <= present.allowed());
        }
    }
}

#[test]
fn add_succeeds_exactly_when_there_is_room() {
    let mut present = WorkersPresent::new(2);
    assert!(present.current() < present.allowed());
    assert!(present.add_worker(1, bits(1.0)).is_ok());
    assert!(present.current() < present.allowed());
    assert!(present.add_worker(2, bits(1.0)).is_ok());
    assert!(present.current() == present.allowed());
    assert!(present.add_worker(3, bits(1.0)).is_err());
    assert_eq!(present.current(), 2);
    assert_eq!(sorted_ratios(&present), vec![bits(1.0), bits(1.0)]);
}

#[test]
fn new_worker_adds_its_ratio() {
    let mut present = WorkersPresent::new(3);
    assert_eq!(present.add_worker(1, bits(0.5)), Ok(()));
    let before = effective_workers(&present);
    assert_eq!(before, 0.5);
    assert_eq!(present.add_worker(2, bits(0.25)), Ok(()));
    assert_eq!(effective_workers(&present), before + 0.25);
    assert_eq!(present.current(), 2);
    assert_eq!(sorted_ratios(&present), vec![bits(0.25), bits(0.5)]);
}

#[test]
fn worker_that_joins_again_replaces_its_ratio() {
    let mut present = WorkersPresent::new(3);
    assert_eq!(present.add_worker(1, bits(0.5)), Ok(()));
    assert_eq!(present.add_worker(2, bits(1.0)), Ok(()));
    assert_eq!(present.add_worker(1, bits(0.25)), Ok(()));
    assert_eq!(present.current(), 2);
    assert_eq!(effective_workers(&present), 1.25);
    assert_eq!(sorted_ratios(&present), vec![bits(0.25), bits(1.0)]);
}

#[test]
fn worker_that_joins_again_is_turned_away_when_full() {
    let mut present = WorkersPresent::new(2);
    assert_eq!(present.add_worker(1, bits(0.5)), Ok(()));
    assert_eq!(present.add_worker(2, bits(1.0)), Ok(()));
    assert_eq!(present.add_worker(1, bits(0.25)), Err(()));
    assert_eq!(present.current(), 2);
    assert_eq!(effective_workers(&present), 1.5);
    assert_eq!(sorted_ratios(&present), vec![bits(0.5), bits(1.0)]);
}

#[test]
fn removing_a_stranger_changes_nothing() {
    let mut present = WorkersPresent::new(3);
    assert_eq!(present.add_worker(1, bits(0.5)), Ok(()));
    assert_eq!(present.add_worker(2, bits(1.0)), Ok(()));
    present.remove_worker(99);
    assert_eq!(present.current(), 2);
    assert_eq!(effective_workers(&present), 1.5);
    assert_eq!(sorted_ratios(&present), vec![bits(0.5), bits(1.0)]);
    assert!(present.needs_more());
}

#[test]
fn removing_a_worker_takes_only_that_worker() {
    let mut present = WorkersPresent::new(3);
    assert_eq!(present.add_worker(1, bits(0.5)), Ok(()));
    assert_eq!(present.add_worker(2, bits(1.0)), Ok(()));
    assert_eq!(present.add_worker(3, bits(0.125)), Ok(()));
    present.remove_worker(2);
    assert_eq!(present.current(), 2);
    assert_eq!(sorted_ratios(&present), vec![bits(0.125), bits(0.5)]);
    present.remove_worker(2);
    assert_eq!(present.current(), 2);
}

#[test]
fn entities_are_told_apart_by_index_and_generation() {
    let first = Entity::from_raw(7);
    let second = Entity::from_bits((1 << 32) | 7);
    assert_ne!(first.to_bits(), second.to_bits());
    let mut present = WorkersPresent::new(2);
    assert_eq!(present.add_worker(first.to_bits(), bits(1.0)), Ok(()));
    assert_eq!(present.add_worker(second.to_bits(), bits(1.0)), Ok(()));
    assert_eq!(present.current(), 2);
    present.remove_worker(first.to_bits());
    assert_eq!(present.current(), 1);
}

#[test]
fn display_shows_present_effective_and_allowed() {
    let mut present = WorkersPresent::new(2);
    assert_eq!(present.add_worker(10, bits(1.0)), Ok(()));
    assert_eq!(present.add_worker(11, bits(0.5)), Ok(()));
    let effective = format!("{}", effective_workers(&present));
    assert_eq!(present.display(&effective), "2 (1.5) / 2");
}

#[test]
fn display_writes_every_width_of_number() {
    assert_eq!(WorkersPresent::new(0).display("0"), "0 (0) / 0");
    assert_eq!(WorkersPresent::new(9).display("0"), "0 (0) / 9");
    assert_eq!(WorkersPresent::new(10).display("0"), "0 (0) / 10");
    assert_eq!(WorkersPresent::new(99).display("0"), "0 (0) / 99");
    assert_eq!(WorkersPresent::new(100).display("0"), "0 (0) / 100");
    assert_eq!(WorkersPresent::new(109).display("0"), "0 (0) / 109");
    assert_eq!(WorkersPresent::new(255).display(""), "0 () / 255");
    let mut present = WorkersPresent::new(200);
    for worker in 0..123u64 {
        assert_eq!(present.add_worker(worker, bits(1.0)), Ok(()));
    }
    assert_eq!(present.display("123"), "123 (123) / 200");
}
