use world_server::ids::{
    IdAllocator, BITS_LOCAL, BITS_PERSISTENT, BITS_SPAWNED, NETWORK_CAPACITY, PARTITION_MASK,
    PERSISTENT_CAPACITY, SPAWNED_CAPACITY, STORABLE_CAPACITY,
};

#[test]
fn partition_markers_are_the_reserved_bits() {
    assert_eq!(BITS_PERSISTENT, 1 << 60);
    assert_eq!(BITS_LOCAL, 1 << 46);
    assert_eq!(BITS_SPAWNED, 1 << 58 | BITS_LOCAL);
    assert_eq!(BITS_PERSISTENT & BITS_SPAWNED, 0);
    assert_eq!(PARTITION_MASK, !((1u64 << 46) - 1));
    assert_eq!(PERSISTENT_CAPACITY, (1u64 << 46) - 1);
    assert_eq!(STORABLE_CAPACITY, i32::MAX as u64);
    assert_eq!(SPAWNED_CAPACITY, (1u64 << 46) - 1);
    assert_eq!(NETWORK_CAPACITY, u16::MAX);
}

#[test]
fn counters_start_at_the_markers() {
    let mut ids = IdAllocator::new(0);
    assert_eq!(ids.new_spawned_id(), BITS_SPAWNED + 1);
    assert_eq!(ids.new_persistent_id(), BITS_PERSISTENT + 1);
    assert_eq!(ids.new_network_id(), 1);
    assert_eq!(ids.new_spawned_id(), BITS_SPAWNED + 2);
    assert_eq!(ids.new_persistent_id(), BITS_PERSISTENT + 2);
    assert_eq!(ids.new_network_id(), 2);
}

#[test]
fn persistent_counter_is_seeded_from_the_high_water_mark() {
    let mut ids = IdAllocator::new(41);
    assert_eq!(ids.new_persistent_id(), BITS_PERSISTENT + 42);
    assert_eq!(ids.persistent_left(), PERSISTENT_CAPACITY - 42);
}

#[test]
fn a_high_water_mark_beyond_capacity_leaves_no_persistent_id() {
    let ids = IdAllocator::new(u64::MAX);
    assert_eq!(ids.persistent_left(), 0);
    let ids = IdAllocator::new(PERSISTENT_CAPACITY);
    assert_eq!(ids.persistent_left(), 0);
    let ids = IdAllocator::new(PERSISTENT_CAPACITY - 1);
    assert_eq!(ids.persistent_left(), 1);
}

#[test]
fn interleaved_allocations_are_pairwise_distinct() {
    let mut ids = IdAllocator::new(7);
    let mut persistent = vec![];
    let mut spawned = vec![];
    for i in 0..200 {
        if i % 3 == 0 {
            persistent.push(ids.new_persistent_id());
        } else {
            spawned.push(ids.new_spawned_id());
        }
    }
    let mut all: Vec<u64> = persistent.iter().chain(spawned.iter()).copied().collect();
    let n = all.len();
    all.sort();
    all.dedup();
    assert_eq!(all.len(), n);
    for p in &persistent {
        assert_eq!(p & PARTITION_MASK, BITS_PERSISTENT);
        for s in &spawned {
            assert_eq!(s & PARTITION_MASK, BITS_SPAWNED);
            assert_eq!((p & PARTITION_MASK) & (s & PARTITION_MASK), 0);
        }
    }
}

#[test]
fn counts_of_unused_identifiers_go_down_by_one() {
    let mut ids = IdAllocator::new(0);
    assert_eq!(ids.spawned_left(), SPAWNED_CAPACITY);
    assert_eq!(ids.network_left(), NETWORK_CAPACITY);
    ids.new_spawned_id();
    ids.new_network_id();
    assert_eq!(ids.spawned_left(), SPAWNED_CAPACITY - 1);
    assert_eq!(ids.network_left(), NETWORK_CAPACITY - 1);
}

#[test]
fn every_issued_identifier_bears_the_marker_of_its_partition() {
    // Close to the end of both partitions.
    let mut ids = IdAllocator::new(PERSISTENT_CAPACITY - 3);
    ids.current_spawned_id = BITS_SPAWNED + SPAWNED_CAPACITY - 3;
    for _ in 0..3 {
        let p = ids.new_persistent_id();
        let s = ids.new_spawned_id();
        assert_eq!(p & PARTITION_MASK, BITS_PERSISTENT);
        assert_eq!(s & PARTITION_MASK, BITS_SPAWNED);
        assert_ne!(p & (1 << 60), 0);
        assert_eq!(p & (1 << 58), 0);
        assert_ne!(s & (1 << 58), 0);
        assert_eq!(s & (1 << 60), 0);
    }
    assert_eq!(ids.persistent_left(), 0);
    assert_eq!(ids.spawned_left(), 0);
    assert!(ids.is_well_formed());
}

#[test]
fn storage_can_file_fewer_identifiers_than_exist() {
    let ids = IdAllocator::new(0);
    assert_eq!(ids.storable_left(), STORABLE_CAPACITY);
    let ids = IdAllocator::new(STORABLE_CAPACITY - 1);
    assert_eq!(ids.storable_left(), 1);
    let ids = IdAllocator::new(STORABLE_CAPACITY);
    assert_eq!(ids.storable_left(), 0);
    assert_eq!(ids.persistent_left(), PERSISTENT_CAPACITY - STORABLE_CAPACITY);
    let ids = IdAllocator::new(STORABLE_CAPACITY + 5);
    assert_eq!(ids.storable_left(), 0);
}
