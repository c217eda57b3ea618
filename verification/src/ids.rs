//! The identifier space.
//!
//! Object identifiers are 64 bits wide. Reserved high bits split the space into partitions that
//! cannot overlap: *persistent* identifiers belong to durable characters, *spawned* ones to
//! entities that live only as long as the process. Inside a partition, identifiers are handed
//! out by a counter that only grows, so none is issued twice.
use vstd::prelude::*;

verus! {

/// An object identifier.
pub type ObjId = u64;

/// A template identifier.
pub type Lot = u32;

/// Bit 60: marks a persistent identifier.
pub const BITS_PERSISTENT: u64 = 0x1000_0000_0000_0000;

/// Bit 46: marks an identifier that was issued by this process.
pub const BITS_LOCAL: u64 = 0x0000_4000_0000_0000;

/// Bits 58 and 46: mark a spawned identifier.
pub const BITS_SPAWNED: u64 = 0x0400_4000_0000_0000;

/// Bits 46 to 63: the part of an identifier that names its partition.
pub const PARTITION_MASK: u64 = 0xFFFF_C000_0000_0000;

/// How many persistent identifiers exist: the counter fills the 46 bits below the partition
/// bits.
pub const PERSISTENT_CAPACITY: u64 = 0x3FFF_FFFF_FFFF;

/// How many persistent identifiers storage can file. One more would no longer fit the signed
/// 32-bit key under which storage files a character.
pub const STORABLE_CAPACITY: u64 = 0x7FFF_FFFF;

/// How many spawned identifiers exist: the counter fills the 46 bits below the local bit.
pub const SPAWNED_CAPACITY: u64 = 0x3FFF_FFFF_FFFF;

/// How many network identifiers exist.
pub const NETWORK_CAPACITY: u16 = 0xFFFF;

/// Whether `id` lies in the persistent partition.
pub open spec fn is_persistent(id: ObjId) -> bool {
    BITS_PERSISTENT < id <= BITS_PERSISTENT + PERSISTENT_CAPACITY
}

/// Whether `id` is a persistent identifier that storage can file.
pub open spec fn is_storable(id: ObjId) -> bool {
    BITS_PERSISTENT < id <= BITS_PERSISTENT + STORABLE_CAPACITY
}

/// Whether `id` lies in the spawned partition.
pub open spec fn is_spawned(id: ObjId) -> bool {
    BITS_SPAWNED < id <= BITS_SPAWNED + SPAWNED_CAPACITY
}

/// The partition bits of an identifier.
pub open spec fn partition_bits(id: ObjId) -> u64 {
    id & PARTITION_MASK
}

/// The three counters from which identifiers are issued.
#[derive(Clone, Copy, Debug, PartialEq, Eq, Structural)]
pub struct IdAllocator {
    /// The spawned identifier issued last, or `BITS_SPAWNED` before the first.
    pub current_spawned_id: ObjId,
    /// The persistent identifier issued last, or the seed before the first.
    pub current_persistent_id: ObjId,
    /// The network identifier issued last, or 0 before the first.
    pub current_network_id: u16,
}

/// Which partition an identifier is asked from.
#[derive(Clone, Copy, Debug, PartialEq, Eq, Structural)]
pub enum Partition {
    Persistent,
    Spawned,
}

impl IdAllocator {
    /// Both object counters lie inside their partitions.
    pub open spec fn wf(&self) -> bool {
        &&& BITS_SPAWNED <= self.current_spawned_id <= BITS_SPAWNED + SPAWNED_CAPACITY
        &&& BITS_PERSISTENT <= self.current_persistent_id <= BITS_PERSISTENT + PERSISTENT_CAPACITY
    }

    /// Whether `id` is an identifier that the counters have passed: one that has been issued,
    /// or that storage held when the persistent counter was seeded.
    pub open spec fn issued(&self, id: ObjId) -> bool {
        ||| BITS_PERSISTENT < id <= self.current_persistent_id
        ||| BITS_SPAWNED < id <= self.current_spawned_id
    }

    /// Whether no object counter of `self` is behind the same counter of `earlier`.
    pub open spec fn covers(&self, earlier: IdAllocator) -> bool {
        &&& earlier.current_persistent_id <= self.current_persistent_id
        &&& earlier.current_spawned_id <= self.current_spawned_id
    }

    /// How many spawned identifiers are still unused.
    pub open spec fn spec_spawned_left(&self) -> int {
        BITS_SPAWNED + SPAWNED_CAPACITY - self.current_spawned_id
    }

    /// How many persistent identifiers are still unused.
    pub open spec fn spec_persistent_left(&self) -> int {
        BITS_PERSISTENT + PERSISTENT_CAPACITY - self.current_persistent_id
    }

    /// How many unused persistent identifiers storage can still file.
    pub open spec fn spec_storable_left(&self) -> int {
        if self.current_persistent_id < BITS_PERSISTENT + STORABLE_CAPACITY {
            BITS_PERSISTENT + STORABLE_CAPACITY - self.current_persistent_id
        } else {
            0
        }
    }

    /// How many network identifiers are still unused.
    pub open spec fn spec_network_left(&self) -> int {
        NETWORK_CAPACITY - self.current_network_id
    }

    /// How many identifiers of `partition` are still unused.
    pub open spec fn spec_left(&self, partition: Partition) -> int {
        match partition {
            Partition::Persistent => self.spec_persistent_left(),
            Partition::Spawned => self.spec_spawned_left(),
        }
    }

    /// A fresh allocator. `persistent_high_water` is the largest counter value that storage
    /// already holds, so that no persistent identifier of an earlier run is issued again. A
    /// high-water mark at or beyond the partition's capacity yields an allocator whose
    /// persistent partition is used up.
    pub fn new(persistent_high_water: u64) -> (a: IdAllocator)
        ensures
            a.wf(),
            a.current_spawned_id == BITS_SPAWNED,
            a.current_network_id == 0,
            a.current_persistent_id == BITS_PERSISTENT + if persistent_high_water
                <= PERSISTENT_CAPACITY {
                persistent_high_water
            } else {
                PERSISTENT_CAPACITY
            },
    {
        let seed: u64 = if persistent_high_water <= PERSISTENT_CAPACITY {
            persistent_high_water
        } else {
            PERSISTENT_CAPACITY
        };
        IdAllocator {
            current_spawned_id: BITS_SPAWNED,
            current_persistent_id: BITS_PERSISTENT + seed,
            current_network_id: 0,
        }
    }

    /// Whether both object counters lie inside their partitions.
    pub fn is_well_formed(&self) -> (ok: bool)
        ensures
            ok == self.wf(),
    {
        BITS_SPAWNED <= self.current_spawned_id && self.current_spawned_id <= BITS_SPAWNED
            + SPAWNED_CAPACITY && BITS_PERSISTENT <= self.current_persistent_id
            && self.current_persistent_id <= BITS_PERSISTENT + PERSISTENT_CAPACITY
    }

    /// How many spawned identifiers are still unused.
    pub fn spawned_left(&self) -> (n: u64)
        requires
            self.wf(),
        ensures
            n == self.spec_spawned_left(),
    {
        BITS_SPAWNED + SPAWNED_CAPACITY - self.current_spawned_id
    }

    /// How many persistent identifiers are still unused.
    pub fn persistent_left(&self) -> (n: u64)
        requires
            self.wf(),
        ensures
            n == self.spec_persistent_left(),
    {
        BITS_PERSISTENT + PERSISTENT_CAPACITY - self.current_persistent_id
    }

    /// How many unused persistent identifiers storage can still file.
    pub fn storable_left(&self) -> (n: u64)
        requires
            self.wf(),
        ensures
            n == self.spec_storable_left(),
            n <= self.spec_persistent_left(),
    {
        if self.current_persistent_id < BITS_PERSISTENT + STORABLE_CAPACITY {
            BITS_PERSISTENT + STORABLE_CAPACITY - self.current_persistent_id
        } else {
            0
        }
    }

    /// How many network identifiers are still unused.
    pub fn network_left(&self) -> (n: u16)
        ensures
            n == self.spec_network_left(),
    {
        NETWORK_CAPACITY - self.current_network_id
    }

    /// Issues the next spawned identifier: one above the spawned identifier issued last. It
    /// bears the marker of the spawned partition, and it is none of the identifiers that the
    /// counters had passed before, persistent or spawned.
    pub fn new_spawned_id(&mut self) -> (id: ObjId)
        requires
            old(self).wf(),
            old(self).spec_spawned_left() > 0,
        ensures
            final(self).wf(),
            id == old(self).current_spawned_id + 1,
            *final(self) == (IdAllocator { current_spawned_id: id, ..*old(self) }),
            is_spawned(id),
            partition_bits(id) == BITS_SPAWNED,
            partition_bits(id) & BITS_PERSISTENT == 0,
            !old(self).issued(id),
            final(self).issued(id),
            forall|earlier: ObjId| old(self).issued(earlier) ==> earlier != id && final(self).issued(earlier),
    {
        self.current_spawned_id += 1;
        proof {
            lemma_partition_bits(self.current_spawned_id);
        }
        self.current_spawned_id
    }

    /// Issues the next persistent identifier: one above the persistent identifier issued
    /// last, or above the seed. It bears the marker of the persistent partition, and it is
    /// none of the identifiers that the counters had passed before, persistent or spawned.
    pub fn new_persistent_id(&mut self) -> (id: ObjId)
        requires
            old(self).wf(),
            old(self).spec_persistent_left() > 0,
        ensures
            final(self).wf(),
            id == old(self).current_persistent_id + 1,
            *final(self) == (IdAllocator { current_persistent_id: id, ..*old(self) }),
            is_persistent(id),
            partition_bits(id) == BITS_PERSISTENT,
            partition_bits(id) & BITS_SPAWNED == 0,
            !old(self).issued(id),
            final(self).issued(id),
            forall|earlier: ObjId| old(self).issued(earlier) ==> earlier != id && final(self).issued(earlier),
    {
        self.current_persistent_id += 1;
        proof {
            lemma_partition_bits(self.current_persistent_id);
        }
        self.current_persistent_id
    }

    /// Issues the next network identifier.
    pub fn new_network_id(&mut self) -> (id: u16)
        requires
            old(self).spec_network_left() > 0,
        ensures
            id == old(self).current_network_id + 1,
            *final(self) == (IdAllocator { current_network_id: id, ..*old(self) }),
    {
        self.current_network_id += 1;
        self.current_network_id
    }

    /// The allocator after one identifier of `partition` was issued.
    pub open spec fn spec_advance(self, partition: Partition) -> IdAllocator {
        match partition {
            Partition::Persistent => IdAllocator {
                current_persistent_id: (self.current_persistent_id + 1) as u64,
                ..self
            },
            Partition::Spawned => IdAllocator {
                current_spawned_id: (self.current_spawned_id + 1) as u64,
                ..self
            },
        }
    }

    /// The identifier that the next request to `partition` is answered with.
    pub open spec fn spec_next(self, partition: Partition) -> ObjId {
        match partition {
            Partition::Persistent => (self.current_persistent_id + 1) as u64,
            Partition::Spawned => (self.current_spawned_id + 1) as u64,
        }
    }

    /// The identifiers issued by a run of requests, one per entry of `requests`, in order.
    pub open spec fn spec_issue(self, requests: Seq<Partition>) -> Seq<ObjId>
        decreases requests.len(),
    {
        if requests.len() == 0 {
            Seq::empty()
        } else {
            seq![self.spec_next(requests[0])] + self.spec_advance(requests[0]).spec_issue(
                requests.drop_first(),
            )
        }
    }

    /// How many entries of `requests` ask for `partition`.
    pub open spec fn count(requests: Seq<Partition>, partition: Partition) -> nat
        decreases requests.len(),
    {
        if requests.len() == 0 {
            0
        } else {
            (if requests[0] == partition {
                1nat
            } else {
                0nat
            }) + Self::count(requests.drop_first(), partition)
        }
    }
}

/// The partition bits of every identifier of a partition are that partition's marker, and the
/// two markers have no bit in common.
pub proof fn lemma_partition_bits(id: ObjId)
    ensures
        is_persistent(id) ==> partition_bits(id) == BITS_PERSISTENT,
        is_spawned(id) ==> partition_bits(id) == BITS_SPAWNED,
        BITS_PERSISTENT & BITS_SPAWNED == 0,
        BITS_SPAWNED & BITS_PERSISTENT == 0,
        !(is_persistent(id) && is_spawned(id)),
{
    assert(0x0400_4000_0000_0000u64 & 0x1000_0000_0000_0000u64 == 0) by (bit_vector);
    assert(0x1000_0000_0000_0000u64 < id && id <= 0x1000_3FFF_FFFF_FFFFu64 ==> id
        & 0xFFFF_C000_0000_0000u64 == 0x1000_0000_0000_0000u64) by (bit_vector);
    assert(0x0400_4000_0000_0000u64 < id && id <= 0x0400_7FFF_FFFF_FFFFu64 ==> id
        & 0xFFFF_C000_0000_0000u64 == 0x0400_4000_0000_0000u64) by (bit_vector);
    assert(0x1000_0000_0000_0000u64 & 0x0400_4000_0000_0000u64 == 0) by (bit_vector);
}

/// Every identifier that a run of requests yields lies in the partition it was asked from, and
/// lies above the counter that the run started with.
pub proof fn lemma_issue_in_partition(a: IdAllocator, requests: Seq<Partition>, i: int)
    requires
        a.wf(),
        IdAllocator::count(requests, Partition::Persistent) <= a.spec_persistent_left(),
        IdAllocator::count(requests, Partition::Spawned) <= a.spec_spawned_left(),
        0 <= i < requests.len(),
    ensures
        a.spec_issue(requests).len() == requests.len(),
        requests[i] == Partition::Persistent ==> is_persistent(a.spec_issue(requests)[i])
            && a.spec_issue(requests)[i] > a.current_persistent_id,
        requests[i] == Partition::Spawned ==> is_spawned(a.spec_issue(requests)[i])
            && a.spec_issue(requests)[i] > a.current_spawned_id,
    decreases requests.len(),
{
    lemma_issue_len(a, requests);
    if i > 0 {
        let rest = requests.drop_first();
        let b = a.spec_advance(requests[0]);
        lemma_issue_len(b, rest);
        lemma_issue_in_partition(b, rest, i - 1);
        assert(rest[i - 1] == requests[i]);
        assert(a.spec_issue(requests)[i] == b.spec_issue(rest)[i - 1]);
    }
}

/// A run of requests yields one identifier per request.
pub proof fn lemma_issue_len(a: IdAllocator, requests: Seq<Partition>)
    ensures
        a.spec_issue(requests).len() == requests.len(),
    decreases requests.len(),
{
    if requests.len() > 0 {
        lemma_issue_len(a.spec_advance(requests[0]), requests.drop_first());
    }
}

/// However persistent and spawned requests are interleaved, no identifier is issued twice, and
/// a persistent identifier never has the partition bits of a spawned one.
pub proof fn lemma_issued_ids_distinct(a: IdAllocator, requests: Seq<Partition>, i: int, j: int)
    requires
        a.wf(),
        IdAllocator::count(requests, Partition::Persistent) <= a.spec_persistent_left(),
        IdAllocator::count(requests, Partition::Spawned) <= a.spec_spawned_left(),
        0 <= i < j < requests.len(),
    ensures
        a.spec_issue(requests)[i] != a.spec_issue(requests)[j],
        requests[i] != requests[j] ==> partition_bits(a.spec_issue(requests)[i]) & partition_bits(
            a.spec_issue(requests)[j],
        ) == 0,
    decreases requests.len(),
{
    let ids = a.spec_issue(requests);
    let rest = requests.drop_first();
    let b = a.spec_advance(requests[0]);
    lemma_issue_len(a, requests);
    lemma_issue_len(b, rest);
    lemma_issue_in_partition(a, requests, i);
    lemma_issue_in_partition(a, requests, j);
    lemma_partition_bits(ids[i]);
    lemma_partition_bits(ids[j]);
    assert(rest[j - 1] == requests[j]);
    assert(ids[j] == b.spec_issue(rest)[j - 1]);
    if i == 0 {
        lemma_issue_in_partition(b, rest, j - 1);
    } else {
        assert(rest[i - 1] == requests[i]);
        assert(ids[i] == b.spec_issue(rest)[i - 1]);
        lemma_issued_ids_distinct(b, rest, i - 1, j - 1);
    }
    if requests[i] != requests[j] {
        assert(0x1000_0000_0000_0000u64 & 0x0400_4000_0000_0000u64 == 0) by (bit_vector);
        assert(0x0400_4000_0000_0000u64 & 0x1000_0000_0000_0000u64 == 0) by (bit_vector);
    }
}

} // verus!
