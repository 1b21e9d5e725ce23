//! The boot-services table as the consumer observes it.
//!
//! The fixed enumerations here are passed through table entry points; their
//! numeric encoding must match the external firmware specification exactly
//! (ordinal-compatible, never reordered).
//!
//! [`BootServices`] models the observable behaviour of the table's
//! general-purpose pool entries: which regions are outstanding, how much of
//! the pool is left, and — for the release discipline — every invocation of
//! the free entry point, in call order. The model is an arena: the pool hands
//! out 8-byte-aligned, non-null, pairwise distinct bases and does not recycle
//! addresses. All mutation of the pool goes through these calls; on failure a
//! call has no effect beyond being recorded.

use vstd::prelude::*;

use crate::pool::PoolVec;
use crate::status::STATUS_INVALID_PARAMETER;
use crate::status::STATUS_OUT_OF_RESOURCES;
use crate::status::STATUS_SUCCESS;
use crate::status::Status;

verus! {

/// How a timer entry point arms an event.
#[derive(Clone, Copy, PartialEq, Eq, Structural, Debug)]
pub enum TimerDelay {
    Cancel,
    Periodic,
    Relative,
}

/// Interface type accepted when installing a protocol interface.
#[derive(Clone, Copy, PartialEq, Eq, Structural, Debug)]
pub enum InterfaceType {
    Native,
}

/// Search mode for enumerating handles in the handle database.
#[derive(Clone, Copy, PartialEq, Eq, Structural, Debug)]
pub enum LocateSearchType {
    /// Retrieve all the handles in the handle database.
    AllHandles,
    /// Retrieve the next handle from a pending protocol notification.
    ByRegisterNotify,
    /// Retrieve the handles that support a specified protocol.
    ByProtocol,
}

/// Placement policy for the page allocator.
#[derive(Clone, Copy, PartialEq, Eq, Structural, Debug)]
pub enum AllocType {
    AnyPages,
    MaxAddress,
    Address,
}

/// Tag classifying a memory region's purpose for the firmware's bookkeeping.
#[derive(Clone, Copy, PartialEq, Eq, Structural, Debug)]
pub enum MemoryType {
    ReservedMemoryType,
    LoaderCode,
    LoaderData,
    BootServicesCode,
    BootServicesData,
    RuntimeServicesCode,
    RuntimeServicesData,
    ConventionalMemory,
    UnusableMemory,
    AcpiReclaimMemory,
    AcpiMemoryNvs,
    MemoryMappedIo,
    MemoryMappedIoPortSpace,
    PalCode,
}

impl TimerDelay {
    /// Numeric encoding fixed by the external specification.
    pub open spec fn spec_encoding(&self) -> u32 {
        match *self {
            TimerDelay::Cancel => 0,
            TimerDelay::Periodic => 1,
            TimerDelay::Relative => 2,
        }
    }

    #[verifier::when_used_as_spec(spec_encoding)]
    pub fn encoding(&self) -> (v: u32)
        ensures
            v == self.spec_encoding(),
    {
        match *self {
            TimerDelay::Cancel => 0,
            TimerDelay::Periodic => 1,
            TimerDelay::Relative => 2,
        }
    }
}

impl InterfaceType {
    /// Numeric encoding fixed by the external specification.
    pub open spec fn spec_encoding(&self) -> u32 {
        match *self {
            InterfaceType::Native => 0,
        }
    }

    #[verifier::when_used_as_spec(spec_encoding)]
    pub fn encoding(&self) -> (v: u32)
        ensures
            v == self.spec_encoding(),
    {
        match *self {
            InterfaceType::Native => 0,
        }
    }
}

impl LocateSearchType {
    /// Numeric encoding fixed by the external specification.
    pub open spec fn spec_encoding(&self) -> u32 {
        match *self {
            LocateSearchType::AllHandles => 0,
            LocateSearchType::ByRegisterNotify => 1,
            LocateSearchType::ByProtocol => 2,
        }
    }

    #[verifier::when_used_as_spec(spec_encoding)]
    pub fn encoding(&self) -> (v: u32)
        ensures
            v == self.spec_encoding(),
    {
        match *self {
            LocateSearchType::AllHandles => 0,
            LocateSearchType::ByRegisterNotify => 1,
            LocateSearchType::ByProtocol => 2,
        }
    }
}

impl AllocType {
    /// Numeric encoding fixed by the external specification.
    pub open spec fn spec_encoding(&self) -> u32 {
        match *self {
            AllocType::AnyPages => 0,
            AllocType::MaxAddress => 1,
            AllocType::Address => 2,
        }
    }

    #[verifier::when_used_as_spec(spec_encoding)]
    pub fn encoding(&self) -> (v: u32)
        ensures
            v == self.spec_encoding(),
    {
        match *self {
            AllocType::AnyPages => 0,
            AllocType::MaxAddress => 1,
            AllocType::Address => 2,
        }
    }
}

impl MemoryType {
    /// Numeric encoding fixed by the external specification.
    pub open spec fn spec_encoding(&self) -> u32 {
        match *self {
            MemoryType::ReservedMemoryType => 0,
            MemoryType::LoaderCode => 1,
            MemoryType::LoaderData => 2,
            MemoryType::BootServicesCode => 3,
            MemoryType::BootServicesData => 4,
            MemoryType::RuntimeServicesCode => 5,
            MemoryType::RuntimeServicesData => 6,
            MemoryType::ConventionalMemory => 7,
            MemoryType::UnusableMemory => 8,
            MemoryType::AcpiReclaimMemory => 9,
            MemoryType::AcpiMemoryNvs => 10,
            MemoryType::MemoryMappedIo => 11,
            MemoryType::MemoryMappedIoPortSpace => 12,
            MemoryType::PalCode => 13,
        }
    }

    #[verifier::when_used_as_spec(spec_encoding)]
    pub fn encoding(&self) -> (v: u32)
        ensures
            v == self.spec_encoding(),
    {
        match *self {
            MemoryType::ReservedMemoryType => 0,
            MemoryType::LoaderCode => 1,
            MemoryType::LoaderData => 2,
            MemoryType::BootServicesCode => 3,
            MemoryType::BootServicesData => 4,
            MemoryType::RuntimeServicesCode => 5,
            MemoryType::RuntimeServicesData => 6,
            MemoryType::ConventionalMemory => 7,
            MemoryType::UnusableMemory => 8,
            MemoryType::AcpiReclaimMemory => 9,
            MemoryType::AcpiMemoryNvs => 10,
            MemoryType::MemoryMappedIo => 11,
            MemoryType::MemoryMappedIoPortSpace => 12,
            MemoryType::PalCode => 13,
        }
    }
}

/// The pool guarantees 8-byte alignment; requests advance the arena by whole
/// aligned steps, and a zero-byte request still occupies one step so every
/// returned base is distinct.
pub open spec fn padded_size(size: nat) -> nat {
    if size == 0 {
        8
    } else if size % 8 == 0 {
        size
    } else {
        (size + (8 - size % 8)) as nat
    }
}

/// Index of the outstanding region with base `base`, or `-1` if no such
/// region is outstanding.
pub open spec fn find_region(s: Seq<(usize, usize)>, base: usize) -> int
    decreases s.len(),
{
    if s.len() == 0 {
        -1
    } else if s[0].0 == base {
        0
    } else {
        let r = find_region(s.drop_first(), base);
        if r < 0 {
            -1
        } else {
            r + 1
        }
    }
}

/// `find_region` returns the first index holding `base`.
proof fn lemma_find_region_at(s: Seq<(usize, usize)>, base: usize, i: int)
    requires
        0 <= i < s.len(),
        s[i].0 == base,
        forall|j: int| 0 <= j < i ==> (#[trigger] s[j]).0 != base,
    ensures
        find_region(s, base) == i,
    decreases i,
{
    if i > 0 {
        assert(forall|j: int| 0 <= j < i - 1 ==> (#[trigger] s.drop_first()[j]).0 != base);
        lemma_find_region_at(s.drop_first(), base, i - 1);
    }
}

/// `find_region` reports absence when no outstanding region holds `base`.
proof fn lemma_find_region_none(s: Seq<(usize, usize)>, base: usize)
    requires
        forall|j: int| 0 <= j < s.len() ==> (#[trigger] s[j]).0 != base,
    ensures
        find_region(s, base) == -1,
    decreases s.len(),
{
    if s.len() > 0 {
        lemma_find_region_none(s.drop_first(), base);
    }
}

/// Observable model of the boot-services table's pool entries.
///
/// The table itself is constructed by firmware before control reaches the
/// consumer and is borrowed for the whole boot-services phase; this model
/// carries the only mutable state the binding can observe through it: the
/// pool arena and the log of free-pool invocations.
pub struct BootServices {
    next_base: usize,
    remaining: usize,
    live: Vec<(usize, usize)>,
    free_calls: Vec<usize>,
}

impl BootServices {
    /// Outstanding pool regions as (base, requested size), in allocation order.
    pub closed spec fn live_regions(&self) -> Seq<(usize, usize)> {
        self.live@
    }

    /// Every base handed to the free-pool entry point, in call order,
    /// successful or not.
    pub closed spec fn free_log(&self) -> Seq<usize> {
        self.free_calls@
    }

    /// Bytes the pool can still hand out.
    pub closed spec fn remaining(&self) -> nat {
        self.remaining as nat
    }

    /// The base the arena would assign to the next successful allocation.
    pub closed spec fn arena_base(&self) -> usize {
        self.next_base
    }

    /// Pool model invariant: bases are non-null, 8-byte aligned, pairwise
    /// distinct, and all below the arena's next base.
    pub closed spec fn wf(&self) -> bool {
        &&& self.next_base != 0
        &&& self.next_base % 8 == 0
        &&& forall|i: int|
            0 <= i < self.live@.len() ==> {
                &&& (#[trigger] self.live@[i]).0 != 0
                &&& self.live@[i].0 % 8 == 0
                &&& self.live@[i].0 < self.next_base
            }
        &&& forall|i: int, j: int|
            0 <= i < j < self.live@.len() ==> (#[trigger] self.live@[i]).0 != (
            #[trigger] self.live@[j]).0
    }

    /// Whether a region with base `base` is outstanding.
    pub open spec fn is_live(&self, base: usize) -> bool {
        find_region(self.live_regions(), base) >= 0
    }

    /// Whether the pool can satisfy a request of `size` bytes.
    pub open spec fn can_alloc(&self, size: nat) -> bool {
        &&& padded_size(size) <= self.remaining()
        &&& self.arena_base() + padded_size(size) <= usize::MAX
    }

    /// A fresh table whose pool holds `pool_bytes` bytes and no outstanding
    /// region.
    pub fn new(pool_bytes: usize) -> (bs: BootServices)
        ensures
            bs.wf(),
            bs.live_regions() == Seq::<(usize, usize)>::empty(),
            bs.free_log() == Seq::<usize>::empty(),
            bs.remaining() == pool_bytes,
            bs.arena_base() == 8,
    {
        BootServices { next_base: 8, remaining: pool_bytes, live: Vec::new(), free_calls: Vec::new() }
    }

    /// Number of outstanding pool regions.
    pub fn live_count(&self) -> (n: usize)
        ensures
            n == self.live_regions().len(),
    {
        self.live.len()
    }

    /// The outstanding region at position `i`, as (base, requested size).
    pub fn live_region(&self, i: usize) -> (r: (usize, usize))
        requires
            i < self.live_regions().len(),
        ensures
            r == self.live_regions()[i as int],
    {
        self.live[i]
    }

    /// Whether a region with base `base` is outstanding.
    pub fn is_region_live(&self, base: usize) -> (b: bool)
        ensures
            b == self.is_live(base),
    {
        let ghost regions = self.live@;
        let mut i: usize = 0;
        while i < self.live.len()
            invariant
                self.live@ == regions,
                i <= regions.len(),
                forall|j: int| 0 <= j < i ==> (#[trigger] regions[j]).0 != base,
            decreases regions.len() - i,
        {
            if self.live[i].0 == base {
                proof {
                    lemma_find_region_at(regions, base, i as int);
                }
                return true;
            }
            i = i + 1;
        }
        proof {
            lemma_find_region_none(regions, base);
        }
        false
    }

    /// Number of invocations of the free-pool entry point so far.
    pub fn free_call_count(&self) -> (n: usize)
        ensures
            n == self.free_log().len(),
    {
        self.free_calls.len()
    }

    /// The base handed to the free-pool entry point on its `i`-th invocation.
    pub fn free_call(&self, i: usize) -> (b: usize)
        requires
            i < self.free_log().len(),
        ensures
            b == self.free_log()[i as int],
    {
        self.free_calls[i]
    }

    /// Bytes the pool can still hand out.
    pub fn pool_remaining(&self) -> (n: usize)
        ensures
            n == self.remaining(),
    {
        self.remaining
    }

    /// Pool-allocate entry point: on success returns the zero status and a
    /// non-null, 8-byte-aligned base of a fresh region of `size` bytes; on
    /// exhaustion returns the out-of-resources status and changes nothing.
    #[allow(non_snake_case)]
    pub fn AllocatePool(&mut self, mt: MemoryType, size: usize) -> (r: (Status, usize))
        requires
            old(self).wf(),
        ensures
            final(self).wf(),
            r.0.is_success() == old(self).can_alloc(size as nat),
            !r.0.is_success() ==> {
                &&& r.0 == (Status(STATUS_OUT_OF_RESOURCES))
                &&& r.1 == 0
                &&& *final(self) == *old(self)
            },
            r.0.is_success() ==> {
                &&& r.1 != 0
                &&& r.1 % 8 == 0
                &&& r.1 == old(self).arena_base()
                &&& !old(self).is_live(r.1)
                &&& final(self).live_regions() == old(self).live_regions().push((r.1, size))
                &&& final(self).free_log() == old(self).free_log()
                &&& final(self).remaining() == old(self).remaining() - padded_size(size as nat)
                &&& final(self).arena_base() == old(self).arena_base() + padded_size(size as nat)
            },
    {
        let padded: usize = if size == 0 {
            8
        } else {
            let rem = size % 8;
            if rem == 0 {
                size
            } else if size <= usize::MAX - 8 {
                size + (8 - rem)
            } else {
                // the padded request does not even fit in an address word
                assert(padded_size(size as nat) > usize::MAX);
                return (Status(STATUS_OUT_OF_RESOURCES), 0);
            }
        };
        assert(padded == padded_size(size as nat));
        if padded <= self.remaining && self.next_base <= usize::MAX - padded {
            let base = self.next_base;
            proof {
                lemma_find_region_none(self.live@, base);
            }
            self.next_base = self.next_base + padded;
            self.remaining = self.remaining - padded;
            self.live.push((base, size));
            (Status(STATUS_SUCCESS), base)
        } else {
            (Status(STATUS_OUT_OF_RESOURCES), 0)
        }
    }

    /// Free-pool entry point: the invocation is always recorded; it succeeds
    /// exactly when `base` is an outstanding region, which it retires, and
    /// otherwise reports an invalid parameter and retires nothing.
    #[allow(non_snake_case)]
    pub fn FreePool(&mut self, base: usize) -> (r: Status)
        requires
            old(self).wf(),
        ensures
            final(self).wf(),
            final(self).free_log() == old(self).free_log().push(base),
            final(self).remaining() == old(self).remaining(),
            final(self).arena_base() == old(self).arena_base(),
            r.is_success() == old(self).is_live(base),
            r.is_success() ==> final(self).live_regions() == old(self).live_regions().remove(
                find_region(old(self).live_regions(), base),
            ),
            !r.is_success() ==> {
                &&& r == (Status(STATUS_INVALID_PARAMETER))
                &&& final(self).live_regions() == old(self).live_regions()
            },
    {
        self.free_calls.push(base);
        let ghost regions = self.live@;
        let mut i: usize = 0;
        while i < self.live.len()
            invariant
                self.wf(),
                self.live@ == regions,
                regions == old(self).live@,
                self.free_calls@ == old(self).free_calls@.push(base),
                self.next_base == old(self).next_base,
                self.remaining == old(self).remaining,
                i <= regions.len(),
                forall|j: int| 0 <= j < i ==> (#[trigger] regions[j]).0 != base,
            decreases regions.len() - i,
        {
            if self.live[i].0 == base {
                proof {
                    lemma_find_region_at(regions, base, i as int);
                }
                self.live.remove(i);
                return Status(STATUS_SUCCESS);
            }
            i = i + 1;
        }
        proof {
            lemma_find_region_none(regions, base);
        }
        Status(STATUS_INVALID_PARAMETER)
    }

    /// Allocate an owned buffer of `capacity` elements from the pool.
    ///
    /// The element type's alignment may not exceed the 8 bytes the pool
    /// guarantees; that is a construction-time obligation on the caller, not
    /// a runtime condition. On success the buffer starts empty (`len == 0`)
    /// with exactly the requested capacity and its region outstanding in the
    /// pool; when the pool cannot satisfy the request, the failed status is
    /// propagated verbatim, no buffer exists, and the pool is unchanged.
    #[allow(non_snake_case)]
    pub fn AllocatePoolVec<T>(&mut self, mt: MemoryType, capacity: usize) -> (r: Result<
        PoolVec<T>,
        Status,
    >)
        requires
            old(self).wf(),
            vstd::layout::align_of::<T>() <= 8,
            capacity * vstd::layout::size_of::<T>() <= usize::MAX,
        ensures
            final(self).wf(),
            r is Ok <==> old(self).can_alloc((capacity * vstd::layout::size_of::<T>()) as nat),
            r matches Ok(v) ==> {
                &&& v.wf()
                &&& v@.len() == 0
                &&& v.written().len() == 0
                &&& v.spec_cap() == capacity
                &&& v.spec_base() != 0
                &&& final(self).is_live(v.spec_base())
                &&& final(self).live_regions() == old(self).live_regions().push(
                    (v.spec_base(), (capacity * vstd::layout::size_of::<T>()) as usize),
                )
                &&& final(self).free_log() == old(self).free_log()
                &&& final(self).remaining() == old(self).remaining() - padded_size(
                    (capacity * vstd::layout::size_of::<T>()) as nat,
                )
            },
            r matches Err(e) ==> {
                &&& e == (Status(STATUS_OUT_OF_RESOURCES))
                &&& !e.is_success()
                &&& *final(self) == *old(self)
            },
    {
        let size: usize = capacity * core::mem::size_of::<T>();
        let (status, base) = self.AllocatePool(mt, size);
        if status.is_success() {
            proof {
                let regions = self.live@;
                lemma_find_region_at(regions, base, regions.len() - 1);
            }
            Ok(PoolVec::from_ptr(base, capacity, Vec::new()))
        } else {
            Err(status)
        }
    }
}

} // verus!
