//! Memory services: memory classifications, page allocations that hand their
//! pages back, and the physical memory map.

use vstd::prelude::*;
use crate::bytes::{read_u32, read_u64, le_value};
use crate::status::Status;

verus! {

/// Bytes in one firmware page.
pub const PAGE_SIZE: usize = 4096;

/// The nominal size in bytes of one memory descriptor record; the firmware's
/// stride between records may be larger.
pub const DESCRIPTOR_SIZE: usize = 40;

/// How the firmware classifies a range of memory.
#[derive(Clone, Copy, Debug, PartialEq, Eq, Structural)]
pub enum MemoryType {
    Reserved,
    LoaderCode,
    LoaderData,
    BootServicesCode,
    BootServicesData,
    RuntimeServicesCode,
    RuntimeServicesData,
    Conventional,
    Unusable,
    AcpiReclaimable,
    AcpiMemoryNvs,
    MemoryMappedIo,
    MemoryMappedIoPortSpace,
    PalCode,
}

/// The firmware's numbering of the memory classifications.
pub open spec fn memory_type_code(t: MemoryType) -> u32 {
    match t {
        MemoryType::Reserved => 0,
        MemoryType::LoaderCode => 1,
        MemoryType::LoaderData => 2,
        MemoryType::BootServicesCode => 3,
        MemoryType::BootServicesData => 4,
        MemoryType::RuntimeServicesCode => 5,
        MemoryType::RuntimeServicesData => 6,
        MemoryType::Conventional => 7,
        MemoryType::Unusable => 8,
        MemoryType::AcpiReclaimable => 9,
        MemoryType::AcpiMemoryNvs => 10,
        MemoryType::MemoryMappedIo => 11,
        MemoryType::MemoryMappedIoPortSpace => 12,
        MemoryType::PalCode => 13,
    }
}

/// The classification that firmware number `code` stands for, if any.
pub open spec fn memory_type_of(code: u32) -> Option<MemoryType> {
    if code == 0 {
        Some(MemoryType::Reserved)
    } else if code == 1 {
        Some(MemoryType::LoaderCode)
    } else if code == 2 {
        Some(MemoryType::LoaderData)
    } else if code == 3 {
        Some(MemoryType::BootServicesCode)
    } else if code == 4 {
        Some(MemoryType::BootServicesData)
    } else if code == 5 {
        Some(MemoryType::RuntimeServicesCode)
    } else if code == 6 {
        Some(MemoryType::RuntimeServicesData)
    } else if code == 7 {
        Some(MemoryType::Conventional)
    } else if code == 8 {
        Some(MemoryType::Unusable)
    } else if code == 9 {
        Some(MemoryType::AcpiReclaimable)
    } else if code == 10 {
        Some(MemoryType::AcpiMemoryNvs)
    } else if code == 11 {
        Some(MemoryType::MemoryMappedIo)
    } else if code == 12 {
        Some(MemoryType::MemoryMappedIoPortSpace)
    } else if code == 13 {
        Some(MemoryType::PalCode)
    } else {
        None
    }
}

impl MemoryType {
    /// The classification with firmware number `code`, if there is one.
    pub fn from_code(code: u32) -> (r: Option<MemoryType>)
        ensures
            r == memory_type_of(code),
            r.is_some() <==> code <= 13,
            r matches Some(t) ==> memory_type_code(t) == code,
    {
        match code {
            0 => Some(MemoryType::Reserved),
            1 => Some(MemoryType::LoaderCode),
            2 => Some(MemoryType::LoaderData),
            3 => Some(MemoryType::BootServicesCode),
            4 => Some(MemoryType::BootServicesData),
            5 => Some(MemoryType::RuntimeServicesCode),
            6 => Some(MemoryType::RuntimeServicesData),
            7 => Some(MemoryType::Conventional),
            8 => Some(MemoryType::Unusable),
            9 => Some(MemoryType::AcpiReclaimable),
            10 => Some(MemoryType::AcpiMemoryNvs),
            11 => Some(MemoryType::MemoryMappedIo),
            12 => Some(MemoryType::MemoryMappedIoPortSpace),
            13 => Some(MemoryType::PalCode),
            _ => None,
        }
    }

    /// The firmware number of this classification.
    pub fn code(&self) -> (r: u32)
        ensures
            r == memory_type_code(*self),
    {
        match *self {
            MemoryType::Reserved => 0,
            MemoryType::LoaderCode => 1,
            MemoryType::LoaderData => 2,
            MemoryType::BootServicesCode => 3,
            MemoryType::BootServicesData => 4,
            MemoryType::RuntimeServicesCode => 5,
            MemoryType::RuntimeServicesData => 6,
            MemoryType::Conventional => 7,
            MemoryType::Unusable => 8,
            MemoryType::AcpiReclaimable => 9,
            MemoryType::AcpiMemoryNvs => 10,
            MemoryType::MemoryMappedIo => 11,
            MemoryType::MemoryMappedIoPortSpace => 12,
            MemoryType::PalCode => 13,
        }
    }
}

/// The firmware's page-allocation strategies.
#[derive(Clone, Copy, Debug, PartialEq, Eq, Structural)]
pub enum AllocType {
    AnyPages,
    MaxAddress,
    Address,
}

/// Where a page allocation may be placed.
#[derive(Clone, Copy, Debug, PartialEq, Eq, Structural)]
pub enum AllocAt {
    Anywhere,
    /// Anywhere below the given address.
    Below(u64),
    /// Exactly at the given address.
    At(u64),
}

/// The arguments of one page-allocation call to the firmware.
#[derive(Clone, Copy, Debug, PartialEq, Eq, Structural)]
pub struct PageRequest {
    pub alloc_type: AllocType,
    pub memory_type: MemoryType,
    pub count: usize,
    /// The address hint; zero for `AnyPages`.
    pub address: u64,
}

/// Turns a placement into the firmware's strategy and address hint.
/// There is no request for a page count whose size in bytes does not fit in
/// `usize`.
pub fn page_request(at: AllocAt, memory_type: MemoryType, count: usize) -> (r: Option<PageRequest>)
    ensures
        r.is_some() <==> count * PAGE_SIZE <= usize::MAX,
        r matches Some(q) ==> q.memory_type == memory_type && q.count == count && match at {
            AllocAt::Anywhere => q.alloc_type == AllocType::AnyPages && q.address == 0,
            AllocAt::Below(a) => q.alloc_type == AllocType::MaxAddress && q.address == a,
            AllocAt::At(a) => q.alloc_type == AllocType::Address && q.address == a,
        },
{
    if count > usize::MAX / PAGE_SIZE {
        return None;
    }
    let (alloc_type, address) = match at {
        AllocAt::Anywhere => (AllocType::AnyPages, 0u64),
        AllocAt::Below(a) => (AllocType::MaxAddress, a),
        AllocAt::At(a) => (AllocType::Address, a),
    };
    Some(PageRequest { alloc_type, memory_type, count, address })
}

/// An owned run of pages. Its pages go back to the firmware exactly once:
/// `release` consumes it and says which pages to free.
#[derive(Debug)]
pub struct PageAlloc {
    ptr: u64,
    count: usize,
}

/// The arguments of the one page-free call that ends a `PageAlloc`.
#[derive(Clone, Copy, Debug, PartialEq, Eq, Structural)]
pub struct PageFree {
    pub address: u64,
    pub count: usize,
}

impl PageAlloc {
    pub closed spec fn spec_ptr(&self) -> u64 {
        self.ptr
    }

    pub closed spec fn spec_count(&self) -> usize {
        self.count
    }

    pub closed spec fn wf(&self) -> bool {
        self.count * PAGE_SIZE <= usize::MAX
    }

    pub fn get_ptr(&self) -> (r: u64)
        ensures
            r == self.spec_ptr(),
    {
        self.ptr
    }

    pub fn get_count(&self) -> (r: usize)
        ensures
            r == self.spec_count(),
    {
        self.count
    }

    /// The size of the allocation in bytes.
    pub fn get_size(&self) -> (r: usize)
        requires
            self.wf(),
        ensures
            r == self.spec_count() * PAGE_SIZE,
    {
        self.count * PAGE_SIZE
    }

    /// Ends the allocation: the firmware is to free exactly these pages.
    pub fn release(self) -> (r: PageFree)
        ensures
            r.address == self.spec_ptr(),
            r.count == self.spec_count(),
    {
        PageFree { address: self.ptr, count: self.count }
    }
}

/// Takes the firmware's reply to the page-allocation call for `request`:
/// on success the pages at `address` are owned by the result.
pub fn alloc_pages(request: &PageRequest, status: Status, address: u64) -> (r: Option<PageAlloc>)
    requires
        request.count * PAGE_SIZE <= usize::MAX,
    ensures
        r.is_some() <==> status == Status::Success,
        r matches Some(p) ==> p.spec_ptr() == address && p.spec_count() == request.count && p.wf(),
{
    if status.is_success() {
        Some(PageAlloc { ptr: address, count: request.count })
    } else {
        None
    }
}

/// One record of the memory map.
#[derive(Clone, Copy, Debug, PartialEq, Eq, Structural)]
pub struct MemoryDescriptor {
    pub typ: u32,
    pub pad: u32,
    pub phys: u64,
    pub virt: u64,
    pub count: u64,
    pub attribute: u64,
}

/// The descriptor record that the bytes of `b` from `at` encode.
pub open spec fn descriptor_at(b: Seq<u8>, at: int) -> MemoryDescriptor {
    MemoryDescriptor {
        typ: le_value(b, at, 4) as u32,
        pad: le_value(b, at + 4, 4) as u32,
        phys: le_value(b, at + 8, 8) as u64,
        virt: le_value(b, at + 16, 8) as u64,
        count: le_value(b, at + 24, 8) as u64,
        attribute: le_value(b, at + 32, 8) as u64,
    }
}

/// A point-in-time copy of the physical memory map: the firmware's buffer
/// and the stride between its records.
pub struct MemoryMap {
    mem: Vec<u8>,
    descriptor_size: usize,
}

impl MemoryMap {
    pub closed spec fn spec_bytes(&self) -> Seq<u8> {
        self.mem@
    }

    pub closed spec fn spec_stride(&self) -> usize {
        self.descriptor_size
    }

    /// Records are never shorter than the nominal descriptor.
    pub open spec fn wf(&self) -> bool {
        self.spec_stride() >= DESCRIPTOR_SIZE
    }

    /// How many whole records the snapshot holds.
    pub open spec fn spec_count(&self) -> nat {
        self.spec_bytes().len() / (self.spec_stride() as nat)
    }

    /// The byte offset of record `i`.
    pub open spec fn spec_offset(&self, i: int) -> int {
        i * self.spec_stride()
    }

    /// Record `i`, read at the firmware's stride.
    pub open spec fn spec_descriptor(&self, i: int) -> MemoryDescriptor {
        descriptor_at(self.spec_bytes(), self.spec_offset(i))
    }

    /// A snapshot of `mem`, whose records lie `descriptor_size` bytes apart.
    pub fn new(mem: Vec<u8>, descriptor_size: usize) -> (r: Option<MemoryMap>)
        ensures
            r.is_some() <==> descriptor_size >= DESCRIPTOR_SIZE,
            r matches Some(m) ==> m.wf() && m.spec_bytes() == mem@ && m.spec_stride()
                == descriptor_size,
    {
        if descriptor_size >= DESCRIPTOR_SIZE {
            Some(MemoryMap { mem, descriptor_size })
        } else {
            None
        }
    }

    /// The size of the snapshot in bytes.
    pub fn get_size(&self) -> (r: usize)
        ensures
            r == self.spec_bytes().len(),
    {
        self.mem.len()
    }

    pub fn get_descriptor_size(&self) -> (r: usize)
        ensures
            r == self.spec_stride(),
    {
        self.descriptor_size
    }

    pub fn get_descriptor_count(&self) -> (r: usize)
        requires
            self.wf(),
        ensures
            r == self.spec_count(),
    {
        self.mem.len() / self.descriptor_size
    }

    /// Record `index`, read at `index` times the stride.
    pub fn get_descriptor(&self, index: usize) -> (r: MemoryDescriptor)
        requires
            self.wf(),
            index < self.spec_count(),
        ensures
            r == self.spec_descriptor(index as int),
    {
        proof {
            self.lemma_record_in_bounds(index as int);
        }
        let b = self.mem.as_slice();
        let _n = b.len();
        let at = index * self.descriptor_size;
        MemoryDescriptor {
            typ: read_u32(b, at),
            pad: read_u32(b, at + 4),
            phys: read_u64(b, at + 8),
            virt: read_u64(b, at + 16),
            count: read_u64(b, at + 24),
            attribute: read_u64(b, at + 32),
        }
    }

    /// Every record below the count ends inside the snapshot.
    pub proof fn lemma_record_in_bounds(&self, i: int)
        requires
            self.wf(),
            0 <= i < self.spec_count(),
        ensures
            0 <= self.spec_offset(i),
            self.spec_offset(i) + self.spec_stride() <= self.spec_bytes().len(),
    {
        let s = self.spec_stride() as int;
        let n = self.spec_bytes().len() as int;
        assert(0 <= i * s) by (nonlinear_arith)
            requires
                0 <= i,
                0 < s,
        ;
        assert(i * s + s <= n) by (nonlinear_arith)
            requires
                0 <= i < n / s,
                0 < s,
        ;
    }

    /// Walking by the reported stride visits exactly `size / stride` records,
    /// and the last of them ends at or before `size`.
    pub proof fn lemma_stride_walk(&self)
        requires
            self.wf(),
        ensures
            self.spec_count() == self.spec_bytes().len() / (self.spec_stride() as nat),
            self.spec_count() > 0 ==> self.spec_offset(self.spec_count() - 1) + self.spec_stride()
                <= self.spec_bytes().len(),
            self.spec_offset(self.spec_count() as int) + self.spec_stride()
                > self.spec_bytes().len(),
    {
        let s = self.spec_stride() as int;
        let n = self.spec_bytes().len() as int;
        let c = self.spec_count() as int;
        if c > 0 {
            self.lemma_record_in_bounds(c - 1);
        }
        assert(c * s + s > n) by (nonlinear_arith)
            requires
                c == n / s,
                0 < s,
                0 <= n,
        ;
    }

    /// All records of the snapshot, in order.
    pub fn descriptors(&self) -> (r: Vec<MemoryDescriptor>)
        requires
            self.wf(),
        ensures
            r@.len() == self.spec_count(),
            forall|i: int| 0 <= i < r@.len() ==> r@[i] == self.spec_descriptor(i),
    {
        let n = self.get_descriptor_count();
        let mut r: Vec<MemoryDescriptor> = Vec::new();
        let mut i: usize = 0;
        while i < n
            invariant
                self.wf(),
                n == self.spec_count(),
                i <= n,
                r@.len() == i,
                forall|j: int| 0 <= j < i ==> r@[j] == self.spec_descriptor(j),
            decreases n - i,
        {
            r.push(self.get_descriptor(i));
            i = i + 1;
        }
        r
    }

    /// A walk over the regions of the snapshot, from the first record.
    pub fn iter(&self) -> (r: MemoryMapIterator<'_>)
        ensures
            r.spec_map() == self,
            r.spec_index() == 0,
    {
        MemoryMapIterator { map: self, index: 0 }
    }
}

/// One region of the memory map: its physical start, its size in bytes and
/// its classification (unknown codes read as `Reserved`).
pub open spec fn region_of(d: MemoryDescriptor) -> (u64, u128, MemoryType) {
    (
        d.phys,
        (d.count * PAGE_SIZE) as u128,
        match memory_type_of(d.typ) {
            Some(t) => t,
            None => MemoryType::Reserved,
        },
    )
}

/// A walk over a memory map, one record per step.
pub struct MemoryMapIterator<'a> {
    map: &'a MemoryMap,
    index: usize,
}

impl<'a> MemoryMapIterator<'a> {
    pub closed spec fn spec_map(&self) -> &'a MemoryMap {
        self.map
    }

    pub closed spec fn spec_index(&self) -> usize {
        self.index
    }

    /// The next region, or `None` once every record has been visited.
    pub fn next(&mut self) -> (r: Option<(u64, u128, MemoryType)>)
        requires
            old(self).spec_map().wf(),
        ensures
            final(self).spec_map() == old(self).spec_map(),
            old(self).spec_index() < old(self).spec_map().spec_count() ==> final(self).spec_index()
                == old(self).spec_index() + 1 && r == Some(
                region_of(old(self).spec_map().spec_descriptor(old(self).spec_index() as int)),
            ),
            old(self).spec_index() >= old(self).spec_map().spec_count() ==> final(self).spec_index()
                == old(self).spec_index() && r.is_none(),
    {
        if self.index >= self.map.get_descriptor_count() {
            return None;
        }
        let d = self.map.get_descriptor(self.index);
        self.index = self.index + 1;
        let typ = match MemoryType::from_code(d.typ) {
            Some(t) => t,
            None => MemoryType::Reserved,
        };
        Some((d.phys, d.count as u128 * PAGE_SIZE as u128, typ))
    }
}

} // verus!
