//! Boot services: pool allocation replies, the two-phase memory-map query
//! and the growing-buffer enumeration of handles by capability.

use vstd::prelude::*;
use vstd::math::min;
use crate::memory::{MemoryMap, DESCRIPTOR_SIZE};
use crate::status::{Guid, Handle, Status};

verus! {

/// Handles asked for on the first enumeration call.
pub const INITIAL_HANDLES: usize = 32;

/// The most handles an enumeration will make room for.
pub const MAX_HANDLES: usize = 0x10_0000;

/// Task priority levels.
#[derive(Clone, Copy, Debug, PartialEq, Eq, Structural)]
pub enum Tpl {
    Application,
    Callback,
    Notify,
    HighLevel,
}

pub open spec fn tpl_level(t: Tpl) -> usize {
    match t {
        Tpl::Application => 4,
        Tpl::Callback => 8,
        Tpl::Notify => 16,
        Tpl::HighLevel => 31,
    }
}

impl Tpl {
    /// The firmware's number for this level.
    pub fn level(&self) -> (r: usize)
        ensures
            r == tpl_level(*self),
    {
        match *self {
            Tpl::Application => 4,
            Tpl::Callback => 8,
            Tpl::Notify => 16,
            Tpl::HighLevel => 31,
        }
    }
}

/// How a timer event is armed.
#[derive(Clone, Copy, Debug, PartialEq, Eq, Structural)]
pub enum TimerType {
    Cancel,
    Periodic,
    Relative,
}

pub open spec fn timer_type_code(t: TimerType) -> usize {
    match t {
        TimerType::Cancel => 0,
        TimerType::Periodic => 1,
        TimerType::Relative => 2,
    }
}

impl TimerType {
    /// The firmware's number for this timer type.
    pub fn code(&self) -> (r: usize)
        ensures
            r == timer_type_code(*self),
    {
        match *self {
            TimerType::Cancel => 0,
            TimerType::Periodic => 1,
            TimerType::Relative => 2,
        }
    }
}

/// The boot-services table, known by its address.
#[derive(Clone, Copy, Debug, PartialEq, Eq, Structural)]
pub struct BootServices {
    table: u64,
}

/// An enumeration of the handles that expose one capability. The buffer
/// offered to the firmware starts at `INITIAL_HANDLES` entries and doubles
/// each time the firmware reports it too small.
#[derive(Clone, Copy, Debug, PartialEq, Eq, Structural)]
pub struct HandleSearch {
    guid: Guid,
    capacity: usize,
}

/// What an enumeration does after a firmware reply.
#[derive(Debug)]
pub enum SearchStep {
    /// Call again with a buffer of this many handles.
    Retry(usize),
    /// The enumeration is complete.
    Found(Vec<Handle>),
    /// The firmware failed for another reason, or the buffer would exceed
    /// `MAX_HANDLES`.
    Failed(Status),
}

impl HandleSearch {
    pub closed spec fn spec_guid(&self) -> Guid {
        self.guid
    }

    pub closed spec fn spec_capacity(&self) -> usize {
        self.capacity
    }

    pub open spec fn wf(&self) -> bool {
        INITIAL_HANDLES <= self.spec_capacity() <= MAX_HANDLES
    }

    pub fn guid(&self) -> (r: Guid)
        ensures
            r == self.spec_guid(),
    {
        self.guid
    }

    /// How many handles the next call's buffer holds.
    pub fn capacity(&self) -> (r: usize)
        ensures
            r == self.spec_capacity(),
    {
        self.capacity
    }

    /// Takes the firmware's reply to a call made with a buffer of
    /// `capacity()` handles: its status, the size in bytes it reported, the
    /// size of one handle, and the buffer as the firmware left it.
    pub fn step(&mut self, status: Status, reported_bytes: usize, handle_size: usize, buffer: Vec<Handle>) -> (r: SearchStep)
        requires
            old(self).wf(),
            handle_size > 0,
            buffer@.len() == old(self).spec_capacity(),
        ensures
            final(self).wf(),
            final(self).spec_guid() == old(self).spec_guid(),
            status == Status::Success ==> *final(self) == *old(self) && (r matches SearchStep::Found(v) && v@
                == buffer@.subrange(0, min(reported_bytes as int / handle_size as int, buffer@.len() as int))),
            status == Status::BufferTooSmall && old(self).spec_capacity() * 2 <= MAX_HANDLES
                ==> final(self).spec_capacity() == old(self).spec_capacity() * 2 && r
                == SearchStep::Retry(final(self).spec_capacity()),
            status == Status::BufferTooSmall && old(self).spec_capacity() * 2 > MAX_HANDLES
                ==> *final(self) == *old(self) && r == SearchStep::Failed(Status::BufferTooSmall),
            status != Status::Success && status != Status::BufferTooSmall ==> *final(self) == *old(self)
                && r == SearchStep::Failed(status),
    {
        match status {
            Status::Success => {
                let reported = reported_bytes / handle_size;
                let count = if reported < buffer.len() { reported } else { buffer.len() };
                let mut found = buffer;
                found.truncate(count);
                SearchStep::Found(found)
            },
            Status::BufferTooSmall => {
                if self.capacity > MAX_HANDLES / 2 {
                    SearchStep::Failed(Status::BufferTooSmall)
                } else {
                    self.capacity = self.capacity * 2;
                    SearchStep::Retry(self.capacity)
                }
            },
            _ => SearchStep::Failed(status),
        }
    }
}

/// The size of the buffer for the second memory-map call: the size the
/// first call reported plus one descriptor, since allocating the buffer can
/// add a record to the map.
pub fn memory_map_buffer_size(reported_size: usize, descriptor_size: usize) -> (r: Option<usize>)
    ensures
        r.is_some() <==> reported_size + descriptor_size <= usize::MAX,
        r matches Some(n) ==> n == reported_size + descriptor_size,
{
    reported_size.checked_add(descriptor_size)
}

impl BootServices {
    pub closed spec fn spec_table(&self) -> u64 {
        self.table
    }

    /// The table at `address`.
    pub fn from_address(address: u64) -> (r: BootServices)
        ensures
            r.spec_table() == address,
    {
        BootServices { table: address }
    }

    pub fn address(&self) -> (r: u64)
        ensures
            r == self.spec_table(),
    {
        self.table
    }

    /// Takes the firmware's reply to a pool allocation: the address on
    /// success, nothing on failure (the caller decides whether to retry).
    pub fn allocate_pool(&self, status: Status, address: u64) -> (r: Option<u64>)
        ensures
            r == (if status == Status::Success { Some(address) } else { None::<u64> }),
    {
        if status.is_success() {
            Some(address)
        } else {
            None
        }
    }

    /// Starts an enumeration of the handles that expose `guid`.
    pub fn handles_by_protocol(&self, guid: &Guid) -> (r: HandleSearch)
        ensures
            r.wf(),
            r.spec_guid() == *guid,
            r.spec_capacity() == INITIAL_HANDLES,
    {
        HandleSearch { guid: *guid, capacity: INITIAL_HANDLES }
    }

    /// Takes the firmware's successful reply to the second memory-map call:
    /// the buffer, the size and stride it reported and the map key. A failed
    /// second call is fatal and is left to the caller, which halts first. The
    /// snapshot holds the first `size` bytes of the buffer and the key comes
    /// back unchanged; a reply that does not fit the buffer or whose stride
    /// is shorter than a descriptor is `BadBufferSize`.
    pub fn memory_map(&self, status: Status, buffer: Vec<u8>, size: usize, descriptor_size: usize, key: usize) -> (r: Result<(MemoryMap, usize), Status>)
        requires
            status == Status::Success,
        ensures
            size > buffer@.len() || descriptor_size < DESCRIPTOR_SIZE
                ==> r == Err::<(MemoryMap, usize), Status>(Status::BadBufferSize),
            size <= buffer@.len() && descriptor_size >= DESCRIPTOR_SIZE
                ==> (r matches Ok((m, k)) && k == key && m.wf() && m.spec_bytes() == buffer@.subrange(
                0,
                size as int,
            ) && m.spec_stride() == descriptor_size),
    {
        if size > buffer.len() {
            return Err(Status::BadBufferSize);
        }
        let mut mem = buffer;
        mem.truncate(size);
        match MemoryMap::new(mem, descriptor_size) {
            Some(m) => Ok((m, key)),
            None => Err(Status::BadBufferSize),
        }
    }
}

} // verus!
