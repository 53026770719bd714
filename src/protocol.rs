//! Capability discovery: each protocol type names its fixed identifier, and a
//! handle's lookup reply becomes a typed interface only when it is usable.

use vstd::prelude::*;
use crate::bytes::{read_u64, le_value};
use crate::status::{Guid, Handle, Status};

verus! {

/// A firmware capability with a fixed identifier, reached through the
/// address of its interface structure.
pub trait Protocol: Sized {
    spec fn spec_guid() -> Guid;

    spec fn spec_interface(&self) -> u64;

    /// The capability's identifier.
    fn guid() -> (r: Guid)
        ensures
            r == Self::spec_guid(),
    ;

    /// A view of the interface structure at `address`.
    fn from_interface(address: u64) -> (r: Self)
        ensures
            r.spec_interface() == address,
    ;
}

/// The arguments of one capability lookup: which handle, which identifier.
#[derive(Clone, Copy, Debug, PartialEq, Eq, Structural)]
pub struct ProtocolQuery {
    pub handle: Handle,
    pub guid: Guid,
}

/// A lookup reply names a usable interface: the firmware reported success
/// and a non-null address.
pub open spec fn lookup_found(status: Status, interface: u64) -> bool {
    status == Status::Success && interface != 0
}

impl Handle {
    /// What to ask the firmware to find capability `T` on this handle.
    pub fn protocol_query<T: Protocol>(&self) -> (r: ProtocolQuery)
        ensures
            r.handle == *self,
            r.guid == T::spec_guid(),
    {
        ProtocolQuery { handle: *self, guid: T::guid() }
    }

    /// Takes the firmware's reply to the lookup of capability `T` on this
    /// handle: the interface when the firmware reported success with a
    /// non-null address, and nothing otherwise.
    pub fn get_protocol<T: Protocol>(&self, status: Status, interface: u64) -> (r: Option<T>)
        ensures
            r.is_some() <==> lookup_found(status, interface),
            r matches Some(p) ==> p.spec_interface() == interface && interface != 0,
    {
        if status.is_success() && interface != 0 {
            Some(T::from_interface(interface))
        } else {
            None
        }
    }
}

/// The loaded-image capability: facts about a running image.
#[derive(Clone, Copy, Debug, PartialEq, Eq, Structural)]
pub struct LoadedImage {
    interface: u64,
}

/// The offset of the device handle in a loaded-image record (64-bit).
pub const LOADED_IMAGE_DEVICE_OFFSET: usize = 24;

impl Protocol for LoadedImage {
    open spec fn spec_guid() -> Guid {
        Guid(0x5B1B31A1, 0x9562, 0x11D2, 0x8E, 0x3F, 0x00, 0xA0, 0xC9, 0x69, 0x72, 0x3B)
    }

    closed spec fn spec_interface(&self) -> u64 {
        self.interface
    }

    fn guid() -> (r: Guid) {
        Guid(0x5B1B31A1, 0x9562, 0x11D2, 0x8E, 0x3F, 0x00, 0xA0, 0xC9, 0x69, 0x72, 0x3B)
    }

    fn from_interface(address: u64) -> (r: Self) {
        LoadedImage { interface: address }
    }
}

impl LoadedImage {
    pub fn interface(&self) -> (r: u64)
        ensures
            r == self.spec_interface(),
    {
        self.interface
    }

    /// The handle of the device the image was loaded from, read from the
    /// bytes of this interface's record; nothing when they are too short.
    pub fn get_device(&self, record: &[u8]) -> (r: Option<Handle>)
        ensures
            r.is_some() <==> record@.len() >= LOADED_IMAGE_DEVICE_OFFSET + 8,
            r matches Some(h) ==> h.spec_address() == le_value(
                record@,
                LOADED_IMAGE_DEVICE_OFFSET as int,
                8,
            ),
    {
        if record.len() < LOADED_IMAGE_DEVICE_OFFSET + 8 {
            return None;
        }
        Some(Handle::from_address(read_u64(record, LOADED_IMAGE_DEVICE_OFFSET)))
    }
}

} // verus!
