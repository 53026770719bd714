//! Service tables: the common header, the system table with its well-known
//! interfaces and configuration entries, and the context a program starts
//! with.

use vstd::prelude::*;
use crate::boot::BootServices;
use crate::bytes::{read_u32, read_u64, le_value};
use crate::console::{SimpleTextInput, SimpleTextOutput};
use crate::status::{Guid, Handle};

verus! {

/// The size in bytes of a table header.
pub const TABLE_HEADER_SIZE: usize = 24;

/// The header that every service table starts with. Its declared size and
/// checksum are carried, not checked.
#[derive(Clone, Copy, Debug, PartialEq, Eq, Structural)]
pub struct TableHeader {
    pub signature: u64,
    pub revision: u32,
    pub size: u32,
    pub crc32: u32,
    pub reserved: u32,
}

pub open spec fn table_header_of(b: Seq<u8>) -> TableHeader {
    TableHeader {
        signature: le_value(b, 0, 8) as u64,
        revision: le_value(b, 8, 4) as u32,
        size: le_value(b, 12, 4) as u32,
        crc32: le_value(b, 16, 4) as u32,
        reserved: le_value(b, 20, 4) as u32,
    }
}

impl TableHeader {
    /// Reads a table header; nothing when `b` is too short.
    pub fn parse(b: &[u8]) -> (r: Option<TableHeader>)
        ensures
            r.is_some() <==> b@.len() >= TABLE_HEADER_SIZE,
            r matches Some(h) ==> h == table_header_of(b@),
    {
        if b.len() < TABLE_HEADER_SIZE {
            return None;
        }
        Some(TableHeader {
            signature: read_u64(b, 0),
            revision: read_u32(b, 8),
            size: read_u32(b, 12),
            crc32: read_u32(b, 16),
            reserved: read_u32(b, 20),
        })
    }
}

/// A service table: its header and the services behind it.
#[derive(Debug)]
pub struct Table<T> {
    header: TableHeader,
    inner: T,
}

impl<T> Table<T> {
    pub closed spec fn spec_header(&self) -> TableHeader {
        self.header
    }

    pub closed spec fn spec_inner(&self) -> &T {
        &self.inner
    }

    pub fn new(header: TableHeader, inner: T) -> (r: Table<T>)
        ensures
            r.spec_header() == header,
            *r.spec_inner() == inner,
    {
        Table { header, inner }
    }

    pub fn header(&self) -> (r: &TableHeader)
        ensures
            *r == self.spec_header(),
    {
        &self.header
    }

    /// The services behind the header.
    pub fn deref(&self) -> (r: &T)
        ensures
            r == self.spec_inner(),
    {
        &self.inner
    }
}

/// The runtime-services table, known by its address.
#[derive(Clone, Copy, Debug, PartialEq, Eq, Structural)]
pub struct RuntimeServices {
    table: u64,
}

impl RuntimeServices {
    pub closed spec fn spec_table(&self) -> u64 {
        self.table
    }

    pub fn from_address(address: u64) -> (r: RuntimeServices)
        ensures
            r.spec_table() == address,
    {
        RuntimeServices { table: address }
    }

    pub fn address(&self) -> (r: u64)
        ensures
            r == self.spec_table(),
    {
        self.table
    }
}

/// One configuration-table entry: an identifier and the address it names.
#[derive(Clone, Copy, Debug, PartialEq, Eq, Structural)]
pub struct ConfigEntry {
    pub guid: Guid,
    pub ptr: u64,
}

/// The console interfaces that the system table names.
#[derive(Clone, Copy, Debug, PartialEq, Eq, Structural)]
pub struct Consoles {
    pub console_in_handle: Handle,
    pub console_in: SimpleTextInput,
    pub console_out_handle: Handle,
    pub console_out: SimpleTextOutput,
    pub standard_error_handle: Handle,
    pub standard_error: SimpleTextOutput,
}

/// The system table.
#[derive(Debug)]
pub struct System {
    firmware_revision: u32,
    consoles: Consoles,
    runtime_services: Table<RuntimeServices>,
    boot_services: Table<BootServices>,
    config_table: Vec<ConfigEntry>,
}

impl System {
    pub closed spec fn spec_consoles(&self) -> Consoles {
        self.consoles
    }

    pub closed spec fn spec_boot_services(&self) -> &Table<BootServices> {
        &self.boot_services
    }

    pub closed spec fn spec_runtime_services(&self) -> &Table<RuntimeServices> {
        &self.runtime_services
    }

    pub closed spec fn spec_config_table(&self) -> Seq<ConfigEntry> {
        self.config_table@
    }

    pub closed spec fn spec_firmware_revision(&self) -> u32 {
        self.firmware_revision
    }

    pub fn new(
        firmware_revision: u32,
        consoles: Consoles,
        runtime_services: Table<RuntimeServices>,
        boot_services: Table<BootServices>,
        config_table: Vec<ConfigEntry>,
    ) -> (r: System)
        ensures
            r.spec_firmware_revision() == firmware_revision,
            r.spec_consoles() == consoles,
            *r.spec_runtime_services() == runtime_services,
            *r.spec_boot_services() == boot_services,
            r.spec_config_table() == config_table@,
    {
        System { firmware_revision, consoles, runtime_services, boot_services, config_table }
    }

    pub fn get_firmware_revision(&self) -> (r: u32)
        ensures
            r == self.spec_firmware_revision(),
    {
        self.firmware_revision
    }

    pub fn get_stdin(&self) -> (r: &SimpleTextInput)
        ensures
            *r == self.spec_consoles().console_in,
    {
        &self.consoles.console_in
    }

    pub fn get_stdout(&self) -> (r: &SimpleTextOutput)
        ensures
            *r == self.spec_consoles().console_out,
    {
        &self.consoles.console_out
    }

    pub fn get_stderr(&self) -> (r: &SimpleTextOutput)
        ensures
            *r == self.spec_consoles().standard_error,
    {
        &self.consoles.standard_error
    }

    pub fn get_boot_services(&self) -> (r: &Table<BootServices>)
        ensures
            r == self.spec_boot_services(),
    {
        &self.boot_services
    }

    pub fn get_runtime_services(&self) -> (r: &Table<RuntimeServices>)
        ensures
            r == self.spec_runtime_services(),
    {
        &self.runtime_services
    }

    /// The configuration entries, for bounds-checked reading.
    pub fn get_config_table(&self) -> (r: &[ConfigEntry])
        ensures
            r@ == self.spec_config_table(),
    {
        self.config_table.as_slice()
    }
}

/// What a program starts with: the handle of its own image and the system
/// table. It is made once, at entry, and handed to everything after.
#[derive(Debug)]
pub struct Context {
    image: Handle,
    system: Table<System>,
}

impl Context {
    pub closed spec fn spec_image(&self) -> Handle {
        self.image
    }

    pub closed spec fn spec_system(&self) -> &Table<System> {
        &self.system
    }

    pub fn new(image: Handle, system: Table<System>) -> (r: Context)
        ensures
            r.spec_image() == image,
            *r.spec_system() == system,
    {
        Context { image, system }
    }

    pub fn get_system_table(&self) -> (r: &Table<System>)
        ensures
            r == self.spec_system(),
    {
        &self.system
    }

    pub fn get_boot_services(&self) -> (r: BootServices)
        ensures
            r == *self.spec_system().spec_inner().spec_boot_services().spec_inner(),
    {
        *self.system.deref().get_boot_services().deref()
    }

    pub fn get_runtime_services(&self) -> (r: RuntimeServices)
        ensures
            r == *self.spec_system().spec_inner().spec_runtime_services().spec_inner(),
    {
        *self.system.deref().get_runtime_services().deref()
    }

    pub fn get_current_image(&self) -> (r: Handle)
        ensures
            r == self.spec_image(),
    {
        self.image
    }
}

} // verus!
