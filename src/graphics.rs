//! Graphics output: mode records, the linear framebuffer and hardware fills.

use vstd::prelude::*;
use crate::bytes::{read_u32, read_u64, le_value};
use crate::protocol::Protocol;
use crate::status::{Guid, Status};

verus! {

/// The size in bytes of a mode-information record.
pub const MODE_INFO_SIZE: usize = 36;

/// The size in bytes of the current-mode record (64-bit firmware).
pub const GRAPHICS_MODE_SIZE: usize = 40;

/// The bits of a pixel that each channel occupies.
#[derive(Clone, Copy, Debug, PartialEq, Eq, Structural)]
pub struct PixelBitmask {
    pub red: u32,
    pub green: u32,
    pub blue: u32,
    pub reserved: u32,
}

/// A display mode: resolution, pixel format, channel masks and the number of
/// pixels per scanline.
#[derive(Clone, Copy, Debug, PartialEq, Eq, Structural)]
pub struct ModeInfo {
    pub version: u32,
    pub x_res: u32,
    pub y_res: u32,
    pub pixel_format: u32,
    pub bitmask: PixelBitmask,
    pub stride: u32,
}

pub open spec fn mode_info_of(b: Seq<u8>) -> ModeInfo {
    ModeInfo {
        version: le_value(b, 0, 4) as u32,
        x_res: le_value(b, 4, 4) as u32,
        y_res: le_value(b, 8, 4) as u32,
        pixel_format: le_value(b, 12, 4) as u32,
        bitmask: PixelBitmask {
            red: le_value(b, 16, 4) as u32,
            green: le_value(b, 20, 4) as u32,
            blue: le_value(b, 24, 4) as u32,
            reserved: le_value(b, 28, 4) as u32,
        },
        stride: le_value(b, 32, 4) as u32,
    }
}

impl ModeInfo {
    /// Reads a mode-information record; nothing when `b` is too short.
    pub fn parse(b: &[u8]) -> (r: Option<ModeInfo>)
        ensures
            r.is_some() <==> b@.len() >= MODE_INFO_SIZE,
            r matches Some(m) ==> m == mode_info_of(b@),
    {
        if b.len() < MODE_INFO_SIZE {
            return None;
        }
        Some(ModeInfo {
            version: read_u32(b, 0),
            x_res: read_u32(b, 4),
            y_res: read_u32(b, 8),
            pixel_format: read_u32(b, 12),
            bitmask: PixelBitmask {
                red: read_u32(b, 16),
                green: read_u32(b, 20),
                blue: read_u32(b, 24),
                reserved: read_u32(b, 28),
            },
            stride: read_u32(b, 32),
        })
    }
}

/// The current-mode record of a graphics device.
#[derive(Clone, Copy, Debug, PartialEq, Eq, Structural)]
pub struct GraphicsMode {
    pub max_mode: u32,
    pub mode: u32,
    pub mode_info: u64,
    pub info_size: u64,
    pub framebuffer_base: u64,
    pub framebuffer_size: u64,
}

pub open spec fn graphics_mode_of(b: Seq<u8>) -> GraphicsMode {
    GraphicsMode {
        max_mode: le_value(b, 0, 4) as u32,
        mode: le_value(b, 4, 4) as u32,
        mode_info: le_value(b, 8, 8) as u64,
        info_size: le_value(b, 16, 8) as u64,
        framebuffer_base: le_value(b, 24, 8) as u64,
        framebuffer_size: le_value(b, 32, 8) as u64,
    }
}

impl GraphicsMode {
    /// Reads a current-mode record; nothing when `b` is too short.
    pub fn parse(b: &[u8]) -> (r: Option<GraphicsMode>)
        ensures
            r.is_some() <==> b@.len() >= GRAPHICS_MODE_SIZE,
            r matches Some(m) ==> m == graphics_mode_of(b@),
    {
        if b.len() < GRAPHICS_MODE_SIZE {
            return None;
        }
        Some(GraphicsMode {
            max_mode: read_u32(b, 0),
            mode: read_u32(b, 4),
            mode_info: read_u64(b, 8),
            info_size: read_u64(b, 16),
            framebuffer_base: read_u64(b, 24),
            framebuffer_size: read_u64(b, 32),
        })
    }
}

/// A linear framebuffer: where it starts and how many bytes it spans. It
/// stays valid only while the mode it was read under is current.
#[derive(Clone, Copy, Debug, PartialEq, Eq, Structural)]
pub struct Framebuffer {
    pub base: u64,
    pub size: u64,
}

/// The firmware's block-transfer operations.
#[derive(Clone, Copy, Debug, PartialEq, Eq, Structural)]
pub enum BlitOperation {
    Fill,
    VideoToBuffer,
    BufferToVideo,
    VideoToVideo,
}

/// The arguments of one block-transfer call.
#[derive(Clone, Copy, Debug, PartialEq, Eq, Structural)]
pub struct BlitRequest {
    pub operation: BlitOperation,
    /// The one pixel a fill repeats.
    pub color: u32,
    pub source_x: usize,
    pub source_y: usize,
    pub destination_x: usize,
    pub destination_y: usize,
    pub width: usize,
    pub height: usize,
    pub delta: usize,
}

/// The graphics output capability.
#[derive(Clone, Copy, Debug, PartialEq, Eq, Structural)]
pub struct GraphicsOutput {
    interface: u64,
}

impl Protocol for GraphicsOutput {
    open spec fn spec_guid() -> Guid {
        Guid(0x9042A9DE, 0x23DC, 0x4A38, 0x96, 0xFB, 0x7A, 0xDE, 0xD0, 0x80, 0x51, 0x6A)
    }

    closed spec fn spec_interface(&self) -> u64 {
        self.interface
    }

    fn guid() -> (r: Guid) {
        Guid(0x9042A9DE, 0x23DC, 0x4A38, 0x96, 0xFB, 0x7A, 0xDE, 0xD0, 0x80, 0x51, 0x6A)
    }

    fn from_interface(address: u64) -> (r: Self) {
        GraphicsOutput { interface: address }
    }
}

impl GraphicsOutput {
    pub fn interface(&self) -> (r: u64)
        ensures
            r == self.spec_interface(),
    {
        self.interface
    }

    /// Takes the reply to a mode query: the mode's description, or nothing
    /// when the query failed or its record is too short.
    pub fn query_mode(&self, status: Status, info: &[u8]) -> (r: Option<ModeInfo>)
        ensures
            r.is_some() <==> status == Status::Success && info@.len() >= MODE_INFO_SIZE,
            r matches Some(m) ==> m == mode_info_of(info@),
    {
        if !status.is_success() {
            return None;
        }
        ModeInfo::parse(info)
    }

    /// How many modes the device offers.
    pub fn get_mode_count(&self, current: &GraphicsMode) -> (r: u32)
        ensures
            r == current.max_mode,
    {
        current.max_mode
    }

    /// The mode number to hand to the mode switch: every number goes to the
    /// firmware, which answers for the ones it does not offer. A switch
    /// invalidates every framebuffer view taken before it.
    pub fn set_mode(&self, mode: u32) -> (r: u32)
        ensures
            r == mode,
    {
        mode
    }

    /// The linear framebuffer of the current mode, absent when none is
    /// mapped (base address zero).
    pub fn get_framebuffer(&self, current: &GraphicsMode) -> (r: Option<Framebuffer>)
        ensures
            r.is_some() <==> current.framebuffer_base != 0,
            r matches Some(f) ==> f.base == current.framebuffer_base && f.size
                == current.framebuffer_size,
    {
        if current.framebuffer_base == 0 {
            None
        } else {
            Some(Framebuffer { base: current.framebuffer_base, size: current.framebuffer_size })
        }
    }

    /// The one block transfer that fills the `width` by `height` rectangle
    /// at (`x`, `y`) with `color`.
    pub fn fill(&self, color: u32, x: usize, y: usize, width: usize, height: usize) -> (r: BlitRequest)
        ensures
            r == (BlitRequest {
                operation: BlitOperation::Fill,
                color,
                source_x: 0,
                source_y: 0,
                destination_x: x,
                destination_y: y,
                width,
                height,
                delta: 0,
            }),
    {
        BlitRequest {
            operation: BlitOperation::Fill,
            color,
            source_x: 0,
            source_y: 0,
            destination_x: x,
            destination_y: y,
            width,
            height,
            delta: 0,
        }
    }
}

} // verus!
