//! Plain-value stand-ins for the native runtime's opaque resource handles,
//! and the fixed-layout descriptor structs that reference them.
//!
//! The native layer hands out resources (textures, buffers, pipelines,
//! samplers) as opaque pointers. Here each one is a typed wrapper over an
//! integer handle: the recording logic never looks inside a resource, it only
//! carries the handle through to the log, so an integer identity is the whole
//! of what this layer needs. The shell that talks to the driver owns the real
//! pointers and maps them to and from these handles.

use vstd::prelude::*;

verus! {

/// An opaque texture resource, together with its dimensions as the driver
/// reported them on creation or acquisition.
#[derive(Clone, Copy, PartialEq, Eq, Structural, Debug)]
pub struct Texture {
    /// Native handle identity; `0` stands for "no texture".
    pub handle: usize,
    pub width: u32,
    pub height: u32,
}

impl Texture {
    /// Wraps a driver-reported texture handle and its dimensions.
    pub fn new(handle: usize, width: u32, height: u32) -> (t: Texture)
        ensures
            t == (Texture { handle, width, height }),
    {
        Texture { handle, width, height }
    }
}

/// An opaque GPU buffer resource.
#[derive(Clone, Copy, PartialEq, Eq, Structural, Debug)]
pub struct Buffer {
    pub handle: usize,
}

/// An opaque texture sampler resource.
#[derive(Clone, Copy, PartialEq, Eq, Structural, Debug)]
pub struct Sampler {
    pub handle: usize,
}

/// An opaque graphics (render) pipeline resource.
#[derive(Clone, Copy, PartialEq, Eq, Structural, Debug)]
pub struct GraphicsPipeline {
    pub handle: usize,
}

/// An opaque compute pipeline resource.
#[derive(Clone, Copy, PartialEq, Eq, Structural, Debug)]
pub struct ComputePipeline {
    pub handle: usize,
}

/// An opaque host-visible staging buffer used to move data between host and
/// device memory.
#[derive(Clone, Copy, PartialEq, Eq, Structural, Debug)]
pub struct TransferBuffer {
    pub handle: usize,
}

/// A vertex or index buffer bound at a byte offset.
#[derive(Clone, Copy, PartialEq, Eq, Structural, Debug)]
pub struct BufferBinding {
    pub buffer: Buffer,
    pub offset: u32,
}

/// A texture paired with the sampler used to read it from a shader.
#[derive(Clone, Copy, PartialEq, Eq, Structural, Debug)]
pub struct TextureSamplerBinding {
    pub texture: Texture,
    pub sampler: Sampler,
}

/// A source location inside a transfer buffer.
#[derive(Clone, Copy, PartialEq, Eq, Structural, Debug)]
pub struct TransferBufferLocation {
    pub transfer_buffer: TransferBuffer,
    pub offset: u32,
}

/// A byte range of a GPU buffer.
#[derive(Clone, Copy, PartialEq, Eq, Structural, Debug)]
pub struct BufferRegion {
    pub buffer: Buffer,
    pub offset: u32,
    pub size: u32,
}

/// A region of a texture: one mip level and layer, and a box within it.
#[derive(Clone, Copy, PartialEq, Eq, Structural, Debug)]
pub struct TextureRegion {
    pub texture: Texture,
    pub mip_level: u32,
    pub layer: u32,
    pub x: u32,
    pub y: u32,
    pub z: u32,
    pub w: u32,
    pub h: u32,
    pub d: u32,
}

/// How texel data is laid out inside a transfer buffer.
#[derive(Clone, Copy, PartialEq, Eq, Structural, Debug)]
pub struct TextureTransferInfo {
    pub transfer_buffer: TransferBuffer,
    pub offset: u32,
    pub pixels_per_row: u32,
    pub rows_per_layer: u32,
}

/// An 8-bit-per-channel RGBA color as callers supply it.
#[derive(Clone, Copy, PartialEq, Eq, Structural, Debug)]
pub struct Color {
    pub r: u8,
    pub g: u8,
    pub b: u8,
    pub a: u8,
}

/// A driver-reported failure, carrying the driver's last error string.
#[derive(Clone, PartialEq, Eq, Debug)]
pub struct Error {
    pub message: String,
}

impl Error {
    /// Wraps a driver error string.
    pub fn new(message: String) -> (e: Error)
        ensures
            e.message@ == message@,
    {
        Error { message }
    }
}

} // verus!
