//! The builder value object describing a blit between two texture regions.

use vstd::prelude::*;

use crate::color::{normalized, NormalizedColor};
use crate::ops::{Filter, LoadOp};
use crate::resources::{Color, Texture};

verus! {

/// One side of a blit: a texture, a mip level, and a box within one layer or
/// depth plane.
#[derive(Clone, Copy, PartialEq, Eq, Structural, Debug)]
pub struct BlitRegion {
    /// Handle of the texture; `0` while unset.
    pub texture: usize,
    pub mip_level: u32,
    pub layer_or_depth_plane: u32,
    pub x: u32,
    pub y: u32,
    pub w: u32,
    pub h: u32,
}

/// Describes a blit call: source and destination regions, what to do with
/// the destination's contents outside the blit, the sampling filter, and the
/// cycle flag for the destination.
#[derive(Clone, Copy, PartialEq, Eq, Structural, Debug)]
pub struct BlitInfo {
    pub source: BlitRegion,
    pub destination: BlitRegion,
    pub load_op: LoadOp,
    pub clear_color: NormalizedColor,
    pub filter: Filter,
    pub cycle: bool,
}

/// One field write applied to a [`BlitInfo`] by a chained setter. Each
/// variant names the deepest field a setter assigns, so writes through
/// different variants never touch the same storage.
#[derive(Clone, Copy, PartialEq, Eq, Structural, Debug)]
pub enum BlitWrite {
    SourceTexture(usize),
    SourceMip(u32),
    SourceRegion { layer_or_depth: u32, x: u32, y: u32, width: u32, height: u32 },
    DestinationTexture(usize),
    DestinationMip(u32),
    DestinationRegion { layer_or_depth: u32, x: u32, y: u32, width: u32, height: u32 },
    LoadOp(LoadOp),
    ClearColor(NormalizedColor),
    Filter(Filter),
    Cycle(bool),
}

/// The effect of one field write on a [`BlitInfo`].
pub open spec fn blit_written(b: BlitInfo, w: BlitWrite) -> BlitInfo {
    match w {
        BlitWrite::SourceTexture(h) => BlitInfo {
            source: BlitRegion { texture: h, ..b.source },
            ..b
        },
        BlitWrite::SourceMip(mip) => BlitInfo {
            source: BlitRegion { mip_level: mip, ..b.source },
            ..b
        },
        BlitWrite::SourceRegion { layer_or_depth, x, y, width, height } => BlitInfo {
            source: BlitRegion {
                layer_or_depth_plane: layer_or_depth,
                x,
                y,
                w: width,
                h: height,
                ..b.source
            },
            ..b
        },
        BlitWrite::DestinationTexture(h) => BlitInfo {
            destination: BlitRegion { texture: h, ..b.destination },
            ..b
        },
        BlitWrite::DestinationMip(mip) => BlitInfo {
            destination: BlitRegion { mip_level: mip, ..b.destination },
            ..b
        },
        BlitWrite::DestinationRegion { layer_or_depth, x, y, width, height } => BlitInfo {
            destination: BlitRegion {
                layer_or_depth_plane: layer_or_depth,
                x,
                y,
                w: width,
                h: height,
                ..b.destination
            },
            ..b
        },
        BlitWrite::LoadOp(op) => BlitInfo { load_op: op, ..b },
        BlitWrite::ClearColor(c) => BlitInfo { clear_color: c, ..b },
        BlitWrite::Filter(f) => BlitInfo { filter: f, ..b },
        BlitWrite::Cycle(c) => BlitInfo { cycle: c, ..b },
    }
}

/// Whether two writes touch the same fields of a [`BlitInfo`].
pub open spec fn blit_same_field(w1: BlitWrite, w2: BlitWrite) -> bool {
    match (w1, w2) {
        (BlitWrite::SourceTexture(_), BlitWrite::SourceTexture(_)) => true,
        (BlitWrite::SourceMip(_), BlitWrite::SourceMip(_)) => true,
        (BlitWrite::SourceRegion { .. }, BlitWrite::SourceRegion { .. }) => true,
        (BlitWrite::DestinationTexture(_), BlitWrite::DestinationTexture(_)) => true,
        (BlitWrite::DestinationMip(_), BlitWrite::DestinationMip(_)) => true,
        (BlitWrite::DestinationRegion { .. }, BlitWrite::DestinationRegion { .. }) => true,
        (BlitWrite::LoadOp(_), BlitWrite::LoadOp(_)) => true,
        (BlitWrite::ClearColor(_), BlitWrite::ClearColor(_)) => true,
        (BlitWrite::Filter(_), BlitWrite::Filter(_)) => true,
        (BlitWrite::Cycle(_), BlitWrite::Cycle(_)) => true,
        _ => false,
    }
}

/// Writes to distinct fields of a [`BlitInfo`] commute.
pub proof fn lemma_blit_writes_commute(b: BlitInfo, w1: BlitWrite, w2: BlitWrite)
    requires
        !blit_same_field(w1, w2),
    ensures
        blit_written(blit_written(b, w1), w2) == blit_written(blit_written(b, w2), w1),
{
}

/// The last write to a field of a [`BlitInfo`] wins: writing a field, then
/// another field, then the first field again, leaves the same value as the
/// other field's write followed by only the final write.
pub proof fn lemma_blit_last_write_wins(b: BlitInfo, w1: BlitWrite, w2: BlitWrite, w3: BlitWrite)
    requires
        blit_same_field(w1, w3),
        !blit_same_field(w2, w3),
    ensures
        blit_written(blit_written(blit_written(b, w1), w2), w3) == blit_written(
            blit_written(b, w2),
            w3,
        ),
{
}

impl Default for BlitInfo {
    /// The zero-initialized descriptor.
    fn default() -> (b: Self)
        ensures
            b == BlitInfo::zeroed(),
    {
        BlitInfo {
            source: BlitRegion {
                texture: 0,
                mip_level: 0,
                layer_or_depth_plane: 0,
                x: 0,
                y: 0,
                w: 0,
                h: 0,
            },
            destination: BlitRegion {
                texture: 0,
                mip_level: 0,
                layer_or_depth_plane: 0,
                x: 0,
                y: 0,
                w: 0,
                h: 0,
            },
            load_op: LoadOp::Load,
            clear_color: NormalizedColor { r_bits: 0, g_bits: 0, b_bits: 0, a_bits: 0 },
            filter: Filter::Nearest,
            cycle: false,
        }
    }
}

impl BlitInfo {
    /// The zero-initialized descriptor value.
    pub open spec fn zeroed() -> BlitInfo {
        BlitInfo {
            source: BlitRegion {
                texture: 0,
                mip_level: 0,
                layer_or_depth_plane: 0,
                x: 0,
                y: 0,
                w: 0,
                h: 0,
            },
            destination: BlitRegion {
                texture: 0,
                mip_level: 0,
                layer_or_depth_plane: 0,
                x: 0,
                y: 0,
                w: 0,
                h: 0,
            },
            load_op: LoadOp::Load,
            clear_color: NormalizedColor { r_bits: 0, g_bits: 0, b_bits: 0, a_bits: 0 },
            filter: Filter::Nearest,
            cycle: false,
        }
    }

    /// Sets the source texture.
    pub fn with_source_texture(self, texture: &Texture) -> (b: Self)
        ensures
            b == blit_written(self, BlitWrite::SourceTexture(texture.handle)),
    {
        BlitInfo { source: BlitRegion { texture: texture.handle, ..self.source }, ..self }
    }

    /// Sets the source mip level.
    pub fn with_source_mip(self, mip_level: u32) -> (b: Self)
        ensures
            b == blit_written(self, BlitWrite::SourceMip(mip_level)),
    {
        BlitInfo { source: BlitRegion { mip_level, ..self.source }, ..self }
    }

    /// Sets the source box: a layer or depth plane, and an offset and extent
    /// within it.
    pub fn with_source_region(
        self,
        layer_or_depth: u32,
        x: u32,
        y: u32,
        width: u32,
        height: u32,
    ) -> (b: Self)
        ensures
            b == blit_written(
                self,
                BlitWrite::SourceRegion { layer_or_depth, x, y, width, height },
            ),
    {
        BlitInfo {
            source: BlitRegion {
                layer_or_depth_plane: layer_or_depth,
                x,
                y,
                w: width,
                h: height,
                ..self.source
            },
            ..self
        }
    }

    /// Sets the destination texture.
    pub fn with_destination_texture(self, texture: &Texture) -> (b: Self)
        ensures
            b == blit_written(self, BlitWrite::DestinationTexture(texture.handle)),
    {
        BlitInfo {
            destination: BlitRegion { texture: texture.handle, ..self.destination },
            ..self
        }
    }

    /// Sets the destination mip level.
    pub fn with_destination_mip(self, mip_level: u32) -> (b: Self)
        ensures
            b == blit_written(self, BlitWrite::DestinationMip(mip_level)),
    {
        BlitInfo { destination: BlitRegion { mip_level, ..self.destination }, ..self }
    }

    /// Sets the destination box: a layer or depth plane, and an offset and
    /// extent within it.
    pub fn with_destination_region(
        self,
        layer_or_depth: u32,
        x: u32,
        y: u32,
        width: u32,
        height: u32,
    ) -> (b: Self)
        ensures
            b == blit_written(
                self,
                BlitWrite::DestinationRegion { layer_or_depth, x, y, width, height },
            ),
    {
        BlitInfo {
            destination: BlitRegion {
                layer_or_depth_plane: layer_or_depth,
                x,
                y,
                w: width,
                h: height,
                ..self.destination
            },
            ..self
        }
    }

    /// Sets what happens to the destination's contents outside the blit.
    pub fn with_load_op(self, load_op: LoadOp) -> (b: Self)
        ensures
            b == blit_written(self, BlitWrite::LoadOp(load_op)),
    {
        BlitInfo { load_op, ..self }
    }

    /// Sets the clear color used when the load operation clears; the 8-bit
    /// channels are stored normalized to `[0, 1]`, each divided by 255.
    pub fn with_clear_color(self, clear_color: Color) -> (b: Self)
        ensures
            b == blit_written(self, BlitWrite::ClearColor(normalized(clear_color))),
    {
        let nc = crate::color::normalize_color(clear_color);
        BlitInfo { clear_color: nc, ..self }
    }

    /// Sets the sampling filter.
    pub fn with_filter(self, filter: Filter) -> (b: Self)
        ensures
            b == blit_written(self, BlitWrite::Filter(filter)),
    {
        BlitInfo { filter, ..self }
    }

    /// Sets whether the driver may cycle the destination's backing
    /// allocation.
    pub fn with_cycle(self, cycle: bool) -> (b: Self)
        ensures
            b == blit_written(self, BlitWrite::Cycle(cycle)),
    {
        BlitInfo { cycle, ..self }
    }
}

} // verus!
