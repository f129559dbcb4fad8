//! Builder value objects describing the attachments of a render pass.
//!
//! Both builders follow the native layout: a zero-initialized value mutated
//! field by field through chained setters, each of which takes ownership and
//! returns the updated value. Every setter's contract states it as one field
//! write, so the builder laws — writes to distinct fields commute, and a later
//! write to the same field wins — are proved once per builder over the
//! abstract field writes.

use vstd::prelude::*;

use crate::color::{normalized, NormalizedColor};
use crate::ops::{LoadOp, StoreOp};
use crate::resources::{Color, Texture};

verus! {

/// Describes one color attachment of a render pass: the target texture, what
/// to do with its contents at the beginning and end of the pass, and the
/// clear color used when the load operation clears.
#[derive(Clone, Copy, PartialEq, Eq, Structural, Debug)]
pub struct ColorTargetInfo {
    /// Handle of the target texture; `0` while unset.
    pub texture: usize,
    pub load_op: LoadOp,
    pub store_op: StoreOp,
    pub clear_color: NormalizedColor,
}

/// One field write applied to a [`ColorTargetInfo`] by a chained setter.
#[derive(Clone, Copy, PartialEq, Eq, Structural, Debug)]
pub enum ColorTargetWrite {
    Texture(usize),
    LoadOp(LoadOp),
    StoreOp(StoreOp),
    ClearColor(NormalizedColor),
}

/// The effect of one field write on a [`ColorTargetInfo`].
pub open spec fn color_target_written(t: ColorTargetInfo, w: ColorTargetWrite) -> ColorTargetInfo {
    match w {
        ColorTargetWrite::Texture(h) => ColorTargetInfo { texture: h, ..t },
        ColorTargetWrite::LoadOp(op) => ColorTargetInfo { load_op: op, ..t },
        ColorTargetWrite::StoreOp(op) => ColorTargetInfo { store_op: op, ..t },
        ColorTargetWrite::ClearColor(c) => ColorTargetInfo { clear_color: c, ..t },
    }
}

/// Whether two writes touch the same field of a [`ColorTargetInfo`].
pub open spec fn color_target_same_field(w1: ColorTargetWrite, w2: ColorTargetWrite) -> bool {
    match (w1, w2) {
        (ColorTargetWrite::Texture(_), ColorTargetWrite::Texture(_)) => true,
        (ColorTargetWrite::LoadOp(_), ColorTargetWrite::LoadOp(_)) => true,
        (ColorTargetWrite::StoreOp(_), ColorTargetWrite::StoreOp(_)) => true,
        (ColorTargetWrite::ClearColor(_), ColorTargetWrite::ClearColor(_)) => true,
        _ => false,
    }
}

/// Writes to distinct fields of a [`ColorTargetInfo`] commute.
pub proof fn lemma_color_target_writes_commute(
    t: ColorTargetInfo,
    w1: ColorTargetWrite,
    w2: ColorTargetWrite,
)
    requires
        !color_target_same_field(w1, w2),
    ensures
        color_target_written(color_target_written(t, w1), w2) == color_target_written(
            color_target_written(t, w2),
            w1,
        ),
{
}

/// The last write to a field of a [`ColorTargetInfo`] wins: writing a field,
/// then another field, then the first field again, leaves the same value as
/// the other field's write followed by only the final write.
pub proof fn lemma_color_target_last_write_wins(
    t: ColorTargetInfo,
    w1: ColorTargetWrite,
    w2: ColorTargetWrite,
    w3: ColorTargetWrite,
)
    requires
        color_target_same_field(w1, w3),
        !color_target_same_field(w2, w3),
    ensures
        color_target_written(
            color_target_written(color_target_written(t, w1), w2),
            w3,
        ) == color_target_written(color_target_written(t, w2), w3),
{
}

impl Default for ColorTargetInfo {
    /// The zero-initialized descriptor: no texture, all options at their
    /// native zero encoding, transparent black clear color.
    fn default() -> (t: Self)
        ensures
            t == ColorTargetInfo::zeroed(),
    {
        ColorTargetInfo {
            texture: 0,
            load_op: LoadOp::Load,
            store_op: StoreOp::Store,
            clear_color: NormalizedColor { r_bits: 0, g_bits: 0, b_bits: 0, a_bits: 0 },
        }
    }
}

impl ColorTargetInfo {
    /// The zero-initialized descriptor value.
    pub open spec fn zeroed() -> ColorTargetInfo {
        ColorTargetInfo {
            texture: 0,
            load_op: LoadOp::Load,
            store_op: StoreOp::Store,
            clear_color: NormalizedColor { r_bits: 0, g_bits: 0, b_bits: 0, a_bits: 0 },
        }
    }

    /// Targets the given texture.
    pub fn with_texture(self, texture: &Texture) -> (t: Self)
        ensures
            t == color_target_written(self, ColorTargetWrite::Texture(texture.handle)),
    {
        ColorTargetInfo { texture: texture.handle, ..self }
    }

    /// Sets what happens to the target's contents when the pass begins.
    pub fn with_load_op(self, value: LoadOp) -> (t: Self)
        ensures
            t == color_target_written(self, ColorTargetWrite::LoadOp(value)),
    {
        ColorTargetInfo { load_op: value, ..self }
    }

    /// Sets what happens to the target's contents when the pass ends.
    pub fn with_store_op(self, value: StoreOp) -> (t: Self)
        ensures
            t == color_target_written(self, ColorTargetWrite::StoreOp(value)),
    {
        ColorTargetInfo { store_op: value, ..self }
    }

    /// Sets the clear color; the 8-bit channels are stored normalized to
    /// `[0, 1]`, each divided by 255.
    pub fn with_clear_color(self, value: Color) -> (t: Self)
        ensures
            t == color_target_written(self, ColorTargetWrite::ClearColor(normalized(value))),
    {
        let nc = crate::color::normalize_color(value);
        ColorTargetInfo { clear_color: nc, ..self }
    }
}

/// Describes the depth-stencil attachment of a render pass: the target
/// texture, the clear values, and the load and store operations for the depth
/// and stencil aspects separately.
#[derive(Clone, Copy, PartialEq, Eq, Structural, Debug)]
pub struct DepthStencilTargetInfo {
    /// Handle of the target texture; `0` while unset.
    pub texture: usize,
    /// Depth clear value as an IEEE-754 single-precision bit pattern.
    pub clear_depth_bits: u32,
    pub load_op: LoadOp,
    pub store_op: StoreOp,
    pub stencil_load_op: LoadOp,
    pub stencil_store_op: StoreOp,
    /// Whether the driver may rotate to a fresh backing allocation instead of
    /// stalling on in-flight use of the texture.
    pub cycle: bool,
    pub clear_stencil: u8,
}

/// One field write applied to a [`DepthStencilTargetInfo`] by a chained
/// setter.
#[derive(Clone, Copy, PartialEq, Eq, Structural, Debug)]
pub enum DepthStencilWrite {
    Texture(usize),
    ClearDepthBits(u32),
    LoadOp(LoadOp),
    StoreOp(StoreOp),
    StencilLoadOp(LoadOp),
    StencilStoreOp(StoreOp),
    Cycle(bool),
    ClearStencil(u8),
}

/// The effect of one field write on a [`DepthStencilTargetInfo`].
pub open spec fn depth_stencil_written(
    t: DepthStencilTargetInfo,
    w: DepthStencilWrite,
) -> DepthStencilTargetInfo {
    match w {
        DepthStencilWrite::Texture(h) => DepthStencilTargetInfo { texture: h, ..t },
        DepthStencilWrite::ClearDepthBits(b) => DepthStencilTargetInfo { clear_depth_bits: b, ..t },
        DepthStencilWrite::LoadOp(op) => DepthStencilTargetInfo { load_op: op, ..t },
        DepthStencilWrite::StoreOp(op) => DepthStencilTargetInfo { store_op: op, ..t },
        DepthStencilWrite::StencilLoadOp(op) => DepthStencilTargetInfo { stencil_load_op: op, ..t },
        DepthStencilWrite::StencilStoreOp(op) => DepthStencilTargetInfo {
            stencil_store_op: op,
            ..t
        },
        DepthStencilWrite::Cycle(c) => DepthStencilTargetInfo { cycle: c, ..t },
        DepthStencilWrite::ClearStencil(s) => DepthStencilTargetInfo { clear_stencil: s, ..t },
    }
}

/// Whether two writes touch the same field of a [`DepthStencilTargetInfo`].
pub open spec fn depth_stencil_same_field(w1: DepthStencilWrite, w2: DepthStencilWrite) -> bool {
    match (w1, w2) {
        (DepthStencilWrite::Texture(_), DepthStencilWrite::Texture(_)) => true,
        (DepthStencilWrite::ClearDepthBits(_), DepthStencilWrite::ClearDepthBits(_)) => true,
        (DepthStencilWrite::LoadOp(_), DepthStencilWrite::LoadOp(_)) => true,
        (DepthStencilWrite::StoreOp(_), DepthStencilWrite::StoreOp(_)) => true,
        (DepthStencilWrite::StencilLoadOp(_), DepthStencilWrite::StencilLoadOp(_)) => true,
        (DepthStencilWrite::StencilStoreOp(_), DepthStencilWrite::StencilStoreOp(_)) => true,
        (DepthStencilWrite::Cycle(_), DepthStencilWrite::Cycle(_)) => true,
        (DepthStencilWrite::ClearStencil(_), DepthStencilWrite::ClearStencil(_)) => true,
        _ => false,
    }
}

/// Writes to distinct fields of a [`DepthStencilTargetInfo`] commute.
pub proof fn lemma_depth_stencil_writes_commute(
    t: DepthStencilTargetInfo,
    w1: DepthStencilWrite,
    w2: DepthStencilWrite,
)
    requires
        !depth_stencil_same_field(w1, w2),
    ensures
        depth_stencil_written(depth_stencil_written(t, w1), w2) == depth_stencil_written(
            depth_stencil_written(t, w2),
            w1,
        ),
{
}

/// The last write to a field of a [`DepthStencilTargetInfo`] wins.
pub proof fn lemma_depth_stencil_last_write_wins(
    t: DepthStencilTargetInfo,
    w1: DepthStencilWrite,
    w2: DepthStencilWrite,
    w3: DepthStencilWrite,
)
    requires
        depth_stencil_same_field(w1, w3),
        !depth_stencil_same_field(w2, w3),
    ensures
        depth_stencil_written(
            depth_stencil_written(depth_stencil_written(t, w1), w2),
            w3,
        ) == depth_stencil_written(depth_stencil_written(t, w2), w3),
{
}

impl Default for DepthStencilTargetInfo {
    /// The zero-initialized descriptor.
    fn default() -> (t: Self)
        ensures
            t == DepthStencilTargetInfo::zeroed(),
    {
        DepthStencilTargetInfo {
            texture: 0,
            clear_depth_bits: 0,
            load_op: LoadOp::Load,
            store_op: StoreOp::Store,
            stencil_load_op: LoadOp::Load,
            stencil_store_op: StoreOp::Store,
            cycle: false,
            clear_stencil: 0,
        }
    }
}

impl DepthStencilTargetInfo {
    /// The zero-initialized descriptor value.
    pub open spec fn zeroed() -> DepthStencilTargetInfo {
        DepthStencilTargetInfo {
            texture: 0,
            clear_depth_bits: 0,
            load_op: LoadOp::Load,
            store_op: StoreOp::Store,
            stencil_load_op: LoadOp::Load,
            stencil_store_op: StoreOp::Store,
            cycle: false,
            clear_stencil: 0,
        }
    }

    /// A zero-initialized descriptor.
    pub fn new() -> (t: Self)
        ensures
            t == DepthStencilTargetInfo::zeroed(),
    {
        DepthStencilTargetInfo {
            texture: 0,
            clear_depth_bits: 0,
            load_op: LoadOp::Load,
            store_op: StoreOp::Store,
            stencil_load_op: LoadOp::Load,
            stencil_store_op: StoreOp::Store,
            cycle: false,
            clear_stencil: 0,
        }
    }

    /// Targets the given texture. The texture itself is not changed.
    pub fn with_texture(self, texture: &mut Texture) -> (t: Self)
        ensures
            *final(texture) == *old(texture),
            t == depth_stencil_written(self, DepthStencilWrite::Texture(old(texture).handle)),
    {
        DepthStencilTargetInfo { texture: texture.handle, ..self }
    }

    /// Sets the depth clear value, given as an IEEE-754 single-precision bit
    /// pattern.
    pub fn with_clear_depth(self, clear_depth_bits: u32) -> (t: Self)
        ensures
            t == depth_stencil_written(self, DepthStencilWrite::ClearDepthBits(clear_depth_bits)),
    {
        DepthStencilTargetInfo { clear_depth_bits, ..self }
    }

    /// Sets what happens to the depth contents when the pass begins.
    pub fn with_load_op(self, value: LoadOp) -> (t: Self)
        ensures
            t == depth_stencil_written(self, DepthStencilWrite::LoadOp(value)),
    {
        DepthStencilTargetInfo { load_op: value, ..self }
    }

    /// Sets what happens to the depth contents when the pass ends.
    pub fn with_store_op(self, value: StoreOp) -> (t: Self)
        ensures
            t == depth_stencil_written(self, DepthStencilWrite::StoreOp(value)),
    {
        DepthStencilTargetInfo { store_op: value, ..self }
    }

    /// Sets what happens to the stencil contents when the pass begins.
    pub fn with_stencil_load_op(self, value: LoadOp) -> (t: Self)
        ensures
            t == depth_stencil_written(self, DepthStencilWrite::StencilLoadOp(value)),
    {
        DepthStencilTargetInfo { stencil_load_op: value, ..self }
    }

    /// Sets what happens to the stencil contents when the pass ends.
    pub fn with_stencil_store_op(self, value: StoreOp) -> (t: Self)
        ensures
            t == depth_stencil_written(self, DepthStencilWrite::StencilStoreOp(value)),
    {
        DepthStencilTargetInfo { stencil_store_op: value, ..self }
    }

    /// Sets whether the driver may cycle the texture's backing allocation.
    pub fn with_cycle(self, cycle: bool) -> (t: Self)
        ensures
            t == depth_stencil_written(self, DepthStencilWrite::Cycle(cycle)),
    {
        DepthStencilTargetInfo { cycle, ..self }
    }

    /// Sets the stencil clear value.
    pub fn with_clear_stencil(self, clear_stencil: u8) -> (t: Self)
        ensures
            t == depth_stencil_written(self, DepthStencilWrite::ClearStencil(clear_stencil)),
    {
        DepthStencilTargetInfo { clear_stencil, ..self }
    }
}

} // verus!
