//! The enumerated option fields of the recording API, with their exact,
//! exhaustively checked mapping to the native integer encoding.
//!
//! The native driver takes these options as C enum values. Rather than cast a
//! discriminant, each option type carries a verified `native_code` mapping
//! whose contract pins every variant to its native value, so no undefined
//! value can reach the driver boundary.

use vstd::prelude::*;

verus! {

/// What happens to the contents of a render target at the beginning of a
/// pass.
#[derive(Clone, Copy, PartialEq, Eq, Structural, Debug)]
pub enum LoadOp {
    /// Keep the existing contents.
    Load,
    /// Clear to the pass's clear value.
    Clear,
    /// Leave the contents undefined.
    DontCare,
}

/// The native integer encoding of a [`LoadOp`].
pub open spec fn load_op_code(op: LoadOp) -> u32 {
    match op {
        LoadOp::Load => 0,
        LoadOp::Clear => 1,
        LoadOp::DontCare => 2,
    }
}

impl LoadOp {
    /// The native integer encoding of this load operation.
    pub fn native_code(self) -> (code: u32)
        ensures
            code == load_op_code(self),
    {
        match self {
            LoadOp::Load => 0,
            LoadOp::Clear => 1,
            LoadOp::DontCare => 2,
        }
    }
}

/// What happens to the contents of a render target at the end of a pass.
#[derive(Clone, Copy, PartialEq, Eq, Structural, Debug)]
pub enum StoreOp {
    /// Write the pass's results out.
    Store,
    /// Leave the contents undefined.
    DontCare,
    /// Resolve a multisampled target, discarding the samples.
    Resolve,
    /// Resolve a multisampled target and also store the samples.
    ResolveAndStore,
}

/// The native integer encoding of a [`StoreOp`].
pub open spec fn store_op_code(op: StoreOp) -> u32 {
    match op {
        StoreOp::Store => 0,
        StoreOp::DontCare => 1,
        StoreOp::Resolve => 2,
        StoreOp::ResolveAndStore => 3,
    }
}

impl StoreOp {
    /// The native integer encoding of this store operation.
    pub fn native_code(self) -> (code: u32)
        ensures
            code == store_op_code(self),
    {
        match self {
            StoreOp::Store => 0,
            StoreOp::DontCare => 1,
            StoreOp::Resolve => 2,
            StoreOp::ResolveAndStore => 3,
        }
    }
}

/// The sampling filter used by a blit.
#[derive(Clone, Copy, PartialEq, Eq, Structural, Debug)]
pub enum Filter {
    Nearest,
    Linear,
}

/// The native integer encoding of a [`Filter`].
pub open spec fn filter_code(f: Filter) -> u32 {
    match f {
        Filter::Nearest => 0,
        Filter::Linear => 1,
    }
}

impl Filter {
    /// The native integer encoding of this filter.
    pub fn native_code(self) -> (code: u32)
        ensures
            code == filter_code(self),
    {
        match self {
            Filter::Nearest => 0,
            Filter::Linear => 1,
        }
    }
}

/// The width of one element of a bound index buffer.
#[derive(Clone, Copy, PartialEq, Eq, Structural, Debug)]
pub enum IndexElementSize {
    Bits16,
    Bits32,
}

/// The native integer encoding of an [`IndexElementSize`].
pub open spec fn index_element_size_code(s: IndexElementSize) -> u32 {
    match s {
        IndexElementSize::Bits16 => 0,
        IndexElementSize::Bits32 => 1,
    }
}

impl IndexElementSize {
    /// The native integer encoding of this index element size.
    pub fn native_code(self) -> (code: u32)
        ensures
            code == index_element_size_code(self),
    {
        match self {
            IndexElementSize::Bits16 => 0,
            IndexElementSize::Bits32 => 1,
        }
    }
}

} // verus!
