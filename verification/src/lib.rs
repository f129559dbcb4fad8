//! A typed, verified recording layer for a GPU command-submission API.
//!
//! The native graphics runtime works on opaque handles and fixed-layout
//! descriptor structs. This crate models that surface with plain values:
//! builder value objects (`ColorTargetInfo`, `DepthStencilTargetInfo`,
//! `BlitInfo`) assembled by chained setters, and recording handles
//! (`CommandBuffer`, `RenderPass`, `CopyPass`, `ComputePass`) that keep an
//! exact, in-order log of the operations recorded on them. Every operation
//! carries a contract saying precisely what it appends to the log or how it
//! changes the value under construction; an unverified shell around this
//! crate replays the logs against the native driver.

pub mod blit;
pub mod color;
pub mod command_buffer;
pub mod compute_pass;
pub mod copy_pass;
pub mod ops;
pub mod render_pass;
pub mod targets;
pub mod resources;
