//! Recording of render-pass operations.
//!
//! A render pass is valid only between pass-begin and pass-end, which happen
//! outside this layer; within that window it records bind and draw operations
//! in call order. The pass keeps the exact sequence of recorded operations,
//! and every method's contract states precisely what it appends: command
//! ordering is preserved verbatim, and the last bind at a given slot before a
//! draw is the one that draw sees.

use vstd::prelude::*;

use crate::ops::IndexElementSize;
use crate::resources::{BufferBinding, GraphicsPipeline, TextureSamplerBinding};

verus! {

/// One operation recorded on a render pass.
#[derive(Clone, Copy, PartialEq, Eq, Structural, Debug)]
pub enum RenderCmd {
    BindGraphicsPipeline { pipeline: GraphicsPipeline },
    /// One vertex buffer bound at one slot.
    BindVertexBuffer { slot: u32, binding: BufferBinding },
    BindIndexBuffer { binding: BufferBinding, element_size: IndexElementSize },
    /// One texture-sampler pair bound at one fragment-stage slot.
    BindFragmentSampler { slot: u32, binding: TextureSamplerBinding },
    DrawIndexed {
        num_indices: u32,
        num_instances: u32,
        first_index: u32,
        vertex_offset: i32,
        first_instance: u32,
    },
    Draw { num_vertices: u32, num_instances: u32, first_vertex: u32, first_instance: u32 },
}

/// The bind operations recorded for a slice of vertex buffers bound starting
/// at `first_slot`: one per buffer, at consecutive slots, in slice order.
pub open spec fn vertex_bind_cmds(first_slot: u32, bindings: Seq<BufferBinding>) -> Seq<RenderCmd> {
    Seq::new(
        bindings.len(),
        |i: int| RenderCmd::BindVertexBuffer {
            slot: (first_slot + i) as u32,
            binding: bindings[i],
        },
    )
}

/// The bind operations recorded for a slice of texture-sampler pairs bound
/// starting at `first_slot`: one per pair, at consecutive slots, in slice
/// order.
pub open spec fn sampler_bind_cmds(
    first_slot: u32,
    bindings: Seq<TextureSamplerBinding>,
) -> Seq<RenderCmd> {
    Seq::new(
        bindings.len(),
        |i: int| RenderCmd::BindFragmentSampler {
            slot: (first_slot + i) as u32,
            binding: bindings[i],
        },
    )
}

/// A scoped handle over an open render pass, recording operations in call
/// order.
pub struct RenderPass {
    commands: Vec<RenderCmd>,
}

impl View for RenderPass {
    type V = Seq<RenderCmd>;

    /// The operations recorded so far, oldest first.
    closed spec fn view(&self) -> Seq<RenderCmd> {
        self.commands@
    }
}

impl RenderPass {
    /// A handle over a freshly begun pass, with nothing recorded.
    pub fn new() -> (p: RenderPass)
        ensures
            p@ == Seq::<RenderCmd>::empty(),
    {
        RenderPass { commands: Vec::new() }
    }

    /// The operations recorded so far, oldest first.
    pub fn commands(&self) -> (cmds: &Vec<RenderCmd>)
        ensures
            cmds@ == self@,
    {
        &self.commands
    }

    /// Records a bind of the graphics pipeline all later draws in this pass
    /// use.
    pub fn bind_graphics_pipeline(&mut self, pipeline: &GraphicsPipeline)
        ensures
            final(self)@ == old(self)@.push(
                RenderCmd::BindGraphicsPipeline { pipeline: *pipeline },
            ),
    {
        self.commands.push(RenderCmd::BindGraphicsPipeline { pipeline: *pipeline });
    }

    /// Records one bind operation per vertex buffer, at consecutive slots
    /// starting from `first_slot`, in slice order.
    pub fn bind_vertex_buffers(&mut self, first_slot: u32, bindings: &[BufferBinding])
        requires
            first_slot + bindings@.len() <= u32::MAX,
        ensures
            final(self)@ == old(self)@ + vertex_bind_cmds(first_slot, bindings@),
    {
        let n = bindings.len();
        let mut i: usize = 0;
        while i < n
            invariant
                i <= n,
                n == bindings@.len(),
                first_slot + n <= u32::MAX,
                self@ == old(self)@ + vertex_bind_cmds(first_slot, bindings@).take(i as int),
            decreases n - i,
        {
            let slot = first_slot + i as u32;
            self.commands.push(RenderCmd::BindVertexBuffer { slot, binding: bindings[i] });
            proof {
                assert(self@ =~= old(self)@ + vertex_bind_cmds(first_slot, bindings@).take(
                    i + 1,
                ));
            }
            i = i + 1;
        }
        proof {
            assert(vertex_bind_cmds(first_slot, bindings@).take(n as int) =~= vertex_bind_cmds(
                first_slot,
                bindings@,
            ));
        }
    }

    /// Records a bind of the index buffer used by later indexed draws, with
    /// the width of one index element.
    pub fn bind_index_buffer(&mut self, binding: &BufferBinding, index_element_size: IndexElementSize)
        ensures
            final(self)@ == old(self)@.push(
                RenderCmd::BindIndexBuffer { binding: *binding, element_size: index_element_size },
            ),
    {
        self.commands.push(
            RenderCmd::BindIndexBuffer { binding: *binding, element_size: index_element_size },
        );
    }

    /// Records one bind operation per fragment-stage texture-sampler pair,
    /// at consecutive slots starting from `first_slot`, in slice order.
    pub fn bind_fragment_sampler(&mut self, first_slot: u32, bindings: &[TextureSamplerBinding])
        requires
            first_slot + bindings@.len() <= u32::MAX,
        ensures
            final(self)@ == old(self)@ + sampler_bind_cmds(first_slot, bindings@),
    {
        let n = bindings.len();
        let mut i: usize = 0;
        while i < n
            invariant
                i <= n,
                n == bindings@.len(),
                first_slot + n <= u32::MAX,
                self@ == old(self)@ + sampler_bind_cmds(first_slot, bindings@).take(i as int),
            decreases n - i,
        {
            let slot = first_slot + i as u32;
            self.commands.push(RenderCmd::BindFragmentSampler { slot, binding: bindings[i] });
            proof {
                assert(self@ =~= old(self)@ + sampler_bind_cmds(first_slot, bindings@).take(
                    i + 1,
                ));
            }
            i = i + 1;
        }
        proof {
            assert(sampler_bind_cmds(first_slot, bindings@).take(n as int) =~= sampler_bind_cmds(
                first_slot,
                bindings@,
            ));
        }
    }

    /// Records one indexed draw with explicit index, instance and offset
    /// counts.
    pub fn draw_indexed_primitives(
        &mut self,
        num_indices: u32,
        num_instances: u32,
        first_index: u32,
        vertex_offset: i32,
        first_instance: u32,
    )
        ensures
            final(self)@ == old(self)@.push(
                RenderCmd::DrawIndexed {
                    num_indices,
                    num_instances,
                    first_index,
                    vertex_offset,
                    first_instance,
                },
            ),
    {
        self.commands.push(
            RenderCmd::DrawIndexed {
                num_indices,
                num_instances,
                first_index,
                vertex_offset,
                first_instance,
            },
        );
    }

    /// Records one non-indexed draw with explicit vertex, instance and offset
    /// counts. The counts must fit the native 32-bit fields.
    pub fn draw_primitives(
        &mut self,
        num_vertices: usize,
        num_instances: usize,
        first_vertex: usize,
        first_instance: usize,
    )
        requires
            num_vertices <= u32::MAX,
            num_instances <= u32::MAX,
            first_vertex <= u32::MAX,
            first_instance <= u32::MAX,
        ensures
            final(self)@ == old(self)@.push(
                RenderCmd::Draw {
                    num_vertices: num_vertices as u32,
                    num_instances: num_instances as u32,
                    first_vertex: first_vertex as u32,
                    first_instance: first_instance as u32,
                },
            ),
    {
        self.commands.push(
            RenderCmd::Draw {
                num_vertices: num_vertices as u32,
                num_instances: num_instances as u32,
                first_vertex: first_vertex as u32,
                first_instance: first_instance as u32,
            },
        );
    }
}

/// Binding `n` vertex buffers and then drawing records exactly `n` bind
/// operations followed by one draw operation, in that order: given the log
/// `after_binds` that `bind_vertex_buffers` leaves and the log `after_draw`
/// that a following `draw_primitives` leaves, the final log is the original
/// one, then one bind per buffer at consecutive slots in slice order, then
/// the draw, and nothing else.
pub proof fn lemma_binds_then_draw(
    log: Seq<RenderCmd>,
    after_binds: Seq<RenderCmd>,
    after_draw: Seq<RenderCmd>,
    first_slot: u32,
    bindings: Seq<BufferBinding>,
    draw: RenderCmd,
)
    requires
        after_binds == log + vertex_bind_cmds(first_slot, bindings),
        after_draw == after_binds.push(draw),
        draw is Draw || draw is DrawIndexed,
    ensures
        after_draw.len() == log.len() + bindings.len() + 1,
        forall|i: int|
            0 <= i < log.len() ==> after_draw[i] == log[i],
        forall|i: int|
            log.len() <= i < log.len() + bindings.len() ==> after_draw[i]
                == (RenderCmd::BindVertexBuffer {
                slot: (first_slot + i - log.len()) as u32,
                binding: bindings[i - log.len()],
            }),
        after_draw.last() == draw,
{
}

} // verus!
