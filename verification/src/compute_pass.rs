//! Recording of compute-pass operations.
//!
//! Storage resources are bound as an ordered list of handles, converted to
//! one contiguous array per call, exactly as the native call takes them.

use vstd::prelude::*;

use crate::resources::{Buffer, ComputePipeline, Texture};

verus! {

/// One operation recorded on a compute pass. The storage binds keep the
/// contiguous handle arrays handed to the native call.
#[derive(Clone, PartialEq, Eq, Debug)]
pub enum ComputeCmd {
    BindComputePipeline { pipeline: ComputePipeline },
    BindStorageBuffers { first_slot: u32, buffers: Vec<usize> },
    BindStorageTextures { first_slot: u32, textures: Vec<usize> },
    Dispatch { groupcount_x: u32, groupcount_y: u32, groupcount_z: u32 },
}

/// The mathematical value of one recorded compute operation.
pub enum ComputeCmdModel {
    BindComputePipeline { pipeline: ComputePipeline },
    BindStorageBuffers { first_slot: u32, buffers: Seq<usize> },
    BindStorageTextures { first_slot: u32, textures: Seq<usize> },
    Dispatch { groupcount_x: u32, groupcount_y: u32, groupcount_z: u32 },
}

impl View for ComputeCmd {
    type V = ComputeCmdModel;

    open spec fn view(&self) -> ComputeCmdModel {
        match self {
            ComputeCmd::BindComputePipeline { pipeline } => ComputeCmdModel::BindComputePipeline {
                pipeline: *pipeline,
            },
            ComputeCmd::BindStorageBuffers { first_slot, buffers } => {
                ComputeCmdModel::BindStorageBuffers { first_slot: *first_slot, buffers: buffers@ }
            },
            ComputeCmd::BindStorageTextures { first_slot, textures } => {
                ComputeCmdModel::BindStorageTextures {
                    first_slot: *first_slot,
                    textures: textures@,
                }
            },
            ComputeCmd::Dispatch { groupcount_x, groupcount_y, groupcount_z } => {
                ComputeCmdModel::Dispatch {
                    groupcount_x: *groupcount_x,
                    groupcount_y: *groupcount_y,
                    groupcount_z: *groupcount_z,
                }
            },
        }
    }
}

/// The handles of a slice of storage buffers, in slice order.
pub open spec fn buffer_handles(buffers: Seq<Buffer>) -> Seq<usize> {
    buffers.map_values(|b: Buffer| b.handle)
}

/// The handles of a slice of storage textures, in slice order.
pub open spec fn texture_handles(textures: Seq<Texture>) -> Seq<usize> {
    textures.map_values(|t: Texture| t.handle)
}

/// A scoped handle over an open compute pass, recording operations in call
/// order.
pub struct ComputePass {
    commands: Vec<ComputeCmd>,
}

impl View for ComputePass {
    type V = Seq<ComputeCmdModel>;

    /// The operations recorded so far, oldest first.
    closed spec fn view(&self) -> Seq<ComputeCmdModel> {
        Seq::new(self.commands@.len(), |i: int| self.commands@[i]@)
    }
}

impl ComputePass {
    /// A handle over a freshly begun pass, with nothing recorded.
    pub fn new() -> (p: ComputePass)
        ensures
            p@ == Seq::<ComputeCmdModel>::empty(),
    {
        let p = ComputePass { commands: Vec::new() };
        proof {
            assert(p@ =~= Seq::<ComputeCmdModel>::empty());
        }
        p
    }

    /// The operations recorded so far, oldest first.
    pub fn commands(&self) -> (cmds: &Vec<ComputeCmd>)
        ensures
            cmds@.len() == self@.len(),
            forall|i: int| 0 <= i < cmds@.len() ==> cmds@[i]@ == self@[i],
    {
        &self.commands
    }

    /// Records a bind of the compute pipeline later dispatches use.
    pub fn bind_compute_pipeline(&mut self, pipeline: &ComputePipeline)
        ensures
            final(self)@ == old(self)@.push(
                ComputeCmdModel::BindComputePipeline { pipeline: *pipeline },
            ),
    {
        self.commands.push(ComputeCmd::BindComputePipeline { pipeline: *pipeline });
        proof {
            assert(self@ =~= old(self)@.push(
                ComputeCmdModel::BindComputePipeline { pipeline: *pipeline },
            ));
        }
    }

    /// Records a bind of storage buffers at consecutive slots starting from
    /// `first_slot`: their handles are gathered into one contiguous array, in
    /// slice order, as the native call takes them.
    pub fn bind_compute_storage_buffers(&mut self, first_slot: u32, storage_buffers: &[Buffer])
        ensures
            final(self)@ == old(self)@.push(
                ComputeCmdModel::BindStorageBuffers {
                    first_slot,
                    buffers: buffer_handles(storage_buffers@),
                },
            ),
    {
        let n = storage_buffers.len();
        let mut handles: Vec<usize> = Vec::new();
        let mut i: usize = 0;
        while i < n
            invariant
                i <= n,
                n == storage_buffers@.len(),
                handles@ == buffer_handles(storage_buffers@.take(i as int)),
            decreases n - i,
        {
            handles.push(storage_buffers[i].handle);
            proof {
                assert(handles@ =~= buffer_handles(storage_buffers@.take(i + 1)));
            }
            i = i + 1;
        }
        proof {
            assert(storage_buffers@.take(n as int) =~= storage_buffers@);
        }
        self.commands.push(ComputeCmd::BindStorageBuffers { first_slot, buffers: handles });
        proof {
            assert(self@ =~= old(self)@.push(
                ComputeCmdModel::BindStorageBuffers {
                    first_slot,
                    buffers: buffer_handles(storage_buffers@),
                },
            ));
        }
    }

    /// Records a bind of storage textures at consecutive slots starting from
    /// `first_slot`: their handles are gathered into one contiguous array, in
    /// slice order, as the native call takes them.
    pub fn bind_compute_storage_textures(&mut self, first_slot: u32, storage_textures: &[Texture])
        ensures
            final(self)@ == old(self)@.push(
                ComputeCmdModel::BindStorageTextures {
                    first_slot,
                    textures: texture_handles(storage_textures@),
                },
            ),
    {
        let n = storage_textures.len();
        let mut handles: Vec<usize> = Vec::new();
        let mut i: usize = 0;
        while i < n
            invariant
                i <= n,
                n == storage_textures@.len(),
                handles@ == texture_handles(storage_textures@.take(i as int)),
            decreases n - i,
        {
            handles.push(storage_textures[i].handle);
            proof {
                assert(handles@ =~= texture_handles(storage_textures@.take(i + 1)));
            }
            i = i + 1;
        }
        proof {
            assert(storage_textures@.take(n as int) =~= storage_textures@);
        }
        self.commands.push(ComputeCmd::BindStorageTextures { first_slot, textures: handles });
        proof {
            assert(self@ =~= old(self)@.push(
                ComputeCmdModel::BindStorageTextures {
                    first_slot,
                    textures: texture_handles(storage_textures@),
                },
            ));
        }
    }

    /// Records a dispatch of a three-dimensional workgroup count.
    pub fn dispatch(&mut self, groupcount_x: u32, groupcount_y: u32, groupcount_z: u32)
        ensures
            final(self)@ == old(self)@.push(
                ComputeCmdModel::Dispatch { groupcount_x, groupcount_y, groupcount_z },
            ),
    {
        self.commands.push(ComputeCmd::Dispatch { groupcount_x, groupcount_y, groupcount_z });
        proof {
            assert(self@ =~= old(self)@.push(
                ComputeCmdModel::Dispatch { groupcount_x, groupcount_y, groupcount_z },
            ));
        }
    }
}

} // verus!
