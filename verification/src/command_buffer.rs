//! The command buffer: one GPU work-submission unit.
//!
//! A command buffer records uniform-data pushes and blits in call order, and
//! ends in exactly one of two ways: `submit` consumes it — the type system
//! makes any further use impossible — and hands the recorded operations out
//! for submission; `cancel` discards the recorded operations but leaves the
//! buffer usable as a handle. Swapchain acquisition is a driver query, not a
//! recorded operation: the shell performs it and this module shapes the
//! driver's reply into the wrapper's result.

use vstd::prelude::*;

use crate::blit::BlitInfo;
use crate::resources::{Error, Texture};

verus! {

/// The shader stage a uniform-data push targets.
#[derive(Clone, Copy, PartialEq, Eq, Structural, Debug)]
pub enum ShaderStage {
    Vertex,
    Fragment,
    Compute,
}

/// One operation recorded on a command buffer.
#[derive(Clone, PartialEq, Eq, Debug)]
pub enum Command {
    /// A uniform-data block pushed to one shader stage: the slot it binds to
    /// and the raw byte payload, sized to the bound type.
    PushUniform { stage: ShaderStage, slot: u32, data: Vec<u8> },
    /// A blit between two texture regions.
    Blit { info: BlitInfo },
}

/// The mathematical value of one recorded command.
pub enum CommandModel {
    PushUniform { stage: ShaderStage, slot: u32, data: Seq<u8> },
    Blit { info: BlitInfo },
}

impl View for Command {
    type V = CommandModel;

    open spec fn view(&self) -> CommandModel {
        match self {
            Command::PushUniform { stage, slot, data } => CommandModel::PushUniform {
                stage: *stage,
                slot: *slot,
                data: data@,
            },
            Command::Blit { info } => CommandModel::Blit { info: *info },
        }
    }
}

/// One GPU work-submission unit, recording operations in call order until it
/// is submitted or cancelled.
pub struct CommandBuffer {
    commands: Vec<Command>,
}

impl View for CommandBuffer {
    type V = Seq<CommandModel>;

    /// The operations recorded so far, oldest first.
    closed spec fn view(&self) -> Seq<CommandModel> {
        Seq::new(self.commands@.len(), |i: int| self.commands@[i]@)
    }
}

impl CommandBuffer {
    /// A fresh command buffer with nothing recorded.
    pub fn new() -> (cb: CommandBuffer)
        ensures
            cb@ == Seq::<CommandModel>::empty(),
    {
        let cb = CommandBuffer { commands: Vec::new() };
        proof {
            assert(cb@ =~= Seq::<CommandModel>::empty());
        }
        cb
    }

    /// The operations recorded so far, oldest first.
    pub fn commands(&self) -> (cmds: &Vec<Command>)
        ensures
            cmds@.len() == self@.len(),
            forall|i: int| 0 <= i < cmds@.len() ==> cmds@[i]@ == self@[i],
    {
        &self.commands
    }

    /// Records a push of one uniform-data block, as raw bytes, to the given
    /// slot of the given shader stage.
    pub fn push_uniform_data(&mut self, stage: ShaderStage, slot_index: u32, data: &[u8])
        ensures
            final(self)@ == old(self)@.push(
                CommandModel::PushUniform { stage, slot: slot_index, data: data@ },
            ),
    {
        let payload = vstd::slice::slice_to_vec(data);
        self.commands.push(Command::PushUniform { stage, slot: slot_index, data: payload });
        proof {
            assert(self@ =~= old(self)@.push(
                CommandModel::PushUniform { stage, slot: slot_index, data: data@ },
            ));
        }
    }

    /// Records a push of one uniform-data block to a vertex-stage slot.
    pub fn push_vertex_uniform_data(&mut self, slot_index: u32, data: &[u8])
        ensures
            final(self)@ == old(self)@.push(
                CommandModel::PushUniform {
                    stage: ShaderStage::Vertex,
                    slot: slot_index,
                    data: data@,
                },
            ),
    {
        self.push_uniform_data(ShaderStage::Vertex, slot_index, data);
    }

    /// Records a push of one uniform-data block to a fragment-stage slot.
    pub fn push_fragment_uniform_data(&mut self, slot_index: u32, data: &[u8])
        ensures
            final(self)@ == old(self)@.push(
                CommandModel::PushUniform {
                    stage: ShaderStage::Fragment,
                    slot: slot_index,
                    data: data@,
                },
            ),
    {
        self.push_uniform_data(ShaderStage::Fragment, slot_index, data);
    }

    /// Records a push of one uniform-data block to a compute-stage slot.
    pub fn push_compute_uniform_data(&mut self, slot_index: u32, data: &[u8])
        ensures
            final(self)@ == old(self)@.push(
                CommandModel::PushUniform {
                    stage: ShaderStage::Compute,
                    slot: slot_index,
                    data: data@,
                },
            ),
    {
        self.push_uniform_data(ShaderStage::Compute, slot_index, data);
    }

    /// Records a blit between the two texture regions the [`BlitInfo`]
    /// describes.
    pub fn blit_texture(&mut self, blit_info: &BlitInfo)
        ensures
            final(self)@ == old(self)@.push(CommandModel::Blit { info: *blit_info }),
    {
        self.commands.push(Command::Blit { info: *blit_info });
        proof {
            assert(self@ =~= old(self)@.push(CommandModel::Blit { info: *blit_info }));
        }
    }

    /// Ends the recording by consuming the buffer — after this call the type
    /// system admits no further operation on it — and hands the recorded
    /// operations out, in order and unchanged, for submission to the driver.
    pub fn submit(self) -> (cmds: Vec<Command>)
        ensures
            cmds@.len() == self@.len(),
            forall|i: int| 0 <= i < cmds@.len() ==> cmds@[i]@ == self@[i],
    {
        self.commands
    }

    /// Discards everything recorded so far without consuming the buffer: the
    /// handle stays usable and starts over with an empty recording.
    pub fn cancel(&mut self)
        ensures
            final(self)@ == Seq::<CommandModel>::empty(),
    {
        self.commands.clear();
        proof {
            assert(self@ =~= Seq::<CommandModel>::empty());
        }
    }
}

/// Shapes a driver reply to a swapchain-texture acquisition into the
/// wrapper's result: on success, a texture wrapping the reported handle and
/// dimensions, bound to the command buffer's lifetime; on failure, the
/// driver's error string.
pub fn swapchain_texture_result(
    success: bool,
    handle: usize,
    width: u32,
    height: u32,
    error_message: String,
) -> (r: Result<Texture, Error>)
    ensures
        success ==> r == Ok::<Texture, Error>(Texture { handle, width, height }),
        !success ==> (r matches Err(e) && e.message@ == error_message@),
{
    if success {
        Ok(Texture { handle, width, height })
    } else {
        Err(Error { message: error_message })
    }
}

} // verus!
