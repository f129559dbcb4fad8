//! Recording of copy-pass operations: uploads from staged transfer-buffer
//! locations into GPU buffers and textures.

use vstd::prelude::*;

use crate::resources::{BufferRegion, TextureRegion, TextureTransferInfo, TransferBufferLocation};

verus! {

/// One operation recorded on a copy pass.
#[derive(Clone, Copy, PartialEq, Eq, Structural, Debug)]
pub enum CopyCmd {
    UploadToBuffer {
        source: TransferBufferLocation,
        destination: BufferRegion,
        cycle: bool,
    },
    UploadToTexture {
        source: TextureTransferInfo,
        destination: TextureRegion,
        cycle: bool,
    },
}

/// A scoped handle over an open copy pass, recording operations in call
/// order.
pub struct CopyPass {
    commands: Vec<CopyCmd>,
}

impl View for CopyPass {
    type V = Seq<CopyCmd>;

    /// The operations recorded so far, oldest first.
    closed spec fn view(&self) -> Seq<CopyCmd> {
        self.commands@
    }
}

impl CopyPass {
    /// A handle over a freshly begun pass, with nothing recorded.
    pub fn new() -> (p: CopyPass)
        ensures
            p@ == Seq::<CopyCmd>::empty(),
    {
        CopyPass { commands: Vec::new() }
    }

    /// The operations recorded so far, oldest first.
    pub fn commands(&self) -> (cmds: &Vec<CopyCmd>)
        ensures
            cmds@ == self@,
    {
        &self.commands
    }

    /// Records an upload from a staged transfer-buffer location into a
    /// destination GPU buffer region. `cycle` says whether the destination
    /// may be rotated to a fresh backing allocation instead of stalling on
    /// in-flight GPU use.
    pub fn upload_to_gpu_buffer(
        &mut self,
        transfer_buf_location: TransferBufferLocation,
        buffer_region: BufferRegion,
        cycle: bool,
    )
        ensures
            final(self)@ == old(self)@.push(
                CopyCmd::UploadToBuffer {
                    source: transfer_buf_location,
                    destination: buffer_region,
                    cycle,
                },
            ),
    {
        self.commands.push(
            CopyCmd::UploadToBuffer {
                source: transfer_buf_location,
                destination: buffer_region,
                cycle,
            },
        );
    }

    /// Records an upload from a staged transfer-buffer location into a
    /// destination GPU texture region. `cycle` as in `upload_to_gpu_buffer`.
    pub fn upload_to_gpu_texture(
        &mut self,
        source: TextureTransferInfo,
        destination: TextureRegion,
        cycle: bool,
    )
        ensures
            final(self)@ == old(self)@.push(
                CopyCmd::UploadToTexture { source, destination, cycle },
            ),
    {
        self.commands.push(CopyCmd::UploadToTexture { source, destination, cycle });
    }
}

} // verus!
