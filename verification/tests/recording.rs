use gpu_record::blit::BlitInfo;
use gpu_record::command_buffer::{
    swapchain_texture_result, Command, CommandBuffer, ShaderStage,
};
use gpu_record::compute_pass::{ComputeCmd, ComputePass};
use gpu_record::copy_pass::{CopyCmd, CopyPass};
use gpu_record::ops::IndexElementSize;
use gpu_record::render_pass::{RenderCmd, RenderPass};
use gpu_record::resources::{
    Buffer, BufferBinding, BufferRegion, ComputePipeline, GraphicsPipeline, Sampler, Texture,
    TextureRegion, TextureSamplerBinding, TextureTransferInfo, TransferBuffer,
    TransferBufferLocation,
};

#[test]
fn binding_n_vertex_buffers_then_drawing_records_n_binds_then_one_draw() {
    let mut pass = RenderPass::new();
    let bindings = [
        BufferBinding { buffer: Buffer { handle: 10 }, offset: 0 },
        BufferBinding { buffer: Buffer { handle: 11 }, offset: 64 },
        BufferBinding { buffer: Buffer { handle: 12 }, offset: 128 },
    ];
    pass.bind_vertex_buffers(2, &bindings);
    pass.draw_primitives(3, 1, 0, 0);
    let cmds = pass.commands();
    assert_eq!(cmds.len(), 4);
    for (i, binding) in bindings.iter().enumerate() {
        assert_eq!(
            cmds[i],
            RenderCmd::BindVertexBuffer { slot: 2 + i as u32, binding: *binding },
        );
    }
    assert_eq!(
        cmds[3],
        RenderCmd::Draw { num_vertices: 3, num_instances: 1, first_vertex: 0, first_instance: 0 },
    );
}

#[test]
fn push_vertex_uniform_then_draw_indexed_records_two_calls_in_order() {
    // A 4x4 single-precision matrix pushed as raw bytes: 64 bytes.
    let matrix = [0u8; 64];
    let mut command_buffer = CommandBuffer::new();
    command_buffer.push_vertex_uniform_data(0, &matrix);
    let mut pass = RenderPass::new();
    pass.draw_indexed_primitives(6, 1, 0, 0, 0);

    let recorded = command_buffer.commands();
    assert_eq!(recorded.len(), 1);
    match &recorded[0] {
        Command::PushUniform { stage, slot, data } => {
            assert_eq!(*stage, ShaderStage::Vertex);
            assert_eq!(*slot, 0);
            assert_eq!(data.len(), 64);
        }
        other => panic!("unexpected command {:?}", other),
    }
    let pass_cmds = pass.commands();
    assert_eq!(pass_cmds.len(), 1);
    assert_eq!(
        pass_cmds[0],
        RenderCmd::DrawIndexed {
            num_indices: 6,
            num_instances: 1,
            first_index: 0,
            vertex_offset: 0,
            first_instance: 0,
        },
    );
}

#[test]
fn render_pass_binds_are_recorded_in_call_order() {
    let mut pass = RenderPass::new();
    let pipeline = GraphicsPipeline { handle: 5 };
    pass.bind_graphics_pipeline(&pipeline);
    let index_binding = BufferBinding { buffer: Buffer { handle: 20 }, offset: 0 };
    pass.bind_index_buffer(&index_binding, IndexElementSize::Bits16);
    let samplers = [
        TextureSamplerBinding {
            texture: Texture::new(30, 64, 64),
            sampler: Sampler { handle: 40 },
        },
        TextureSamplerBinding {
            texture: Texture::new(31, 64, 64),
            sampler: Sampler { handle: 41 },
        },
    ];
    pass.bind_fragment_sampler(1, &samplers);
    let cmds = pass.commands();
    assert_eq!(cmds.len(), 4);
    assert_eq!(cmds[0], RenderCmd::BindGraphicsPipeline { pipeline });
    assert_eq!(
        cmds[1],
        RenderCmd::BindIndexBuffer {
            binding: index_binding,
            element_size: IndexElementSize::Bits16,
        },
    );
    assert_eq!(cmds[2], RenderCmd::BindFragmentSampler { slot: 1, binding: samplers[0] });
    assert_eq!(cmds[3], RenderCmd::BindFragmentSampler { slot: 2, binding: samplers[1] });
}

#[test]
fn blit_is_recorded_with_its_descriptor() {
    let src = Texture::new(1, 32, 32);
    let dst = Texture::new(2, 32, 32);
    let info = BlitInfo::default()
        .with_source_texture(&src)
        .with_source_region(0, 0, 0, 32, 32)
        .with_destination_texture(&dst)
        .with_destination_region(0, 0, 0, 32, 32);
    let mut command_buffer = CommandBuffer::new();
    command_buffer.blit_texture(&info);
    let recorded = command_buffer.commands();
    assert_eq!(recorded.len(), 1);
    assert_eq!(recorded[0], Command::Blit { info });
}

#[test]
fn submit_consumes_and_returns_the_recording_in_order() {
    let mut command_buffer = CommandBuffer::new();
    command_buffer.push_fragment_uniform_data(3, &[1, 2, 3, 4]);
    command_buffer.push_compute_uniform_data(1, &[9, 9]);
    let cmds = command_buffer.submit();
    // `command_buffer` is moved: the type system rules out any further use.
    assert_eq!(cmds.len(), 2);
    assert_eq!(
        cmds[0],
        Command::PushUniform { stage: ShaderStage::Fragment, slot: 3, data: vec![1, 2, 3, 4] },
    );
    assert_eq!(
        cmds[1],
        Command::PushUniform { stage: ShaderStage::Compute, slot: 1, data: vec![9, 9] },
    );
}

#[test]
fn cancel_discards_the_recording_but_keeps_the_buffer_usable() {
    let mut command_buffer = CommandBuffer::new();
    command_buffer.push_vertex_uniform_data(0, &[5; 16]);
    assert_eq!(command_buffer.commands().len(), 1);
    command_buffer.cancel();
    assert_eq!(command_buffer.commands().len(), 0);
    command_buffer.push_vertex_uniform_data(2, &[7; 8]);
    assert_eq!(
        command_buffer.commands()[0],
        Command::PushUniform { stage: ShaderStage::Vertex, slot: 2, data: vec![7; 8] },
    );
}

#[test]
fn copy_pass_records_uploads_with_their_descriptors() {
    let mut pass = CopyPass::new();
    let source = TransferBufferLocation {
        transfer_buffer: TransferBuffer { handle: 50 },
        offset: 16,
    };
    let destination = BufferRegion { buffer: Buffer { handle: 60 }, offset: 0, size: 1024 };
    pass.upload_to_gpu_buffer(source, destination, true);
    let tex_source = TextureTransferInfo {
        transfer_buffer: TransferBuffer { handle: 51 },
        offset: 0,
        pixels_per_row: 128,
        rows_per_layer: 128,
    };
    let tex_destination = TextureRegion {
        texture: Texture::new(70, 128, 128),
        mip_level: 0,
        layer: 0,
        x: 0,
        y: 0,
        z: 0,
        w: 128,
        h: 128,
        d: 1,
    };
    pass.upload_to_gpu_texture(tex_source, tex_destination, false);
    let cmds = pass.commands();
    assert_eq!(cmds.len(), 2);
    assert_eq!(cmds[0], CopyCmd::UploadToBuffer { source, destination, cycle: true });
    assert_eq!(
        cmds[1],
        CopyCmd::UploadToTexture {
            source: tex_source,
            destination: tex_destination,
            cycle: false,
        },
    );
}

#[test]
fn compute_pass_gathers_storage_handles_in_order() {
    let mut pass = ComputePass::new();
    let pipeline = ComputePipeline { handle: 80 };
    pass.bind_compute_pipeline(&pipeline);
    let buffers = [Buffer { handle: 90 }, Buffer { handle: 91 }, Buffer { handle: 92 }];
    pass.bind_compute_storage_buffers(0, &buffers);
    let textures = [Texture::new(95, 8, 8), Texture::new(96, 8, 8)];
    pass.bind_compute_storage_textures(1, &textures);
    pass.dispatch(4, 4, 1);
    let cmds = pass.commands();
    assert_eq!(cmds.len(), 4);
    assert_eq!(cmds[0], ComputeCmd::BindComputePipeline { pipeline });
    assert_eq!(
        cmds[1],
        ComputeCmd::BindStorageBuffers { first_slot: 0, buffers: vec![90, 91, 92] },
    );
    assert_eq!(
        cmds[2],
        ComputeCmd::BindStorageTextures { first_slot: 1, textures: vec![95, 96] },
    );
    assert_eq!(
        cmds[3],
        ComputeCmd::Dispatch { groupcount_x: 4, groupcount_y: 4, groupcount_z: 1 },
    );
}

#[test]
fn swapchain_acquisition_success_wraps_the_reported_texture() {
    let r = swapchain_texture_result(true, 123, 1920, 1080, String::new());
    assert_eq!(r, Ok(Texture { handle: 123, width: 1920, height: 1080 }));
}

#[test]
fn swapchain_acquisition_failure_carries_the_driver_error() {
    let r = swapchain_texture_result(false, 0, 0, 0, String::from("no frame ready"));
    match r {
        Err(e) => assert_eq!(e.message, "no frame ready"),
        Ok(_) => panic!("acquisition reported failure but result is a texture"),
    }
}
