use gpu_record::blit::BlitInfo;
use gpu_record::ops::{Filter, IndexElementSize, LoadOp, StoreOp};
use gpu_record::resources::{Color, Texture};
use gpu_record::targets::{ColorTargetInfo, DepthStencilTargetInfo};

#[test]
fn color_target_setters_assign_their_fields() {
    let texture = Texture::new(7, 640, 480);
    let info = ColorTargetInfo::default()
        .with_texture(&texture)
        .with_load_op(LoadOp::Clear)
        .with_store_op(StoreOp::Store)
        .with_clear_color(Color { r: 0, g: 0, b: 0, a: 255 });
    assert_eq!(info.texture, 7);
    assert_eq!(info.load_op, LoadOp::Clear);
    assert_eq!(info.store_op, StoreOp::Store);
    assert_eq!(info.clear_color.a_bits, 1.0f32.to_bits());
}

#[test]
fn color_target_last_write_wins() {
    let base = ColorTargetInfo::default();
    let twice = base
        .with_load_op(LoadOp::Clear)
        .with_store_op(StoreOp::DontCare)
        .with_load_op(LoadOp::Load);
    let once = base.with_store_op(StoreOp::DontCare).with_load_op(LoadOp::Load);
    assert_eq!(twice, once);
}

#[test]
fn color_target_distinct_writes_commute() {
    let base = ColorTargetInfo::default();
    let texture = Texture::new(3, 16, 16);
    let one_way = base.with_texture(&texture).with_load_op(LoadOp::DontCare);
    let other_way = base.with_load_op(LoadOp::DontCare).with_texture(&texture);
    assert_eq!(one_way, other_way);
}

#[test]
fn depth_stencil_new_is_zero_initialized() {
    let info = DepthStencilTargetInfo::new();
    assert_eq!(info.texture, 0);
    assert_eq!(info.clear_depth_bits, 0);
    assert_eq!(info.load_op, LoadOp::Load);
    assert_eq!(info.store_op, StoreOp::Store);
    assert_eq!(info.stencil_load_op, LoadOp::Load);
    assert_eq!(info.stencil_store_op, StoreOp::Store);
    assert!(!info.cycle);
    assert_eq!(info.clear_stencil, 0);
}

#[test]
fn depth_stencil_setters_assign_their_fields() {
    let mut texture = Texture::new(9, 800, 600);
    let info = DepthStencilTargetInfo::new()
        .with_texture(&mut texture)
        .with_clear_depth(1.0f32.to_bits())
        .with_load_op(LoadOp::Clear)
        .with_store_op(StoreOp::DontCare)
        .with_stencil_load_op(LoadOp::DontCare)
        .with_stencil_store_op(StoreOp::Store)
        .with_cycle(true)
        .with_clear_stencil(17);
    assert_eq!(info.texture, 9);
    assert_eq!(info.clear_depth_bits, 1.0f32.to_bits());
    assert_eq!(info.load_op, LoadOp::Clear);
    assert_eq!(info.store_op, StoreOp::DontCare);
    assert_eq!(info.stencil_load_op, LoadOp::DontCare);
    assert_eq!(info.stencil_store_op, StoreOp::Store);
    assert!(info.cycle);
    assert_eq!(info.clear_stencil, 17);
}

#[test]
fn depth_stencil_last_write_wins() {
    let base = DepthStencilTargetInfo::new();
    let twice = base.with_clear_stencil(1).with_cycle(true).with_clear_stencil(2);
    let once = base.with_cycle(true).with_clear_stencil(2);
    assert_eq!(twice, once);
}

#[test]
fn blit_setters_assign_their_fields() {
    let src = Texture::new(1, 256, 256);
    let dst = Texture::new(2, 512, 512);
    let info = BlitInfo::default()
        .with_source_texture(&src)
        .with_source_mip(1)
        .with_source_region(0, 8, 16, 32, 64)
        .with_destination_texture(&dst)
        .with_destination_mip(2)
        .with_destination_region(1, 0, 0, 128, 128)
        .with_load_op(LoadOp::DontCare)
        .with_clear_color(Color { r: 10, g: 20, b: 30, a: 40 })
        .with_filter(Filter::Linear)
        .with_cycle(true);
    assert_eq!(info.source.texture, 1);
    assert_eq!(info.source.mip_level, 1);
    assert_eq!(info.source.layer_or_depth_plane, 0);
    assert_eq!(info.source.x, 8);
    assert_eq!(info.source.y, 16);
    assert_eq!(info.source.w, 32);
    assert_eq!(info.source.h, 64);
    assert_eq!(info.destination.texture, 2);
    assert_eq!(info.destination.mip_level, 2);
    assert_eq!(info.destination.layer_or_depth_plane, 1);
    assert_eq!(info.destination.w, 128);
    assert_eq!(info.destination.h, 128);
    assert_eq!(info.load_op, LoadOp::DontCare);
    assert_eq!(info.clear_color.r_bits, (10.0f32 / 255.0).to_bits());
    assert_eq!(info.filter, Filter::Linear);
    assert!(info.cycle);
}

#[test]
fn blit_last_write_wins() {
    let src = Texture::new(1, 256, 256);
    let base = BlitInfo::default();
    let twice = base.with_source_mip(3).with_source_texture(&src).with_source_mip(5);
    let once = base.with_source_texture(&src).with_source_mip(5);
    assert_eq!(twice, once);
}

#[test]
fn blit_distinct_writes_commute() {
    let base = BlitInfo::default();
    let one_way = base.with_filter(Filter::Linear).with_cycle(true);
    let other_way = base.with_cycle(true).with_filter(Filter::Linear);
    assert_eq!(one_way, other_way);
}

#[test]
fn option_fields_map_to_the_native_encoding() {
    assert_eq!(LoadOp::Load.native_code(), 0);
    assert_eq!(LoadOp::Clear.native_code(), 1);
    assert_eq!(LoadOp::DontCare.native_code(), 2);
    assert_eq!(StoreOp::Store.native_code(), 0);
    assert_eq!(StoreOp::DontCare.native_code(), 1);
    assert_eq!(StoreOp::Resolve.native_code(), 2);
    assert_eq!(StoreOp::ResolveAndStore.native_code(), 3);
    assert_eq!(Filter::Nearest.native_code(), 0);
    assert_eq!(Filter::Linear.native_code(), 1);
    assert_eq!(IndexElementSize::Bits16.native_code(), 0);
    assert_eq!(IndexElementSize::Bits32.native_code(), 1);
}
