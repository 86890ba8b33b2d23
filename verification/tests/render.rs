use voxel_render::commands::{CommandStream, DrawCommand};
use voxel_render::device::{DeviceLog, GpuEvent, ObjectKind};
use voxel_render::pipeline_state::{
    descriptor_pool_desc, fixed_function_state, graphics_pipeline_desc, pipeline_layout_desc,
    vertex_data_binding, BlendFactor, BlendOp, CompareOp, CullMode, DescriptorType, PolygonMode,
    PrimitiveTopology,
};
use voxel_render::renderer::{Chunk, DrawBuffer, GraphicsContext, Voxels};

fn test_context() -> GraphicsContext {
    GraphicsContext {
        common_layout: 100,
        render_pass: 101,
        pipeline_cache: 102,
    }
}

fn test_buffer() -> DrawBuffer {
    DrawBuffer {
        vertex_buffer: 200,
        indirect_buffer: 201,
    }
}

fn created_count(events: &[GpuEvent], object: u64) -> usize {
    events
        .iter()
        .filter(|e| matches!(e, GpuEvent::Created { object: o, .. } if *o == object))
        .count()
}

fn destroyed_count(events: &[GpuEvent], object: u64) -> usize {
    events
        .iter()
        .filter(|e| matches!(e, GpuEvent::Destroyed { object: o, .. } if *o == object))
        .count()
}

#[test]
fn construction_records_expected_events() {
    let mut device = DeviceLog::new();
    let gfx = test_context();
    let buffer = test_buffer();
    let v = Voxels::new(&mut device, &gfx, &buffer);
    let expected = vec![
        GpuEvent::Created { kind: ObjectKind::ShaderModule, object: 1 },
        GpuEvent::Created { kind: ObjectKind::ShaderModule, object: 2 },
        GpuEvent::Created { kind: ObjectKind::DescriptorSetLayout, object: 3 },
        GpuEvent::Created { kind: ObjectKind::DescriptorPool, object: 4 },
        GpuEvent::Created { kind: ObjectKind::DescriptorSet, object: 5 },
        GpuEvent::DescriptorWritten { set: 5, binding: 0, buffer: 200 },
        GpuEvent::Created { kind: ObjectKind::PipelineLayout, object: 6 },
        GpuEvent::Created { kind: ObjectKind::Pipeline, object: 7 },
        GpuEvent::Named { object: 7 },
        GpuEvent::Destroyed { kind: ObjectKind::ShaderModule, object: 1 },
        GpuEvent::Destroyed { kind: ObjectKind::ShaderModule, object: 2 },
    ];
    assert_eq!(device.events, expected);
    assert_eq!(v.ds_layout, 3);
    assert_eq!(v.descriptor_pool, 4);
    assert_eq!(v.ds, 5);
    assert_eq!(v.pipeline_layout, 6);
    assert_eq!(v.pipeline, 7);
    assert_eq!(v.vertex_data_buffer, 200);
}

#[test]
fn construction_then_teardown_releases_each_object_once() {
    let mut device = DeviceLog::new();
    let gfx = test_context();
    let buffer = test_buffer();
    let v = Voxels::new(&mut device, &gfx, &buffer);
    v.destroy(&mut device);
    // Handles 1..=7 were created exactly once; all but the descriptor set
    // (5, freed with its pool) are destroyed exactly once; nothing else is
    // ever created or destroyed.
    for object in 1u64..=7 {
        assert_eq!(created_count(&device.events, object), 1);
        let expected = if object == 5 { 0 } else { 1 };
        assert_eq!(destroyed_count(&device.events, object), expected);
    }
    for object in [0u64, 8, 9, 100, 200] {
        assert_eq!(created_count(&device.events, object), 0);
        assert_eq!(destroyed_count(&device.events, object), 0);
    }
    // Teardown went down in reverse creation order.
    let teardown = &device.events[11..];
    assert_eq!(
        teardown,
        &[
            GpuEvent::Destroyed { kind: ObjectKind::Pipeline, object: 7 },
            GpuEvent::Destroyed { kind: ObjectKind::PipelineLayout, object: 6 },
            GpuEvent::Destroyed { kind: ObjectKind::DescriptorSetLayout, object: 3 },
            GpuEvent::Destroyed { kind: ObjectKind::DescriptorPool, object: 4 },
        ]
    );
}

#[test]
fn descriptor_set_points_at_vertex_buffer_for_good() {
    let mut device = DeviceLog::new();
    let gfx = test_context();
    let buffer = test_buffer();
    let mut v = Voxels::new(&mut device, &gfx, &buffer);
    let mut cmd = CommandStream::new();
    v.draw(&mut cmd, &buffer, &Chunk { slot: 0 });
    v.draw(&mut cmd, &buffer, &Chunk { slot: 1 });
    v.destroy(&mut device);
    // Exactly one descriptor write ever happens, and it points binding 0
    // of the renderer's set at the construction-time vertex-data buffer.
    let writes: Vec<&GpuEvent> = device
        .events
        .iter()
        .filter(|e| matches!(e, GpuEvent::DescriptorWritten { .. }))
        .collect();
    assert_eq!(writes.len(), 1);
    assert_eq!(
        *writes[0],
        GpuEvent::DescriptorWritten { set: 5, binding: 0, buffer: 200 }
    );
}

#[test]
fn draw_issues_one_indirect_draw_with_stride_16() {
    let mut device = DeviceLog::new();
    let gfx = test_context();
    let buffer = test_buffer();
    let mut v = Voxels::new(&mut device, &gfx, &buffer);
    let mut cmd = CommandStream::new();
    let chunk = Chunk { slot: 9 };
    v.draw(&mut cmd, &buffer, &chunk);
    assert_eq!(cmd.commands.len(), 3);
    let indirect: Vec<&DrawCommand> = cmd
        .commands
        .iter()
        .filter(|c| matches!(c, DrawCommand::DrawIndirect { .. }))
        .collect();
    assert_eq!(indirect.len(), 1);
    assert_eq!(
        *indirect[0],
        DrawCommand::DrawIndirect {
            buffer: 201,
            offset: buffer.indirect_offset(&chunk),
            draw_count: 1,
            stride: 16,
        }
    );
}

#[test]
fn distinct_chunks_resolve_to_disjoint_regions() {
    let buffer = test_buffer();
    let chunks = [Chunk { slot: 0 }, Chunk { slot: 1 }, Chunk { slot: 2 }, Chunk { slot: 7 }];
    for a in &chunks {
        for b in &chunks {
            if a.slot != b.slot {
                let oa = buffer.indirect_offset(a);
                let ob = buffer.indirect_offset(b);
                assert!(oa + 16 <= ob || ob + 16 <= oa);
            }
        }
    }
    assert_eq!(buffer.indirect_offset(&Chunk { slot: 0 }), 0);
    assert_eq!(buffer.indirect_offset(&Chunk { slot: 1 }), 16);
    assert_eq!(buffer.indirect_offset(&Chunk { slot: 2 }), 32);
}

#[test]
fn fixed_function_state_is_deterministic() {
    let a = fixed_function_state();
    let b = fixed_function_state();
    assert_eq!(a, b);
    assert_eq!(a.topology, PrimitiveTopology::TriangleList);
    assert!(a.dynamic_viewport);
    assert!(a.dynamic_scissor);
    assert_eq!(a.viewport_count, 1);
    assert_eq!(a.scissor_count, 1);
    assert_eq!(a.rasterization.cull_mode, CullMode::NoCulling);
    assert_eq!(a.rasterization.polygon_mode, PolygonMode::Fill);
    assert_eq!(a.rasterization.line_width_milli, 1000);
    assert_eq!(a.rasterization_samples, 1);
    assert!(a.depth_stencil.depth_test_enable);
    assert!(a.depth_stencil.depth_write_enable);
    assert_eq!(a.depth_stencil.depth_compare_op, CompareOp::GreaterOrEqual);
    assert!(!a.depth_stencil.stencil_test_enable);
    assert!(a.color_blend.blend_enable);
    assert_eq!(a.color_blend.src_color_blend_factor, BlendFactor::One);
    assert_eq!(a.color_blend.dst_color_blend_factor, BlendFactor::One);
    assert_eq!(a.color_blend.color_blend_op, BlendOp::Add);
    assert!(a.color_blend.color_write_mask.red);
    assert!(a.color_blend.color_write_mask.green);
    assert!(a.color_blend.color_write_mask.blue);
    assert!(!a.color_blend.color_write_mask.alpha);
}

#[test]
fn resource_descriptions_are_fixed() {
    let b = vertex_data_binding();
    assert_eq!(b.binding, 0);
    assert_eq!(b.descriptor_type, DescriptorType::StorageBuffer);
    assert_eq!(b.descriptor_count, 1);
    assert!(b.stages.vertex);
    assert!(!b.stages.fragment);
    let p = descriptor_pool_desc();
    assert_eq!(p.max_sets, 1);
    assert_eq!(p.storage_buffer_descriptors, 1);
    let l = pipeline_layout_desc(77, 88);
    assert_eq!(l.set0_layout, 77);
    assert_eq!(l.set1_layout, 88);
    let g = graphics_pipeline_desc(1, 2, 3, 4);
    assert_eq!(g.vertex_module, 1);
    assert_eq!(g.fragment_module, 2);
    assert_eq!(g.layout, 3);
    assert_eq!(g.render_pass, 4);
    assert_eq!(g.subpass, 0);
    assert_eq!(g.fixed, fixed_function_state());
}

#[test]
fn scenario_three_chunks_draw_middle_one() {
    let mut device = DeviceLog::new();
    let gfx = test_context();
    let buffer = test_buffer();
    let mut v = Voxels::new(&mut device, &gfx, &buffer);
    // Three chunks whose records sit at offsets 0, 16 and 32; draw the one
    // at offset 16.
    let chunks = [Chunk { slot: 0 }, Chunk { slot: 1 }, Chunk { slot: 2 }];
    assert_eq!(buffer.indirect_offset(&chunks[1]), 16);
    let mut cmd = CommandStream::new();
    v.draw(&mut cmd, &buffer, &chunks[1]);
    assert_eq!(
        cmd.commands,
        vec![
            DrawCommand::BindPipeline { pipeline: v.pipeline },
            DrawCommand::BindDescriptorSets {
                layout: v.pipeline_layout,
                first_set: 1,
                set: v.ds,
            },
            DrawCommand::DrawIndirect { buffer: 201, offset: 16, draw_count: 1, stride: 16 },
        ]
    );
}

#[test]
fn teardown_before_any_draw_succeeds() {
    let mut device = DeviceLog::new();
    let gfx = test_context();
    let buffer = test_buffer();
    let v = Voxels::new(&mut device, &gfx, &buffer);
    v.destroy(&mut device);
    assert_eq!(device.events.len(), 15);
}

#[test]
fn teardown_after_many_draws_matches_teardown_before() {
    let gfx = test_context();
    let buffer = test_buffer();

    let mut device_a = DeviceLog::new();
    let a = Voxels::new(&mut device_a, &gfx, &buffer);
    a.destroy(&mut device_a);

    let mut device_b = DeviceLog::new();
    let mut b = Voxels::new(&mut device_b, &gfx, &buffer);
    let mut cmd = CommandStream::new();
    for slot in 0..5u32 {
        b.draw(&mut cmd, &buffer, &Chunk { slot });
    }
    // Dispatch never mutates construction-time state, so the device log of
    // a renderer torn down after five draws matches one torn down at once.
    assert_eq!(cmd.commands.len(), 15);
    b.destroy(&mut device_b);
    assert_eq!(device_a.events, device_b.events);
}

#[test]
fn device_log_hands_out_fresh_handles() {
    let mut device = DeviceLog::new();
    let a = device.create(ObjectKind::ShaderModule);
    let b = device.create(ObjectKind::Pipeline);
    assert_ne!(a, b);
    assert_eq!(device.events.len(), 2);
}
