use fnv::FnvHashMap;
use render_frame::blend::BlendMode;
use render_frame::frame::{Command, Frame};
use render_frame::mask::MaskState;
use render_frame::ops::{Color, Geometry, Material, RenderOp, Uniform};
use render_frame::pipeline::{DrawKind, PipelineKey};
use render_frame::resources::{BitmapRegistry, DrawType, Mesh, MeshDraw, Texture};

fn color_draw(num_indices: u32, num_mask_indices: u32) -> MeshDraw {
    MeshDraw { draw_type: DrawType::Color, num_indices, num_mask_indices }
}

fn empty_registry() -> BitmapRegistry {
    FnvHashMap::default()
}

fn registry_with(handle: usize, width: u32, height: u32) -> BitmapRegistry {
    let mut r: BitmapRegistry = FnvHashMap::default();
    r.insert(handle, Texture { width, height });
    r
}

fn draws(ops: &[RenderOp<u32>]) -> Vec<(Option<MaskState>, u32)> {
    let mut out = Vec::new();
    let mut mask = None;
    for op in ops {
        match op {
            RenderOp::SetPipeline(key) => mask = Some(key.mask),
            RenderOp::DrawIndexed(n) => out.push((mask, *n)),
            _ => {}
        }
    }
    out
}

fn pipeline_binds(ops: &[RenderOp<u32>]) -> usize {
    ops.iter().filter(|op| matches!(op, RenderOp::SetPipeline(_))).count()
}

#[test]
fn new_frame_has_no_mask_and_normal_blend() {
    let meshes: Vec<Mesh> = Vec::new();
    let reg = empty_registry();
    let frame: Frame<u32> = Frame::new(&meshes, &reg);
    assert_eq!(frame.mask_state(), MaskState::NoMask);
    assert_eq!(frame.num_masks(), 0);
    assert_eq!(frame.blend_mode(), BlendMode::Normal);
    assert_eq!(frame.blend_depth(), 1);
    assert!(frame.recorded().is_empty());
}

#[test]
fn balanced_nested_masks_return_to_no_mask() {
    let meshes: Vec<Mesh> = Vec::new();
    let reg = empty_registry();
    let mut frame: Frame<u32> = Frame::new(&meshes, &reg);
    for _ in 0..3 {
        frame.push_mask();
        assert_eq!(frame.mask_state(), MaskState::DrawMaskStencil);
        frame.activate_mask();
        assert_eq!(frame.mask_state(), MaskState::DrawMaskedContent);
    }
    assert_eq!(frame.num_masks(), 3);
    for level in (0..3u32).rev() {
        frame.deactivate_mask();
        assert_eq!(frame.mask_state(), MaskState::ClearMaskStencil);
        frame.pop_mask();
        assert_eq!(frame.num_masks(), level);
    }
    assert_eq!(frame.mask_state(), MaskState::NoMask);
    assert_eq!(frame.num_masks(), 0);
    assert!(frame.finish().is_empty());
}

#[test]
fn pop_mask_resumes_enclosing_level() {
    let meshes: Vec<Mesh> = Vec::new();
    let reg = empty_registry();
    let mut frame: Frame<u32> = Frame::new(&meshes, &reg);
    frame.push_mask();
    frame.activate_mask();
    frame.push_mask();
    frame.activate_mask();
    frame.deactivate_mask();
    frame.pop_mask();
    assert_eq!(frame.mask_state(), MaskState::DrawMaskedContent);
    assert_eq!(frame.num_masks(), 1);
}

#[test]
fn mask_commands_out_of_order_are_refused() {
    let meshes: Vec<Mesh> = Vec::new();
    let reg = empty_registry();
    let mut frame: Frame<u32> = Frame::new(&meshes, &reg);
    assert!(!frame.can_handle(&Command::ActivateMask));
    assert!(!frame.can_handle(&Command::DeactivateMask));
    assert!(!frame.can_handle(&Command::PopMask));
    assert!(!frame.can_handle(&Command::PopBlendMode));
    assert!(frame.can_handle(&Command::PushMask));
    frame.push_mask();
    assert!(!frame.can_handle(&Command::PushMask));
    assert!(!frame.can_handle(&Command::PopMask));
    assert!(frame.can_handle(&Command::ActivateMask));
}

#[test]
fn stencil_reference_follows_phase() {
    let meshes: Vec<Mesh> = Vec::new();
    let reg = empty_registry();
    let mut frame: Frame<u32> = Frame::new(&meshes, &reg);
    let red = Color { r: 255, g: 0, b: 0, a: 255 };
    frame.draw_rect(red, 0);
    frame.push_mask();
    frame.draw_rect(red, 1);
    frame.activate_mask();
    frame.push_mask();
    frame.draw_rect(red, 2);
    frame.activate_mask();
    frame.draw_rect(red, 3);
    frame.deactivate_mask();
    frame.draw_rect(red, 4);
    let ops = frame.finish();
    let refs: Vec<u32> = ops
        .iter()
        .filter_map(|op| match op {
            RenderOp::SetStencilReference(r) => Some(*r),
            _ => None,
        })
        .collect();
    // none without a mask; depth - 1 while a plane is drawn; depth otherwise
    assert_eq!(refs, vec![0, 1, 2, 2]);
    assert_eq!(draws(&ops).len(), 5);
}

#[test]
fn push_then_pop_blend_restores_current_mode() {
    let meshes: Vec<Mesh> = Vec::new();
    let reg = empty_registry();
    let mut frame: Frame<u32> = Frame::new(&meshes, &reg);
    frame.push_blend_mode(BlendMode::Multiply);
    for mode in [BlendMode::Add, BlendMode::Normal, BlendMode::Erase, BlendMode::HardLight] {
        frame.push_blend_mode(mode);
        assert_eq!(frame.blend_mode(), mode);
        frame.pop_blend_mode();
        assert_eq!(frame.blend_mode(), BlendMode::Multiply);
        assert_eq!(frame.blend_depth(), 2);
    }
    frame.pop_blend_mode();
    assert_eq!(frame.blend_mode(), BlendMode::Normal);
    assert!(!frame.can_handle(&Command::PopBlendMode));
}

#[test]
fn blend_mode_selects_pipeline() {
    let meshes: Vec<Mesh> = Vec::new();
    let reg = empty_registry();
    let mut frame: Frame<u32> = Frame::new(&meshes, &reg);
    frame.push_blend_mode(BlendMode::Screen);
    frame.draw_rect(Color { r: 1, g: 2, b: 3, a: 4 }, 9);
    let ops = frame.finish();
    assert_eq!(
        ops[0],
        RenderOp::SetPipeline(PipelineKey {
            kind: DrawKind::Color,
            blend: BlendMode::Screen,
            mask: MaskState::NoMask,
        })
    );
}

#[test]
fn unregistered_bitmap_draws_nothing() {
    let meshes: Vec<Mesh> = Vec::new();
    let reg = registry_with(4, 10, 20);
    let mut frame: Frame<u32> = Frame::new(&meshes, &reg);
    frame.push_mask();
    frame.push_blend_mode(BlendMode::Darken);
    frame.render_bitmap(5, 1, true);
    assert!(frame.recorded().is_empty());
    assert_eq!(frame.mask_state(), MaskState::DrawMaskStencil);
    assert_eq!(frame.num_masks(), 1);
    assert_eq!(frame.blend_mode(), BlendMode::Darken);
    assert_eq!(frame.blend_depth(), 2);
}

#[test]
fn registered_bitmap_is_scaled_to_its_size() {
    let meshes: Vec<Mesh> = Vec::new();
    let reg = registry_with(4, 10, 20);
    let mut frame: Frame<u32> = Frame::new(&meshes, &reg);
    frame.render_bitmap(4, 77, true);
    let ops = frame.finish();
    let expected: Vec<RenderOp<u32>> = vec![
        RenderOp::SetPipeline(PipelineKey {
            kind: DrawKind::Bitmap,
            blend: BlendMode::Normal,
            mask: MaskState::NoMask,
        }),
        RenderOp::BindGlobals,
        RenderOp::WriteUniforms(Uniform::ScaledTransform { transform: 77, width: 10, height: 20 }),
        RenderOp::BindMaterial(Material::Bitmap(4)),
        RenderOp::BindSampler { repeating: false, smoothed: true },
        RenderOp::SetVertexBuffer(Geometry::Quad),
        RenderOp::SetIndexBuffer(Geometry::Quad),
        RenderOp::DrawIndexed(6),
    ];
    assert_eq!(ops, expected);
}

#[test]
fn shape_with_no_indices_binds_no_pipeline() {
    let meshes = vec![Mesh { draws: vec![color_draw(12, 0), color_draw(9, 0)] }];
    let reg = empty_registry();
    let mut frame: Frame<u32> = Frame::new(&meshes, &reg);
    frame.push_mask();
    frame.render_shape(0, 3);
    let ops = frame.finish();
    assert_eq!(pipeline_binds(&ops), 0);
    assert!(draws(&ops).is_empty());
    assert_eq!(ops, vec![RenderOp::BindGlobals, RenderOp::WriteUniforms(Uniform::Transform(3))]);
}

#[test]
fn shape_draws_fills_only_while_building_mask() {
    let meshes = vec![Mesh {
        draws: vec![
            color_draw(12, 6),
            MeshDraw { draw_type: DrawType::Gradient, num_indices: 30, num_mask_indices: 0 },
            MeshDraw {
                draw_type: DrawType::Bitmap { is_repeating: true, is_smoothed: false },
                num_indices: 9,
                num_mask_indices: 3,
            },
        ],
    }];
    let reg = empty_registry();
    let mut frame: Frame<u32> = Frame::new(&meshes, &reg);
    frame.render_shape(0, 1);
    frame.push_mask();
    frame.render_shape(0, 2);
    let ops = frame.finish();
    let d = draws(&ops);
    assert_eq!(
        d,
        vec![
            (Some(MaskState::NoMask), 12),
            (Some(MaskState::NoMask), 30),
            (Some(MaskState::NoMask), 9),
            (Some(MaskState::DrawMaskStencil), 6),
            (Some(MaskState::DrawMaskStencil), 3),
        ]
    );
    assert!(ops.contains(&RenderOp::BindMaterial(Material::MeshDraw { shape: 0, draw: 1 })));
    assert!(ops.contains(&RenderOp::BindSampler { repeating: true, smoothed: false }));
    assert!(ops.contains(&RenderOp::SetIndexBuffer(Geometry::MeshDraw { shape: 0, draw: 2 })));
}

#[test]
fn draw_rect_color_adjustment() {
    let meshes: Vec<Mesh> = Vec::new();
    let reg = empty_registry();
    let mut frame: Frame<u32> = Frame::new(&meshes, &reg);
    frame.draw_rect(Color { r: 255, g: 0, b: 0, a: 128 }, 5);
    let ops = frame.finish();
    let uniform = ops
        .iter()
        .find_map(|op| match op {
            RenderOp::WriteUniforms(u) => Some(u.clone()),
            _ => None,
        })
        .unwrap();
    match uniform {
        Uniform::FlatColor { matrix, color } => {
            assert_eq!(matrix, 5);
            let mult = [color.r, color.g, color.b, color.a].map(|c| f32::from(c) / 255.0);
            assert_eq!(mult[0], 1.0);
            assert_eq!(mult[1], 0.0);
            assert_eq!(mult[2], 0.0);
            assert!((mult[3] - 0.50196).abs() < 1e-5);
        }
        other => panic!("unexpected uniform {:?}", other),
    }
    assert_eq!(draws(&ops), vec![(Some(MaskState::NoMask), 6)]);
}

#[test]
fn masked_scenario_draw_phases() {
    let meshes = vec![
        Mesh { draws: vec![color_draw(12, 12)] },
        Mesh { draws: vec![color_draw(24, 18)] },
    ];
    let reg = registry_with(7, 4, 4);
    let mut frame: Frame<u32> = Frame::new(&meshes, &reg);
    let commands = vec![
        Command::PushMask,
        Command::RenderShape { shape: 0, transform: 1 },
        Command::ActivateMask,
        Command::RenderShape { shape: 1, transform: 2 },
        Command::DeactivateMask,
        Command::RenderBitmap { bitmap: 7, transform: 3, smoothing: false },
        Command::PopMask,
    ];
    for c in commands {
        assert!(frame.can_handle(&c));
        frame.handle(c);
    }
    assert_eq!(frame.mask_state(), MaskState::NoMask);
    assert_eq!(frame.num_masks(), 0);
    let ops = frame.finish();
    assert_eq!(
        draws(&ops),
        vec![
            (Some(MaskState::DrawMaskStencil), 12),
            (Some(MaskState::DrawMaskedContent), 24),
            (Some(MaskState::ClearMaskStencil), 6),
        ]
    );
    let refs: Vec<u32> = ops
        .iter()
        .filter_map(|op| match op {
            RenderOp::SetStencilReference(r) => Some(*r),
            _ => None,
        })
        .collect();
    assert_eq!(refs, vec![0, 1, 1]);
}

#[test]
fn srgb_copy_pass() {
    let meshes: Vec<Mesh> = Vec::new();
    let reg = empty_registry();
    let frame: Frame<u32> = Frame::new(&meshes, &reg);
    let pass = frame.swap_srgb(800, 600);
    assert_eq!(pass.len(), 8);
    assert_eq!(pass[0], RenderOp::SetCopyPipeline);
    assert_eq!(pass[2], RenderOp::WriteUniforms(Uniform::Viewport { width: 800, height: 600 }));
    assert_eq!(pass[3], RenderOp::BindMaterial(Material::CopySource));
    assert_eq!(pass[7], RenderOp::DrawIndexed(6));
    assert!(frame.finish().is_empty());
}

#[test]
fn interleaved_commands_close_all_masks() {
    let meshes = vec![Mesh { draws: vec![color_draw(3, 3)] }];
    let reg = registry_with(1, 2, 2);
    let mut frame: Frame<u32> = Frame::new(&meshes, &reg);
    let commands = vec![
        Command::PushBlendMode(BlendMode::Add),
        Command::PushMask,
        Command::RenderShape { shape: 0, transform: 0 },
        Command::ActivateMask,
        Command::PushMask,
        Command::DrawRect { color: Color { r: 0, g: 0, b: 0, a: 0 }, matrix: 1 },
        Command::ActivateMask,
        Command::RenderBitmap { bitmap: 1, transform: 2, smoothing: true },
        Command::DeactivateMask,
        Command::PopMask,
        Command::PopBlendMode,
        Command::DeactivateMask,
        Command::PopMask,
    ];
    for c in commands {
        assert!(frame.can_handle(&c));
        frame.handle(c);
    }
    assert_eq!(frame.mask_state(), MaskState::NoMask);
    assert_eq!(frame.num_masks(), 0);
    assert_eq!(frame.blend_mode(), BlendMode::Normal);
    let ops = frame.finish();
    assert_eq!(
        draws(&ops),
        vec![
            (Some(MaskState::DrawMaskStencil), 3),
            (Some(MaskState::DrawMaskStencil), 6),
            (Some(MaskState::DrawMaskedContent), 6),
        ]
    );
    assert!(ops.contains(&RenderOp::SetPipeline(PipelineKey {
        kind: DrawKind::Bitmap,
        blend: BlendMode::Add,
        mask: MaskState::DrawMaskedContent,
    })));
}
