//! The per-frame command handler: it keeps the mask and blend state and
//! records, for each command, the GPU work that draws it.
use vstd::prelude::*;
use crate::blend::{popped, pushed, BlendMode, BlendStack};
use crate::mask::{stencil_reference_of, uses_mask_indices, MaskMachine, MaskOp, MaskState};
use crate::ops::{Color, Geometry, Material, RenderOp, Uniform, QUAD_INDICES};
use crate::pipeline::{DrawKind, PipelineKey};
use crate::resources::{
    draw_kind, kind_of, lookup, registry_get, BitmapRegistry, DrawType, Mesh, MeshDraw, Texture,
};

verus! {

/// A drawing command; `X` is the caller's transform.
#[derive(Clone, Debug, PartialEq, Eq)]
pub enum Command<X> {
    RenderBitmap { bitmap: usize, transform: X, smoothing: bool },
    RenderShape { shape: usize, transform: X },
    DrawRect { color: Color, matrix: X },
    PushMask,
    ActivateMask,
    DeactivateMask,
    PopMask,
    PushBlendMode(BlendMode),
    PopBlendMode,
}

/// The state a frame carries from one command to the next.
pub struct FrameState {
    pub mask: MaskMachine,
    pub blends: Seq<BlendMode>,
}

impl FrameState {
    pub open spec fn wf(self) -> bool {
        &&& self.mask.wf()
        &&& self.blends.len() > 0
        &&& self.blends[0] == BlendMode::Normal
    }

    /// The current blend mode.
    pub open spec fn blend(self) -> BlendMode {
        self.blends.last()
    }

    /// The pipeline of a draw of `kind` in this state.
    pub open spec fn key(self, kind: DrawKind) -> PipelineKey {
        PipelineKey { kind, blend: self.blend(), mask: self.mask.state }
    }
}

/// The state of a frame before its first command.
pub open spec fn initial_state() -> FrameState {
    FrameState {
        mask: MaskMachine { state: MaskState::NoMask, depth: 0 },
        blends: seq![BlendMode::Normal],
    }
}

/// Sets the stencil reference, where the mask state calls for one.
pub open spec fn stencil_ops<X>(m: MaskMachine) -> Seq<RenderOp<X>> {
    match stencil_reference_of(m.state, m.depth) {
        Some(r) => seq![RenderOp::SetStencilReference(r)],
        None => Seq::empty(),
    }
}

/// A resident bitmap drawn on the unit quad scaled to its pixel size.
pub open spec fn bitmap_ops<X>(
    st: FrameState,
    bitmap: usize,
    tex: Texture,
    transform: X,
    smoothing: bool,
) -> Seq<RenderOp<X>> {
    seq![
        RenderOp::SetPipeline(st.key(DrawKind::Bitmap)),
        RenderOp::BindGlobals,
        RenderOp::WriteUniforms(
            Uniform::ScaledTransform { transform, width: tex.width, height: tex.height },
        ),
        RenderOp::BindMaterial(Material::Bitmap(bitmap)),
        RenderOp::BindSampler { repeating: false, smoothed: smoothing },
        RenderOp::SetVertexBuffer(Geometry::Quad),
        RenderOp::SetIndexBuffer(Geometry::Quad),
    ] + stencil_ops(st.mask) + seq![RenderOp::DrawIndexed(QUAD_INDICES)]
}

/// A flat-coloured unit quad.
pub open spec fn rect_ops<X>(st: FrameState, color: Color, matrix: X) -> Seq<RenderOp<X>> {
    seq![
        RenderOp::SetPipeline(st.key(DrawKind::Color)),
        RenderOp::BindGlobals,
        RenderOp::WriteUniforms(Uniform::FlatColor { matrix, color }),
        RenderOp::SetVertexBuffer(Geometry::Quad),
        RenderOp::SetIndexBuffer(Geometry::Quad),
    ] + stencil_ops(st.mask) + seq![RenderOp::DrawIndexed(QUAD_INDICES)]
}

/// Indices of `d` that a draw in mask state `m` issues: the fills alone while
/// a stencil plane is built or cleared.
pub open spec fn index_count(m: MaskMachine, d: MeshDraw) -> u32 {
    if uses_mask_indices(m.state) {
        d.num_mask_indices
    } else {
        d.num_indices
    }
}

/// The material and sampler bindings of a fill.
pub open spec fn material_ops<X>(t: DrawType, shape: usize, draw: usize) -> Seq<RenderOp<X>> {
    match t {
        DrawType::Color => Seq::empty(),
        DrawType::Gradient => seq![RenderOp::BindMaterial(Material::MeshDraw { shape, draw })],
        DrawType::Bitmap { is_repeating, is_smoothed } => seq![
            RenderOp::BindMaterial(Material::MeshDraw { shape, draw }),
            RenderOp::BindSampler { repeating: is_repeating, smoothed: is_smoothed },
        ],
    }
}

/// Sub-draw `draw` of a shape; nothing at all where it has no indices to draw.
pub open spec fn sub_draw_ops<X>(st: FrameState, shape: usize, draw: usize, d: MeshDraw) -> Seq<
    RenderOp<X>,
> {
    if index_count(st.mask, d) == 0 {
        Seq::empty()
    } else {
        seq![RenderOp::SetPipeline(st.key(kind_of(d.draw_type)))] + material_ops(
            d.draw_type,
            shape,
            draw,
        ) + seq![
            RenderOp::SetVertexBuffer(Geometry::MeshDraw { shape, draw }),
            RenderOp::SetIndexBuffer(Geometry::MeshDraw { shape, draw }),
        ] + stencil_ops(st.mask) + seq![RenderOp::DrawIndexed(index_count(st.mask, d))]
    }
}

/// The first `n` sub-draws of a shape, in order.
pub open spec fn sub_draws_ops<X>(st: FrameState, shape: usize, draws: Seq<MeshDraw>, n: nat) -> Seq<
    RenderOp<X>,
>
    decreases n,
{
    if n == 0 {
        Seq::empty()
    } else {
        sub_draws_ops(st, shape, draws, (n - 1) as nat) + sub_draw_ops(
            st,
            shape,
            (n - 1) as usize,
            draws[n - 1],
        )
    }
}

/// A shape: its uniforms once, then each of its sub-draws.
pub open spec fn shape_ops<X>(st: FrameState, shape: usize, draws: Seq<MeshDraw>, transform: X) -> Seq<
    RenderOp<X>,
> {
    seq![RenderOp::BindGlobals, RenderOp::WriteUniforms(Uniform::Transform(transform))]
        + sub_draws_ops(st, shape, draws, draws.len())
}

/// The colour-space copy of the finished frame, in a pass of its own.
pub open spec fn srgb_copy_ops<X>(width: u32, height: u32) -> Seq<RenderOp<X>> {
    seq![
        RenderOp::SetCopyPipeline,
        RenderOp::BindGlobals,
        RenderOp::WriteUniforms(Uniform::Viewport { width, height }),
        RenderOp::BindMaterial(Material::CopySource),
        RenderOp::BindSampler { repeating: false, smoothed: false },
        RenderOp::SetVertexBuffer(Geometry::Quad),
        RenderOp::SetIndexBuffer(Geometry::Quad),
        RenderOp::DrawIndexed(QUAD_INDICES),
    ]
}

/// Whether `cmd` may come in state `st`: a shape must exist, mask commands
/// must follow the mask state machine, and the default blend mode is never
/// popped.
pub open spec fn command_allowed<X>(st: FrameState, cmd: Command<X>, meshes: Seq<Mesh>) -> bool {
    match cmd {
        Command::RenderShape { shape, .. } => shape < meshes.len(),
        Command::PushMask => st.mask.step(MaskOp::Push).is_some(),
        Command::ActivateMask => st.mask.step(MaskOp::Activate).is_some(),
        Command::DeactivateMask => st.mask.step(MaskOp::Deactivate).is_some(),
        Command::PopMask => st.mask.step(MaskOp::Pop).is_some(),
        Command::PopBlendMode => st.blends.len() > 1,
        _ => true,
    }
}

/// The state after `cmd`.
pub open spec fn state_after<X>(st: FrameState, cmd: Command<X>) -> FrameState {
    match cmd {
        Command::PushMask => FrameState { mask: st.mask.step(MaskOp::Push).unwrap(), ..st },
        Command::ActivateMask => FrameState {
            mask: st.mask.step(MaskOp::Activate).unwrap(),
            ..st
        },
        Command::DeactivateMask => FrameState {
            mask: st.mask.step(MaskOp::Deactivate).unwrap(),
            ..st
        },
        Command::PopMask => FrameState { mask: st.mask.step(MaskOp::Pop).unwrap(), ..st },
        Command::PushBlendMode(mode) => FrameState { blends: pushed(st.blends, mode), ..st },
        Command::PopBlendMode => FrameState { blends: popped(st.blends), ..st },
        _ => st,
    }
}

/// The GPU work `cmd` records in state `st`.
pub open spec fn ops_for<X>(
    st: FrameState,
    cmd: Command<X>,
    meshes: Seq<Mesh>,
    bitmaps: Map<usize, Texture>,
) -> Seq<RenderOp<X>> {
    match cmd {
        Command::RenderBitmap { bitmap, transform, smoothing } => match lookup(bitmaps, bitmap) {
            Some(tex) => bitmap_ops(st, bitmap, tex, transform, smoothing),
            None => Seq::empty(),
        },
        Command::RenderShape { shape, transform } => shape_ops(
            st,
            shape,
            meshes[shape as int].draws@,
            transform,
        ),
        Command::DrawRect { color, matrix } => rect_ops(st, color, matrix),
        _ => Seq::empty(),
    }
}

/// One frame's command handler over borrowed meshes and bitmaps.
pub struct Frame<'a, X> {
    meshes: &'a Vec<Mesh>,
    bitmaps: &'a BitmapRegistry,
    masks: MaskMachine,
    blend_modes: BlendStack,
    pass: Vec<RenderOp<X>>,
}

impl<'a, X> Frame<'a, X> {
    pub closed spec fn state(&self) -> FrameState {
        FrameState { mask: self.masks, blends: self.blend_modes@ }
    }

    /// The work recorded so far, in order.
    pub closed spec fn ops(&self) -> Seq<RenderOp<X>> {
        self.pass@
    }

    pub closed spec fn meshes(&self) -> Seq<Mesh> {
        self.meshes@
    }

    pub closed spec fn bitmaps(&self) -> Map<usize, Texture> {
        self.bitmaps@
    }

    pub open spec fn wf(&self) -> bool {
        self.state().wf()
    }

    /// `next` is this frame after handling `cmd`.
    pub open spec fn handles(&self, next: &Self, cmd: Command<X>) -> bool {
        &&& next.wf()
        &&& next.state() == state_after(self.state(), cmd)
        &&& next.ops() == self.ops() + ops_for(self.state(), cmd, self.meshes(), self.bitmaps())
        &&& next.meshes() == self.meshes()
        &&& next.bitmaps() == self.bitmaps()
    }

    /// A frame with no mask open, the default blend mode, and nothing
    /// recorded.
    pub fn new(meshes: &'a Vec<Mesh>, bitmaps: &'a BitmapRegistry) -> (r: Frame<'a, X>)
        ensures
            r.wf(),
            r.state() == initial_state(),
            r.ops() == Seq::<RenderOp<X>>::empty(),
            r.meshes() == meshes@,
            r.bitmaps() == bitmaps@,
    {
        let r = Frame {
            meshes,
            bitmaps,
            masks: MaskMachine::new(),
            blend_modes: BlendStack::new(),
            pass: Vec::new(),
        };
        assert(r.state().blends =~= seq![BlendMode::Normal]);
        r
    }

    /// The current blend mode.
    pub fn blend_mode(&self) -> (r: BlendMode)
        requires
            self.wf(),
        ensures
            r == self.state().blend(),
    {
        self.blend_modes.current()
    }

    /// The phase of the innermost mask.
    pub fn mask_state(&self) -> (r: MaskState)
        ensures
            r == self.state().mask.state,
    {
        self.masks.state
    }

    /// How many masks are open.
    pub fn num_masks(&self) -> (r: u32)
        ensures
            r == self.state().mask.depth,
    {
        self.masks.depth
    }

    /// How many blend modes are on the stack, the default one included.
    pub fn blend_depth(&self) -> (r: usize)
        ensures
            r == self.state().blends.len(),
    {
        self.blend_modes.len()
    }

    /// The work recorded so far.
    pub fn recorded(&self) -> (r: &Vec<RenderOp<X>>)
        ensures
            r@ == self.ops(),
    {
        &self.pass
    }

    /// Whether `cmd` may be handled now.
    pub fn can_handle(&self, cmd: &Command<X>) -> (r: bool)
        ensures
            r == command_allowed(self.state(), *cmd, self.meshes()),
    {
        match cmd {
            Command::RenderShape { shape, .. } => *shape < self.meshes.len(),
            Command::PushMask => self.masks.can_apply(MaskOp::Push),
            Command::ActivateMask => self.masks.can_apply(MaskOp::Activate),
            Command::DeactivateMask => self.masks.can_apply(MaskOp::Deactivate),
            Command::PopMask => self.masks.can_apply(MaskOp::Pop),
            Command::PopBlendMode => self.blend_modes.len() > 1,
            _ => true,
        }
    }

    /// Records the stencil reference the mask state calls for, if any.
    fn record_stencil_reference(&mut self)
        requires
            old(self).wf(),
        ensures
            final(self).state() == old(self).state(),
            final(self).meshes() == old(self).meshes(),
            final(self).bitmaps() == old(self).bitmaps(),
            final(self).ops() == old(self).ops() + stencil_ops::<X>(old(self).state().mask),
    {
        match self.masks.stencil_reference() {
            Some(r) => {
                self.pass.push(RenderOp::SetStencilReference(r));
            },
            None => {
                assert(self.pass@ =~= old(self).pass@ + stencil_ops::<X>(self.masks));
            },
        }
    }

    /// Records one sub-draw of shape `shape`, or nothing where it has no
    /// indices to draw in the current mask state.
    fn record_sub_draw(&mut self, blend: BlendMode, shape: usize, i: usize, draw: MeshDraw)
        requires
            old(self).wf(),
            blend == old(self).state().blend(),
        ensures
            final(self).state() == old(self).state(),
            final(self).meshes() == old(self).meshes(),
            final(self).bitmaps() == old(self).bitmaps(),
            final(self).ops() == old(self).ops() + sub_draw_ops::<X>(
                old(self).state(),
                shape,
                i,
                draw,
            ),
    {
        let count = if self.masks.uses_mask_indices() {
            draw.num_mask_indices
        } else {
            draw.num_indices
        };
        if count == 0 {
            assert(self.pass@ =~= old(self).pass@ + sub_draw_ops::<X>(self.state(), shape, i, draw));
            return;
        }
        let key = PipelineKey { kind: draw_kind(draw.draw_type), blend, mask: self.masks.state };
        self.pass.push(RenderOp::SetPipeline(key));
        match draw.draw_type {
            DrawType::Color => {},
            DrawType::Gradient => {
                self.pass.push(RenderOp::BindMaterial(Material::MeshDraw { shape, draw: i }));
            },
            DrawType::Bitmap { is_repeating, is_smoothed } => {
                self.pass.push(RenderOp::BindMaterial(Material::MeshDraw { shape, draw: i }));
                self.pass.push(
                    RenderOp::BindSampler { repeating: is_repeating, smoothed: is_smoothed },
                );
            },
        }
        let ghost before_buffers = self.pass@;
        assert(before_buffers =~= old(self).pass@ + seq![RenderOp::SetPipeline(key)]
            + material_ops::<X>(draw.draw_type, shape, i));
        self.pass.push(RenderOp::SetVertexBuffer(Geometry::MeshDraw { shape, draw: i }));
        self.pass.push(RenderOp::SetIndexBuffer(Geometry::MeshDraw { shape, draw: i }));
        self.record_stencil_reference();
        self.pass.push(RenderOp::DrawIndexed(count));
        assert(self.pass@ =~= old(self).pass@ + sub_draw_ops::<X>(old(self).state(), shape, i, draw));
    }

    /// Draws shape `shape`: its uniforms once, then each sub-draw that has
    /// indices to draw in the current mask state.
    pub fn render_shape(&mut self, shape: usize, transform: X)
        requires
            old(self).wf(),
            shape < old(self).meshes().len(),
        ensures
            old(self).handles(final(self), (Command::RenderShape { shape, transform })),
    {
        let ghost t = transform;
        let ghost st = self.state();
        let blend = self.blend_modes.current();
        self.pass.push(RenderOp::BindGlobals);
        self.pass.push(RenderOp::WriteUniforms(Uniform::Transform(transform)));
        let ghost head = self.pass@;
        assert(head =~= old(self).pass@ + seq![
            RenderOp::BindGlobals,
            RenderOp::WriteUniforms(Uniform::Transform(t)),
        ]);
        let meshes: &'a Vec<Mesh> = self.meshes;
        let mesh: &Mesh = &meshes[shape];
        let mut i: usize = 0;
        while i < mesh.draws.len()
            invariant
                self.wf(),
                self.state() == st,
                self.meshes() == old(self).meshes(),
                self.bitmaps() == old(self).bitmaps(),
                meshes@ == self.meshes(),
                *mesh == meshes@[shape as int],
                blend == st.blend(),
                i <= mesh.draws@.len(),
                self.ops() == head + sub_draws_ops::<X>(st, shape, mesh.draws@, i as nat),
            decreases mesh.draws@.len() - i,
        {
            let draw = mesh.draws[i];
            self.record_sub_draw(blend, shape, i, draw);
            assert(self.ops() =~= head + sub_draws_ops::<X>(st, shape, mesh.draws@, (i + 1) as nat));
            i = i + 1;
        }
        assert(self.ops() =~= old(self).ops() + shape_ops(st, shape, mesh.draws@, t));
    }

    /// Draws the bitmap registered under `bitmap` on the unit quad scaled to
    /// its pixel size, then `transform`; draws nothing where no texture is
    /// registered under it.
    pub fn render_bitmap(&mut self, bitmap: usize, transform: X, smoothing: bool)
        requires
            old(self).wf(),
        ensures
            old(self).handles(final(self), (Command::RenderBitmap { bitmap, transform, smoothing })),
    {
        let ghost t = transform;
        match registry_get(self.bitmaps, bitmap) {
            Some(texture) => {
                let blend = self.blend_modes.current();
                let key = PipelineKey { kind: DrawKind::Bitmap, blend, mask: self.masks.state };
                self.pass.push(RenderOp::SetPipeline(key));
                self.pass.push(RenderOp::BindGlobals);
                self.pass.push(
                    RenderOp::WriteUniforms(
                        Uniform::ScaledTransform {
                            transform,
                            width: texture.width,
                            height: texture.height,
                        },
                    ),
                );
                self.pass.push(RenderOp::BindMaterial(Material::Bitmap(bitmap)));
                self.pass.push(RenderOp::BindSampler { repeating: false, smoothed: smoothing });
                self.pass.push(RenderOp::SetVertexBuffer(Geometry::Quad));
                self.pass.push(RenderOp::SetIndexBuffer(Geometry::Quad));
                self.record_stencil_reference();
                self.pass.push(RenderOp::DrawIndexed(QUAD_INDICES));
                assert(self.pass@ =~= old(self).pass@ + bitmap_ops(
                    old(self).state(),
                    bitmap,
                    texture,
                    t,
                    smoothing,
                ));
            },
            None => {
                assert(self.pass@ =~= old(self).pass@ + Seq::<RenderOp<X>>::empty());
            },
        }
    }

    /// Draws the unit quad under `matrix` in flat `color`.
    pub fn draw_rect(&mut self, color: Color, matrix: X)
        requires
            old(self).wf(),
        ensures
            old(self).handles(final(self), (Command::DrawRect { color, matrix })),
    {
        let ghost m = matrix;
        let blend = self.blend_modes.current();
        let key = PipelineKey { kind: DrawKind::Color, blend, mask: self.masks.state };
        self.pass.push(RenderOp::SetPipeline(key));
        self.pass.push(RenderOp::BindGlobals);
        self.pass.push(RenderOp::WriteUniforms(Uniform::FlatColor { matrix, color }));
        self.pass.push(RenderOp::SetVertexBuffer(Geometry::Quad));
        self.pass.push(RenderOp::SetIndexBuffer(Geometry::Quad));
        self.record_stencil_reference();
        self.pass.push(RenderOp::DrawIndexed(QUAD_INDICES));
        assert(self.pass@ =~= old(self).pass@ + rect_ops(old(self).state(), color, m));
    }

    fn apply_mask(&mut self, op: MaskOp)
        requires
            old(self).wf(),
            old(self).state().mask.step(op).is_some(),
        ensures
            final(self).wf(),
            final(self).state() == (FrameState {
                mask: old(self).state().mask.step(op).unwrap(),
                ..old(self).state()
            }),
            final(self).ops() == old(self).ops(),
            final(self).meshes() == old(self).meshes(),
            final(self).bitmaps() == old(self).bitmaps(),
    {
        proof {
            crate::mask::lemma_step_preserves_wf(self.masks, op);
        }
        self.masks.apply(op);
        assert(self.pass@ =~= old(self).pass@ + Seq::<RenderOp<X>>::empty());
    }

    /// Opens a mask level: its stencil plane is drawn next.
    pub fn push_mask(&mut self)
        requires
            old(self).wf(),
            old(self).state().mask.step(MaskOp::Push).is_some(),
        ensures
            old(self).handles(final(self), Command::PushMask),
    {
        self.apply_mask(MaskOp::Push);
    }

    /// The innermost stencil plane is built: content is tested against it next.
    pub fn activate_mask(&mut self)
        requires
            old(self).wf(),
            old(self).state().mask.step(MaskOp::Activate).is_some(),
        ensures
            old(self).handles(final(self), Command::ActivateMask),
    {
        self.apply_mask(MaskOp::Activate);
    }

    /// The masked content is done: the innermost stencil plane is cleared next.
    pub fn deactivate_mask(&mut self)
        requires
            old(self).wf(),
            old(self).state().mask.step(MaskOp::Deactivate).is_some(),
        ensures
            old(self).handles(final(self), Command::DeactivateMask),
    {
        self.apply_mask(MaskOp::Deactivate);
    }

    /// Closes the innermost mask level, resuming the enclosing one if any.
    pub fn pop_mask(&mut self)
        requires
            old(self).wf(),
            old(self).state().mask.step(MaskOp::Pop).is_some(),
        ensures
            old(self).handles(final(self), Command::PopMask),
    {
        self.apply_mask(MaskOp::Pop);
    }

    /// Makes `blend` the current blend mode.
    pub fn push_blend_mode(&mut self, blend: BlendMode)
        requires
            old(self).wf(),
        ensures
            old(self).handles(final(self), Command::PushBlendMode(blend)),
    {
        self.blend_modes.push(blend);
        assert(self.pass@ =~= old(self).pass@ + Seq::<RenderOp<X>>::empty());
    }

    /// Restores the blend mode that was current before the last push.
    pub fn pop_blend_mode(&mut self)
        requires
            old(self).wf(),
            old(self).state().blends.len() > 1,
        ensures
            old(self).handles(final(self), Command::PopBlendMode),
    {
        self.blend_modes.pop();
        assert(self.pass@ =~= old(self).pass@ + Seq::<RenderOp<X>>::empty());
    }

    /// Handles one command of any kind.
    pub fn handle(&mut self, cmd: Command<X>)
        requires
            old(self).wf(),
            command_allowed(old(self).state(), cmd, old(self).meshes()),
        ensures
            old(self).handles(final(self), cmd),
    {
        match cmd {
            Command::RenderBitmap { bitmap, transform, smoothing } => {
                self.render_bitmap(bitmap, transform, smoothing)
            },
            Command::RenderShape { shape, transform } => self.render_shape(shape, transform),
            Command::DrawRect { color, matrix } => self.draw_rect(color, matrix),
            Command::PushMask => self.push_mask(),
            Command::ActivateMask => self.activate_mask(),
            Command::DeactivateMask => self.deactivate_mask(),
            Command::PopMask => self.pop_mask(),
            Command::PushBlendMode(blend) => self.push_blend_mode(blend),
            Command::PopBlendMode => self.pop_blend_mode(),
        }
    }

    /// The colour-space copy of the finished frame: a render pass of its own
    /// that draws the copy source on the unit quad scaled to the output size.
    pub fn swap_srgb(&self, width: u32, height: u32) -> (r: Vec<RenderOp<X>>)
        ensures
            r@ == srgb_copy_ops::<X>(width, height),
    {
        let mut copy_pass: Vec<RenderOp<X>> = Vec::new();
        copy_pass.push(RenderOp::SetCopyPipeline);
        copy_pass.push(RenderOp::BindGlobals);
        copy_pass.push(RenderOp::WriteUniforms(Uniform::Viewport { width, height }));
        copy_pass.push(RenderOp::BindMaterial(Material::CopySource));
        copy_pass.push(RenderOp::BindSampler { repeating: false, smoothed: false });
        copy_pass.push(RenderOp::SetVertexBuffer(Geometry::Quad));
        copy_pass.push(RenderOp::SetIndexBuffer(Geometry::Quad));
        copy_pass.push(RenderOp::DrawIndexed(QUAD_INDICES));
        assert(copy_pass@ =~= srgb_copy_ops::<X>(width, height));
        copy_pass
    }

    /// Ends the frame, handing over everything recorded, in order.
    pub fn finish(self) -> (r: Vec<RenderOp<X>>)
        ensures
            r@ == self.ops(),
    {
        self.pass
    }
} // impl Frame


/// Pushing a blend mode and popping it at once is always allowed, records
/// nothing, and gives back the state as it was, and so its current blend mode.
pub proof fn lemma_push_pop_blend_restores<X>(st: FrameState, mode: BlendMode, meshes: Seq<Mesh>)
    requires
        st.wf(),
    ensures
        command_allowed(state_after(st, Command::<X>::PushBlendMode(mode)), Command::<X>::PopBlendMode, meshes),
        state_after(state_after(st, Command::<X>::PushBlendMode(mode)), Command::<X>::PopBlendMode) == st,
        state_after(state_after(st, Command::<X>::PushBlendMode(mode)), Command::<X>::PopBlendMode).blend()
            == st.blend(),
{
    crate::blend::lemma_push_pop_restores(st.blends, mode);
}

/// A bitmap that is not registered draws nothing and leaves the state alone.
pub proof fn lemma_unregistered_bitmap_is_skipped<X>(
    st: FrameState,
    bitmap: usize,
    transform: X,
    smoothing: bool,
    meshes: Seq<Mesh>,
    bitmaps: Map<usize, Texture>,
)
    requires
        !bitmaps.contains_key(bitmap),
    ensures
        ops_for(st, (Command::RenderBitmap { bitmap, transform, smoothing }), meshes, bitmaps)
            == Seq::<RenderOp<X>>::empty(),
        state_after(st, (Command::RenderBitmap { bitmap, transform, smoothing })) == st,
{
}

/// Sub-draws with no indices to draw in the current mask state record nothing.
pub proof fn lemma_silent_sub_draws<X>(st: FrameState, shape: usize, draws: Seq<MeshDraw>, n: nat)
    requires
        n <= draws.len(),
        forall|i: int| 0 <= i < n ==> index_count(st.mask, #[trigger] draws[i]) == 0,
    ensures
        sub_draws_ops::<X>(st, shape, draws, n) == Seq::<RenderOp<X>>::empty(),
    decreases n,
{
    if n > 0 {
        lemma_silent_sub_draws::<X>(st, shape, draws, (n - 1) as nat);
        assert(index_count(st.mask, draws[n - 1]) == 0);
        assert(sub_draws_ops::<X>(st, shape, draws, n) =~= Seq::<RenderOp<X>>::empty());
    }
}

/// A shape none of whose sub-draws has indices to draw in the current mask
/// state binds no pipeline and issues no draw: it records its uniforms alone.
pub proof fn lemma_silent_shape_binds_no_pipeline<X>(
    st: FrameState,
    shape: usize,
    transform: X,
    meshes: Seq<Mesh>,
    bitmaps: Map<usize, Texture>,
)
    requires
        shape < meshes.len(),
        forall|i: int|
            0 <= i < meshes[shape as int].draws@.len() ==> index_count(
                st.mask,
                #[trigger] meshes[shape as int].draws@[i],
            ) == 0,
    ensures
        ops_for(st, (Command::RenderShape { shape, transform }), meshes, bitmaps) == seq![
            RenderOp::BindGlobals,
            RenderOp::WriteUniforms(Uniform::Transform(transform)),
        ],
        forall|j: int|
            0 <= j < ops_for(st, (Command::RenderShape { shape, transform }), meshes, bitmaps).len()
                ==> !(#[trigger] ops_for(
                st,
                (Command::RenderShape { shape, transform }),
                meshes,
                bitmaps,
            )[j] is SetPipeline),
{
    let draws = meshes[shape as int].draws@;
    lemma_silent_sub_draws::<X>(st, shape, draws, draws.len());
    assert(shape_ops(st, shape, draws, transform) =~= seq![
        RenderOp::BindGlobals,
        RenderOp::WriteUniforms(Uniform::Transform(transform)),
    ]);
}

/// Every draw sets the stencil reference of its mask phase: `depth - 1`
/// while the innermost stencil plane is drawn, `depth` while masked content
/// is drawn or the plane is cleared, and none without a mask.
pub proof fn lemma_stencil_reference_by_phase<X>(m: MaskMachine)
    requires
        m.wf(),
    ensures
        m.state == MaskState::NoMask ==> stencil_ops::<X>(m) == Seq::<RenderOp<X>>::empty(),
        m.state == MaskState::DrawMaskStencil ==> stencil_ops::<X>(m) == seq![
            RenderOp::<X>::SetStencilReference((m.depth - 1) as u32),
        ],
        m.state == MaskState::DrawMaskStencil ==> m.depth >= 1,
        (m.state == MaskState::DrawMaskedContent || m.state == MaskState::ClearMaskStencil)
            ==> stencil_ops::<X>(m) == seq![RenderOp::<X>::SetStencilReference(m.depth)],
{
}

/// The state after every command of `cmds` in turn, or `None` if one of them
/// is not allowed where it comes.
pub open spec fn run_commands<X>(st: FrameState, cmds: Seq<Command<X>>, meshes: Seq<Mesh>) -> Option<
    FrameState,
>
    decreases cmds.len(),
{
    if cmds.len() == 0 {
        Some(st)
    } else if command_allowed(st, cmds[0], meshes) {
        run_commands(state_after(st, cmds[0]), cmds.drop_first(), meshes)
    } else {
        None
    }
}

/// Number of `PushMask` and of `PopMask` commands in `cmds`.
pub open spec fn mask_push_pop_counts<X>(cmds: Seq<Command<X>>) -> (nat, nat)
    decreases cmds.len(),
{
    if cmds.len() == 0 {
        (0, 0)
    } else {
        let rest = mask_push_pop_counts(cmds.drop_first());
        match cmds[0] {
            Command::PushMask => ((rest.0 + 1) as nat, rest.1),
            Command::PopMask => (rest.0, (rest.1 + 1) as nat),
            _ => rest,
        }
    }
}

/// Every allowed command keeps the state well formed.
pub proof fn lemma_command_preserves_wf<X>(st: FrameState, cmd: Command<X>, meshes: Seq<Mesh>)
    requires
        st.wf(),
        command_allowed(st, cmd, meshes),
    ensures
        state_after(st, cmd).wf(),
{
    match cmd {
        Command::PushMask => crate::mask::lemma_step_preserves_wf(st.mask, MaskOp::Push),
        Command::ActivateMask => crate::mask::lemma_step_preserves_wf(st.mask, MaskOp::Activate),
        Command::DeactivateMask => crate::mask::lemma_step_preserves_wf(st.mask, MaskOp::Deactivate),
        Command::PopMask => crate::mask::lemma_step_preserves_wf(st.mask, MaskOp::Pop),
        _ => {},
    }
}

/// Along any allowed run of commands the mask depth moves one up for each
/// `PushMask` and one down for each `PopMask`, and the state stays well
/// formed.
pub proof fn lemma_run_mask_depth<X>(st: FrameState, cmds: Seq<Command<X>>, meshes: Seq<Mesh>)
    requires
        st.wf(),
        run_commands(st, cmds, meshes).is_some(),
    ensures
        run_commands(st, cmds, meshes).unwrap().wf(),
        run_commands(st, cmds, meshes).unwrap().mask.depth as int == st.mask.depth as int
            + mask_push_pop_counts(cmds).0 as int - mask_push_pop_counts(cmds).1 as int,
    decreases cmds.len(),
{
    if cmds.len() > 0 {
        lemma_command_preserves_wf(st, cmds[0], meshes);
        lemma_run_mask_depth(state_after(st, cmds[0]), cmds.drop_first(), meshes);
    }
}

/// A command list that a fresh frame accepts in full and that holds as many
/// `PushMask` as `PopMask` commands leaves no mask open: the phase is back to
/// `NoMask` and the depth to zero.
pub proof fn lemma_balanced_commands_close_all_masks<X>(cmds: Seq<Command<X>>, meshes: Seq<Mesh>)
    requires
        run_commands(initial_state(), cmds, meshes).is_some(),
        mask_push_pop_counts(cmds).0 == mask_push_pop_counts(cmds).1,
    ensures
        run_commands(initial_state(), cmds, meshes).unwrap().mask == (MaskMachine {
            state: MaskState::NoMask,
            depth: 0,
        }),
{
    lemma_run_mask_depth(initial_state(), cmds, meshes);
}

} // verus!
