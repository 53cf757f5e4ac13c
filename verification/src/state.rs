//! A model of the device pipeline state the renderer touches, the
//! baseline configuration it establishes, and the backup/restore wrapper
//! that makes rendering a well-behaved guest inside the host's render
//! loop.
//!
//! Device objects are identified by plain handles the shell assigns; the
//! model tracks which object each pipeline slot holds, so that applying
//! a frame plan and restoring a snapshot can be reasoned about.

use vstd::prelude::*;

use crate::coord::ScissorRect;
use crate::draw::Vec2;
use crate::plan::Action;

verus! {

/// The device's triangle-list primitive topology code.
pub const TOPOLOGY_TRIANGLE_LIST: u32 = 4;

/// The vertex stride in bytes: two 32-bit position floats, two 32-bit
/// texture-coordinate floats, four 8-bit normalized color channels.
pub const VERTEX_STRIDE: u32 = 20;

/// Byte offset of the texture-coordinate attribute within a vertex.
pub const TEXCOORD_OFFSET: u32 = 8;

/// Byte offset of the color attribute within a vertex.
pub const COLOR_OFFSET: u32 = 16;

/// The index element format, chosen by the index width the GUI library
/// was built with.
#[derive(Clone, Copy, PartialEq, Eq, Structural, Debug)]
pub enum IndexFormat {
    U16,
    U32,
}

/// A pipeline slot that holds a device object, or nothing.
#[derive(Clone, Copy, PartialEq, Eq, Structural, Debug)]
pub enum Slot {
    Empty,
    Object(u64),
}

/// What the pixel stage's sampled-texture slot holds.
#[derive(Clone, Copy, PartialEq, Eq, Structural, Debug)]
pub enum PsResource {
    Unbound,
    Font,
    View(u64),
}

/// The renderer's own device objects and the per-frame parameters of the
/// baseline pipeline state: what one `SetupRenderState` writes.
#[derive(Clone, Copy, PartialEq, Eq, Structural, Debug)]
pub struct BaseState {
    /// Viewport size; the origin is (0, 0) and the depth range [0, 1].
    pub viewport: Vec2,
    pub input_layout: u64,
    pub vertex_buffer: u64,
    pub vertex_stride: u32,
    pub vertex_buffer_offset: u32,
    pub index_buffer: u64,
    pub index_format: IndexFormat,
    pub index_buffer_offset: u32,
    pub topology: u32,
    pub vertex_shader: u64,
    pub constant_buffer: u64,
    pub pixel_shader: u64,
    pub sampler: u64,
    pub geometry_shader: Slot,
    pub hull_shader: Slot,
    pub domain_shader: Slot,
    pub compute_shader: Slot,
    pub blend_state: u64,
    /// Blend factor in coordinate units; the baseline uses zero.
    pub blend_factor: i64,
    pub sample_mask: u32,
    pub depth_stencil_state: u64,
    pub stencil_ref: u32,
    pub rasterizer_state: u64,
}

impl BaseState {
    /// The baseline the renderer establishes from its own objects for a
    /// display of the given size: viewport over the whole display,
    /// buffers and shaders bound, the unused shader stages explicitly
    /// unbound, triangle-list topology, zero blend factor, full sample
    /// mask, zero stencil reference.
    pub fn baseline(objects: &RendererObjects, display_size: Vec2, index_format: IndexFormat) -> (b:
        BaseState)
        ensures
            b == BaseState::spec_baseline(*objects, display_size, index_format),
    {
        BaseState {
            viewport: display_size,
            input_layout: objects.input_layout,
            vertex_buffer: objects.vertex_buffer,
            vertex_stride: VERTEX_STRIDE,
            vertex_buffer_offset: 0,
            index_buffer: objects.index_buffer,
            index_format,
            index_buffer_offset: 0,
            topology: TOPOLOGY_TRIANGLE_LIST,
            vertex_shader: objects.vertex_shader,
            constant_buffer: objects.constant_buffer,
            pixel_shader: objects.pixel_shader,
            sampler: objects.sampler,
            geometry_shader: Slot::Empty,
            hull_shader: Slot::Empty,
            domain_shader: Slot::Empty,
            compute_shader: Slot::Empty,
            blend_state: objects.blend_state,
            blend_factor: 0,
            sample_mask: 0xFFFF_FFFF,
            depth_stencil_state: objects.depth_stencil_state,
            stencil_ref: 0,
            rasterizer_state: objects.rasterizer_state,
        }
    }

    /// The baseline as a specification value.
    pub open spec fn spec_baseline(
        objects: RendererObjects,
        display_size: Vec2,
        index_format: IndexFormat,
    ) -> BaseState {
        BaseState {
            viewport: display_size,
            input_layout: objects.input_layout,
            vertex_buffer: objects.vertex_buffer,
            vertex_stride: VERTEX_STRIDE,
            vertex_buffer_offset: 0,
            index_buffer: objects.index_buffer,
            index_format,
            index_buffer_offset: 0,
            topology: TOPOLOGY_TRIANGLE_LIST,
            vertex_shader: objects.vertex_shader,
            constant_buffer: objects.constant_buffer,
            pixel_shader: objects.pixel_shader,
            sampler: objects.sampler,
            geometry_shader: Slot::Empty,
            hull_shader: Slot::Empty,
            domain_shader: Slot::Empty,
            compute_shader: Slot::Empty,
            blend_state: objects.blend_state,
            blend_factor: 0,
            sample_mask: 0xFFFF_FFFF,
            depth_stencil_state: objects.depth_stencil_state,
            stencil_ref: 0,
            rasterizer_state: objects.rasterizer_state,
        }
    }
}

/// Handles of the device objects the renderer owns, as the shell
/// assigned them at construction.
#[derive(Clone, Copy, PartialEq, Eq, Structural, Debug)]
pub struct RendererObjects {
    pub input_layout: u64,
    pub vertex_buffer: u64,
    pub index_buffer: u64,
    pub vertex_shader: u64,
    pub constant_buffer: u64,
    pub pixel_shader: u64,
    pub sampler: u64,
    pub blend_state: u64,
    pub depth_stencil_state: u64,
    pub rasterizer_state: u64,
}

/// The modeled device pipeline state: the baseline-controlled items,
/// plus the scissor rectangle and the pixel-stage texture binding, which
/// the baseline setup leaves alone.
#[derive(Clone, Copy, PartialEq, Eq, Structural, Debug)]
pub struct PipelineState {
    pub base: BaseState,
    pub scissor: ScissorRect,
    pub ps_resource: PsResource,
}

/// The state after one plan action. A baseline setup rewrites the
/// baseline-controlled items and nothing else; binding writes the
/// pixel-stage resource slot; a scissor update writes the scissor; a
/// draw changes no state; a callback may have mutated the device
/// arbitrarily, which `callback_effect` stands for.
pub open spec fn spec_apply_action(
    s: PipelineState,
    a: Action,
    baseline: BaseState,
    callback_effect: PipelineState,
) -> PipelineState {
    match a {
        Action::SetupRenderState => PipelineState { base: baseline, ..s },
        Action::BindFont => PipelineState { ps_resource: PsResource::Font, ..s },
        Action::BindTexture(view) => PipelineState { ps_resource: PsResource::View(view), ..s },
        Action::SetScissor(r) => PipelineState { scissor: r, ..s },
        Action::DrawIndexed { .. } => s,
        Action::Callback => callback_effect,
    }
}

/// The state after a whole action sequence.
pub open spec fn spec_apply_actions(
    s: PipelineState,
    actions: Seq<Action>,
    baseline: BaseState,
    callback_effect: PipelineState,
) -> PipelineState
    decreases actions.len(),
{
    if actions.len() == 0 {
        s
    } else {
        spec_apply_action(
            spec_apply_actions(s, actions.drop_last(), baseline, callback_effect),
            actions.last(),
            baseline,
            callback_effect,
        )
    }
}

/// Applies one plan action to the modeled state.
pub fn apply_action(
    s: &mut PipelineState,
    a: &Action,
    baseline: &BaseState,
    callback_effect: &PipelineState,
)
    ensures
        *final(s) == spec_apply_action(*old(s), *a, *baseline, *callback_effect),
{
    match a {
        Action::SetupRenderState => {
            s.base = *baseline;
        },
        Action::BindFont => {
            s.ps_resource = PsResource::Font;
        },
        Action::BindTexture(view) => {
            s.ps_resource = PsResource::View(*view);
        },
        Action::SetScissor(r) => {
            s.scissor = *r;
        },
        Action::DrawIndexed { .. } => {},
        Action::Callback => {
            *s = *callback_effect;
        },
    }
}

/// Applies a whole frame plan's actions to the modeled state, in order.
pub fn apply_actions(
    s: &mut PipelineState,
    actions: &Vec<Action>,
    baseline: &BaseState,
    callback_effect: &PipelineState,
)
    ensures
        *final(s) == spec_apply_actions(*old(s), actions@, *baseline, *callback_effect),
{
    let mut i: usize = 0;
    while i < actions.len()
        invariant
            0 <= i <= actions@.len(),
            *s == spec_apply_actions(*old(s), actions@.take(i as int), *baseline, *callback_effect),
        decreases actions@.len() - i,
    {
        proof {
            assert(actions@.take(i as int + 1).drop_last() =~= actions@.take(i as int));
            assert(actions@.take(i as int + 1).last() == actions@[i as int]);
        }
        apply_action(s, &actions[i], baseline, callback_effect);
        i = i + 1;
    }
    proof {
        assert(actions@.take(actions@.len() as int) =~= actions@);
    }
}

/// The baseline setup is idempotent and touches nothing else: applying
/// it twice leaves the very state one application leaves, and what it
/// leaves differs from the state before only in the baseline-controlled
/// items.
pub proof fn lemma_baseline_idempotent(
    s: PipelineState,
    baseline: BaseState,
    callback_effect: PipelineState,
)
    ensures
        spec_apply_action(
            spec_apply_action(s, Action::SetupRenderState, baseline, callback_effect),
            Action::SetupRenderState,
            baseline,
            callback_effect,
        ) == spec_apply_action(s, Action::SetupRenderState, baseline, callback_effect),
        spec_apply_action(s, Action::SetupRenderState, baseline, callback_effect).scissor
            == s.scissor,
        spec_apply_action(s, Action::SetupRenderState, baseline, callback_effect).ps_resource
            == s.ps_resource,
{
}

/// A snapshot of the host's pipeline state, captured before rendering
/// and restored afterward.
pub struct StateBackup {
    saved: PipelineState,
}

impl StateBackup {
    /// The state the snapshot holds.
    pub closed spec fn saved_state(self) -> PipelineState {
        self.saved
    }

    /// Captures the pipeline state the renderer is known to mutate.
    pub fn backup(state: &PipelineState) -> (b: StateBackup)
        ensures
            b.saved_state() == *state,
    {
        StateBackup { saved: *state }
    }

    /// Writes every captured item back: afterwards the pipeline state is
    /// the captured one, whatever rendering did in between.
    pub fn restore(self, state: &mut PipelineState)
        ensures
            *final(state) == self.saved_state(),
    {
        *state = self.saved;
    }
}

/// State restore idempotence: capturing the pipeline state, mutating it
/// by a whole frame plan's actions (with any callback effects), and
/// restoring the capture leaves the pipeline state observably identical
/// to the one captured, whatever the plan did.
pub fn apply_actions_within_backup(
    state: &mut PipelineState,
    actions: &Vec<Action>,
    baseline: &BaseState,
    callback_effect: &PipelineState,
)
    ensures
        *final(state) == *old(state),
{
    let backup = StateBackup::backup(state);
    apply_actions(state, actions, baseline, callback_effect);
    backup.restore(state);
}

} // verus!
