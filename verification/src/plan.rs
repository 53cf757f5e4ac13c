//! The draw-command interpreter.
//!
//! A frame's command stream is interpreted into an ordered sequence of
//! device-level [`Action`]s: texture bindings, scissor updates, indexed
//! draws, baseline state setups and callback invocations. The
//! interpreter keeps two running counters — the base vertex for the
//! current list and the global index offset — and resolves texture
//! handles against the registry, with the font sentinel resolving to the
//! internally owned font view without a lookup. An unknown handle aborts
//! the remainder of the frame: what was already interpreted stands, and
//! the error names the offending handle.

use vstd::prelude::*;

use crate::coord::ScissorRect;
use crate::coord::scissor_component;
use crate::coord::spec_scissor_component;
use crate::draw::ClipRect;
use crate::draw::DrawCmd;
use crate::draw::DrawData;
use crate::draw::DrawList;
use crate::draw::FONT_TEX_ID;
use crate::draw::Vec2;
use crate::draw::lemma_sum_counts_take;
use crate::draw::lemma_sum_elem_counts_take;
use crate::draw::sum_elem_counts;
use crate::draw::sum_idx_counts;
use crate::draw::sum_vtx_counts;
use crate::textures::registry_get;
use crate::textures::registry_view;

verus! {

/// One device-level operation of a frame plan, in execution order.
#[derive(Clone, Copy, PartialEq, Eq, Structural, Debug)]
pub enum Action {
    /// Re-establish the baseline pipeline state for the current display
    /// size.
    SetupRenderState,
    /// Bind the internally owned font atlas view to the pixel stage's
    /// sampled-texture slot.
    BindFont,
    /// Bind the registered shader-resource view with this handle to the
    /// pixel stage's sampled-texture slot.
    BindTexture(u64),
    /// Set the single active scissor rectangle.
    SetScissor(ScissorRect),
    /// Issue an indexed draw of `count` indices starting at
    /// `index_offset`, with `base_vertex` as the base vertex.
    DrawIndexed { count: usize, index_offset: usize, base_vertex: usize },
    /// Invoke the next host-supplied raw callback of the command stream,
    /// in stream order.
    Callback,
}

/// A typed rendering failure.
#[derive(Clone, Copy, PartialEq, Eq, Structural, Debug)]
pub enum RenderError {
    /// A draw command referenced a texture handle absent from the
    /// registry; the handle is carried along.
    InvalidTexture { id: usize },
}

/// The interpreter's state: the actions emitted so far, the error that
/// aborted the frame if one did, the running offsets, and the texture
/// whose binding is currently in effect.
pub struct InterpState {
    pub actions: Seq<Action>,
    pub error: Option<RenderError>,
    pub vtx_offset: nat,
    pub idx_offset: nat,
    pub last_tex: usize,
}

/// The scissor rectangle of a clip rectangle: shifted by the display
/// origin and scaled by the framebuffer scale, componentwise.
pub open spec fn scissor_of(clip: ClipRect, off: Vec2, scale: Vec2) -> ScissorRect {
    ScissorRect {
        left: spec_scissor_component(
            clip.left.units as int,
            off.x.units as int,
            scale.x.units as int,
        ) as i32,
        top: spec_scissor_component(
            clip.top.units as int,
            off.y.units as int,
            scale.y.units as int,
        ) as i32,
        right: spec_scissor_component(
            clip.right.units as int,
            off.x.units as int,
            scale.x.units as int,
        ) as i32,
        bottom: spec_scissor_component(
            clip.bottom.units as int,
            off.y.units as int,
            scale.y.units as int,
        ) as i32,
    }
}

/// Computes the device scissor rectangle for one clip rectangle.
pub fn compute_scissor(clip: &ClipRect, off: Vec2, scale: Vec2) -> (r: ScissorRect)
    requires
        clip.in_range(),
        off.in_range(),
        scale.in_range(),
    ensures
        r == scissor_of(*clip, off, scale),
{
    ScissorRect {
        left: scissor_component(clip.left, off.x, scale.x),
        top: scissor_component(clip.top, off.y, scale.y),
        right: scissor_component(clip.right, off.x, scale.x),
        bottom: scissor_component(clip.bottom, off.y, scale.y),
    }
}

/// Interprets one element-draw command: resolve the texture if it
/// differs from the one in effect (the font sentinel resolves to the
/// font view without consulting the registry; an unregistered handle
/// aborts the frame), then emit the scissor update and the indexed draw
/// and advance the index offset.
pub open spec fn step_elements(
    st: InterpState,
    count: usize,
    clip_rect: ClipRect,
    texture_id: usize,
    reg: Map<usize, u64>,
    off: Vec2,
    scale: Vec2,
) -> InterpState {
    let bound = if texture_id != st.last_tex {
        if texture_id == FONT_TEX_ID {
            InterpState { actions: st.actions.push(Action::BindFont), last_tex: FONT_TEX_ID, ..st }
        } else if reg.dom().contains(texture_id) {
            InterpState {
                actions: st.actions.push(Action::BindTexture(reg[texture_id])),
                last_tex: texture_id,
                ..st
            }
        } else {
            InterpState { error: Some(RenderError::InvalidTexture { id: texture_id }), ..st }
        }
    } else {
        st
    };
    if bound.error is Some {
        bound
    } else {
        InterpState {
            actions: bound.actions.push(Action::SetScissor(scissor_of(clip_rect, off, scale))).push(
                Action::DrawIndexed {
                    count,
                    index_offset: st.idx_offset as usize,
                    base_vertex: st.vtx_offset as usize,
                },
            ),
            idx_offset: st.idx_offset + count as nat,
            ..bound
        }
    }
}

/// Interprets one command. A state that already carries an error is
/// frozen: the frame was aborted and nothing further is emitted.
pub open spec fn step_cmd(
    st: InterpState,
    cmd: DrawCmd,
    reg: Map<usize, u64>,
    off: Vec2,
    scale: Vec2,
) -> InterpState {
    if st.error is Some {
        st
    } else {
        match cmd {
            DrawCmd::Elements { count, clip_rect, texture_id } => step_elements(
                st,
                count,
                clip_rect,
                texture_id,
                reg,
                off,
                scale,
            ),
            DrawCmd::ResetRenderState => InterpState {
                actions: st.actions.push(Action::SetupRenderState),
                ..st
            },
            DrawCmd::RawCallback => InterpState { actions: st.actions.push(Action::Callback), ..st },
        }
    }
}

/// Interprets a command sequence, in order.
pub open spec fn run_cmds(
    cmds: Seq<DrawCmd>,
    st: InterpState,
    reg: Map<usize, u64>,
    off: Vec2,
    scale: Vec2,
) -> InterpState
    decreases cmds.len(),
{
    if cmds.len() == 0 {
        st
    } else {
        step_cmd(run_cmds(cmds.drop_last(), st, reg, off, scale), cmds.last(), reg, off, scale)
    }
}

/// Interprets a sequence of draw lists, in order: each list's commands,
/// then — unless the frame was aborted — the base vertex advances by the
/// list's whole vertex count.
pub open spec fn run_lists(
    lists: Seq<DrawList>,
    st: InterpState,
    reg: Map<usize, u64>,
    off: Vec2,
    scale: Vec2,
) -> InterpState
    decreases lists.len(),
{
    if lists.len() == 0 {
        st
    } else {
        let before = run_lists(lists.drop_last(), st, reg, off, scale);
        let after = run_cmds(lists.last().commands@, before, reg, off, scale);
        if after.error is Some {
            after
        } else {
            InterpState { vtx_offset: after.vtx_offset + lists.last().vtx_count as nat, ..after }
        }
    }
}

/// The interpreter's starting state: baseline pipeline state applied,
/// the font texture pre-bound and recorded as in effect, both offsets
/// zero.
pub open spec fn init_state() -> InterpState {
    InterpState {
        actions: seq![Action::SetupRenderState, Action::BindFont],
        error: None,
        vtx_offset: 0,
        idx_offset: 0,
        last_tex: FONT_TEX_ID,
    }
}

/// The complete interpretation of one frame against a registry.
pub open spec fn spec_frame_actions(dd: DrawData, reg: Map<usize, u64>) -> InterpState {
    run_lists(dd.draw_lists@, init_state(), reg, dd.display_pos, dd.framebuffer_scale)
}

/// An aborted state is frozen: interpreting further commands changes
/// nothing.
pub proof fn lemma_run_cmds_frozen(
    cmds: Seq<DrawCmd>,
    st: InterpState,
    reg: Map<usize, u64>,
    off: Vec2,
    scale: Vec2,
)
    requires
        st.error is Some,
    ensures
        run_cmds(cmds, st, reg, off, scale) == st,
    decreases cmds.len(),
{
    if cmds.len() > 0 {
        lemma_run_cmds_frozen(cmds.drop_last(), st, reg, off, scale);
    }
}

/// An aborted state is frozen: interpreting further lists changes
/// nothing.
pub proof fn lemma_run_lists_frozen(
    lists: Seq<DrawList>,
    st: InterpState,
    reg: Map<usize, u64>,
    off: Vec2,
    scale: Vec2,
)
    requires
        st.error is Some,
    ensures
        run_lists(lists, st, reg, off, scale) == st,
    decreases lists.len(),
{
    if lists.len() > 0 {
        lemma_run_lists_frozen(lists.drop_last(), st, reg, off, scale);
        lemma_run_cmds_frozen(lists.last().commands@, st, reg, off, scale);
    }
}

/// Interpreting a concatenation of command sequences is interpreting
/// the first, then the second from the state the first left.
pub proof fn lemma_run_cmds_app(
    a: Seq<DrawCmd>,
    b: Seq<DrawCmd>,
    st: InterpState,
    reg: Map<usize, u64>,
    off: Vec2,
    scale: Vec2,
)
    ensures
        run_cmds(a + b, st, reg, off, scale) == run_cmds(
            b,
            run_cmds(a, st, reg, off, scale),
            reg,
            off,
            scale,
        ),
    decreases b.len(),
{
    if b.len() == 0 {
        assert(a + b =~= a);
    } else {
        lemma_run_cmds_app(a, b.drop_last(), st, reg, off, scale);
        assert((a + b).drop_last() =~= a + b.drop_last());
        assert((a + b).last() == b.last());
    }
}

/// Interpreting a concatenation of list sequences is interpreting the
/// first, then the second from the state the first left.
pub proof fn lemma_run_lists_app(
    a: Seq<DrawList>,
    b: Seq<DrawList>,
    st: InterpState,
    reg: Map<usize, u64>,
    off: Vec2,
    scale: Vec2,
)
    ensures
        run_lists(a + b, st, reg, off, scale) == run_lists(
            b,
            run_lists(a, st, reg, off, scale),
            reg,
            off,
            scale,
        ),
    decreases b.len(),
{
    if b.len() == 0 {
        assert(a + b =~= a);
    } else {
        lemma_run_lists_app(a, b.drop_last(), st, reg, off, scale);
        assert((a + b).drop_last() =~= a + b.drop_last());
        assert((a + b).last() == b.last());
    }
}

/// Bounds on one command sequence: the base vertex is untouched, and the
/// index offset advances by at most the indices the commands consume.
pub proof fn lemma_run_cmds_bounds(
    cmds: Seq<DrawCmd>,
    st: InterpState,
    reg: Map<usize, u64>,
    off: Vec2,
    scale: Vec2,
)
    ensures
        ({
            let r = run_cmds(cmds, st, reg, off, scale);
            r.vtx_offset == st.vtx_offset && st.idx_offset <= r.idx_offset <= st.idx_offset
                + sum_elem_counts(cmds)
        }),
    decreases cmds.len(),
{
    if cmds.len() > 0 {
        lemma_run_cmds_bounds(cmds.drop_last(), st, reg, off, scale);
    }
}

/// Bounds on a sequence of lists: the offsets advance by at most the
/// geometry the lists hold.
pub proof fn lemma_run_lists_bounds(
    lists: Seq<DrawList>,
    st: InterpState,
    reg: Map<usize, u64>,
    off: Vec2,
    scale: Vec2,
)
    requires
        forall|i: int| 0 <= i < lists.len() ==> (#[trigger] lists[i]).wf(),
    ensures
        ({
            let r = run_lists(lists, st, reg, off, scale);
            st.vtx_offset <= r.vtx_offset <= st.vtx_offset + sum_vtx_counts(lists)
                && st.idx_offset <= r.idx_offset <= st.idx_offset + sum_idx_counts(lists)
        }),
    decreases lists.len(),
{
    if lists.len() > 0 {
        let prefix = lists.drop_last();
        assert(forall|i: int| 0 <= i < prefix.len() ==> (#[trigger] prefix[i]).wf());
        lemma_run_lists_bounds(prefix, st, reg, off, scale);
        let before = run_lists(prefix, st, reg, off, scale);
        lemma_run_cmds_bounds(lists.last().commands@, before, reg, off, scale);
        assert(lists[lists.len() - 1].wf());
        assert(sum_elem_counts(lists.last().commands@) == lists.last().idx_count);
    }
}

/// An error-free run advances the offsets exactly: each list's commands
/// consume exactly its indices, and each list advances the base vertex
/// by exactly its vertex count.
pub proof fn lemma_run_cmds_exact(
    cmds: Seq<DrawCmd>,
    st: InterpState,
    reg: Map<usize, u64>,
    off: Vec2,
    scale: Vec2,
)
    requires
        run_cmds(cmds, st, reg, off, scale).error is None,
    ensures
        run_cmds(cmds, st, reg, off, scale).idx_offset == st.idx_offset + sum_elem_counts(cmds),
        run_cmds(cmds, st, reg, off, scale).error == st.error,
        st.error is None,
    decreases cmds.len(),
{
    if cmds.len() > 0 {
        let before = run_cmds(cmds.drop_last(), st, reg, off, scale);
        if before.error is Some {
            assert(step_cmd(before, cmds.last(), reg, off, scale) == before);
        }
        lemma_run_cmds_exact(cmds.drop_last(), st, reg, off, scale);
    }
}

/// Offset accumulation across lists: an error-free run leaves the base
/// vertex advanced by the lists' whole vertex counts and the index
/// offset advanced, globally and without resetting at list boundaries,
/// by all indices the lists' commands consume.
pub proof fn lemma_run_lists_exact(
    lists: Seq<DrawList>,
    st: InterpState,
    reg: Map<usize, u64>,
    off: Vec2,
    scale: Vec2,
)
    requires
        run_lists(lists, st, reg, off, scale).error is None,
        forall|i: int| 0 <= i < lists.len() ==> (#[trigger] lists[i]).wf(),
    ensures
        run_lists(lists, st, reg, off, scale).vtx_offset == st.vtx_offset + sum_vtx_counts(lists),
        run_lists(lists, st, reg, off, scale).idx_offset == st.idx_offset + sum_idx_counts(lists),
        st.error is None,
    decreases lists.len(),
{
    if lists.len() > 0 {
        let prefix = lists.drop_last();
        assert(forall|i: int| 0 <= i < prefix.len() ==> (#[trigger] prefix[i]).wf());
        let before = run_lists(prefix, st, reg, off, scale);
        let after = run_cmds(lists.last().commands@, before, reg, off, scale);
        assert(after.error is None);
        lemma_run_cmds_exact(lists.last().commands@, before, reg, off, scale);
        lemma_run_cmds_bounds(lists.last().commands@, before, reg, off, scale);
        lemma_run_lists_exact(prefix, st, reg, off, scale);
        assert(lists[lists.len() - 1].wf());
        assert(sum_elem_counts(lists.last().commands@) == lists.last().idx_count);
    }
}

/// Font sentinel resolution: an element command carrying the font
/// sentinel is interpreted identically under any two registries — the
/// sentinel is never looked up, even if the registry holds an entry
/// under that raw value — and when the binding changes, what is bound is
/// the font view.
pub proof fn lemma_font_sentinel(
    st: InterpState,
    count: usize,
    clip_rect: ClipRect,
    reg1: Map<usize, u64>,
    reg2: Map<usize, u64>,
    off: Vec2,
    scale: Vec2,
)
    ensures
        step_cmd(
            st,
            DrawCmd::Elements { count, clip_rect, texture_id: FONT_TEX_ID },
            reg1,
            off,
            scale,
        ) == step_cmd(
            st,
            DrawCmd::Elements { count, clip_rect, texture_id: FONT_TEX_ID },
            reg2,
            off,
            scale,
        ),
        st.error is None && st.last_tex != FONT_TEX_ID ==> step_cmd(
            st,
            DrawCmd::Elements { count, clip_rect, texture_id: FONT_TEX_ID },
            reg1,
            off,
            scale,
        ).actions[st.actions.len() as int] == Action::BindFont,
{
}

/// Whether a command can be interpreted without consulting the texture
/// registry: an element draw textured with the font sentinel, or any
/// non-draw command.
pub open spec fn cmd_font_only(cmd: DrawCmd) -> bool {
    match cmd {
        DrawCmd::Elements { texture_id, .. } => texture_id == FONT_TEX_ID,
        _ => true,
    }
}

/// A command sequence of font-sentinel draws is interpreted identically
/// under any two registries: the sentinel is never looked up.
proof fn lemma_run_cmds_registry_independent(
    cmds: Seq<DrawCmd>,
    st: InterpState,
    reg1: Map<usize, u64>,
    reg2: Map<usize, u64>,
    off: Vec2,
    scale: Vec2,
)
    requires
        forall|i: int| 0 <= i < cmds.len() ==> cmd_font_only(#[trigger] cmds[i]),
    ensures
        run_cmds(cmds, st, reg1, off, scale) == run_cmds(cmds, st, reg2, off, scale),
    decreases cmds.len(),
{
    if cmds.len() > 0 {
        lemma_run_cmds_registry_independent(cmds.drop_last(), st, reg1, reg2, off, scale);
        assert(cmd_font_only(cmds[cmds.len() - 1]));
    }
}

/// Font sentinel resolution, for a whole frame: a frame whose element
/// draws are all textured with the font sentinel is interpreted
/// identically whatever the registry holds — even entries stored under
/// the sentinel's raw value are never consulted.
pub proof fn lemma_font_only_frame_registry_independent(
    dd: DrawData,
    reg1: Map<usize, u64>,
    reg2: Map<usize, u64>,
)
    requires
        forall|i: int, j: int|
            0 <= i < dd.draw_lists@.len() && 0 <= j < dd.draw_lists@[i].commands@.len()
                ==> cmd_font_only(#[trigger] dd.draw_lists@[i].commands@[j]),
    ensures
        spec_frame_actions(dd, reg1) == spec_frame_actions(dd, reg2),
{
    lemma_run_lists_registry_independent(
        dd.draw_lists@,
        init_state(),
        reg1,
        reg2,
        dd.display_pos,
        dd.framebuffer_scale,
    );
}

/// As [`lemma_run_cmds_registry_independent`], over whole lists.
proof fn lemma_run_lists_registry_independent(
    lists: Seq<DrawList>,
    st: InterpState,
    reg1: Map<usize, u64>,
    reg2: Map<usize, u64>,
    off: Vec2,
    scale: Vec2,
)
    requires
        forall|i: int, j: int|
            0 <= i < lists.len() && 0 <= j < lists[i].commands@.len() ==> cmd_font_only(
                #[trigger] lists[i].commands@[j],
            ),
    ensures
        run_lists(lists, st, reg1, off, scale) == run_lists(lists, st, reg2, off, scale),
    decreases lists.len(),
{
    if lists.len() > 0 {
        let prefix = lists.drop_last();
        assert forall|i: int, j: int|
            0 <= i < prefix.len() && 0 <= j < prefix[i].commands@.len() implies cmd_font_only(
            #[trigger] prefix[i].commands@[j],
        ) by {
            assert(prefix[i] == lists[i]);
        }
        lemma_run_lists_registry_independent(prefix, st, reg1, reg2, off, scale);
        let before = run_lists(prefix, st, reg1, off, scale);
        assert forall|j: int| 0 <= j < lists.last().commands@.len() implies cmd_font_only(
            #[trigger] lists.last().commands@[j],
        ) by {
            assert(lists[lists.len() - 1].commands@[j] == lists.last().commands@[j]);
        }
        lemma_run_cmds_registry_independent(lists.last().commands@, before, reg1, reg2, off, scale);
    }
}

/// Interpretation only appends: the actions already emitted stay, in
/// place, whatever commands follow.
proof fn lemma_run_cmds_appends(
    cmds: Seq<DrawCmd>,
    st: InterpState,
    reg: Map<usize, u64>,
    off: Vec2,
    scale: Vec2,
)
    ensures
        ({
            let r = run_cmds(cmds, st, reg, off, scale);
            r.actions.len() >= st.actions.len() && forall|i: int|
                0 <= i < st.actions.len() ==> r.actions[i] == st.actions[i]
        }),
    decreases cmds.len(),
{
    if cmds.len() > 0 {
        lemma_run_cmds_appends(cmds.drop_last(), st, reg, off, scale);
    }
}

/// As [`lemma_run_cmds_appends`], over whole lists.
proof fn lemma_run_lists_appends(
    lists: Seq<DrawList>,
    st: InterpState,
    reg: Map<usize, u64>,
    off: Vec2,
    scale: Vec2,
)
    ensures
        ({
            let r = run_lists(lists, st, reg, off, scale);
            r.actions.len() >= st.actions.len() && forall|i: int|
                0 <= i < st.actions.len() ==> r.actions[i] == st.actions[i]
        }),
    decreases lists.len(),
{
    if lists.len() > 0 {
        lemma_run_lists_appends(lists.drop_last(), st, reg, off, scale);
        lemma_run_cmds_appends(
            lists.last().commands@,
            run_lists(lists.drop_last(), st, reg, off, scale),
            reg,
            off,
            scale,
        );
    }
}

/// Whether an action, if it is an indexed draw, uses `base` as its base
/// vertex.
pub open spec fn draw_base_is(a: Action, base: usize) -> bool {
    match a {
        Action::DrawIndexed { base_vertex, .. } => base_vertex == base,
        _ => true,
    }
}

/// Every indexed draw one command run emits uses the base vertex the
/// run began with: the base vertex is per list, not per command.
proof fn lemma_run_cmds_draw_base(
    cmds: Seq<DrawCmd>,
    st: InterpState,
    reg: Map<usize, u64>,
    off: Vec2,
    scale: Vec2,
)
    ensures
        ({
            let r = run_cmds(cmds, st, reg, off, scale);
            forall|i: int|
                st.actions.len() <= i < r.actions.len() ==> draw_base_is(
                    #[trigger] r.actions[i],
                    st.vtx_offset as usize,
                )
        }),
    decreases cmds.len(),
{
    if cmds.len() > 0 {
        lemma_run_cmds_draw_base(cmds.drop_last(), st, reg, off, scale);
        lemma_run_cmds_appends(cmds.drop_last(), st, reg, off, scale);
        lemma_run_cmds_bounds(cmds.drop_last(), st, reg, off, scale);
    }
}

/// Vertex offset accumulation, for a whole frame: when the frame
/// reaches list `k` without an abort, every action the plan holds for
/// list `k` — between the actions of the earlier lists and those of the
/// later ones — draws with the summed vertex counts of the lists before
/// `k` as its base vertex.
pub proof fn lemma_frame_list_draw_base(dd: DrawData, reg: Map<usize, u64>, k: int)
    requires
        dd.wf(),
        0 <= k < dd.draw_lists@.len(),
        run_lists(dd.draw_lists@.take(k), init_state(), reg, dd.display_pos,
            dd.framebuffer_scale).error is None,
    ensures
        ({
            let lists = dd.draw_lists@;
            let before = run_lists(lists.take(k), init_state(), reg, dd.display_pos,
                dd.framebuffer_scale);
            let after = run_cmds(lists[k].commands@, before, reg, dd.display_pos,
                dd.framebuffer_scale);
            let plan = spec_frame_actions(dd, reg);
            &&& plan.actions.len() >= after.actions.len()
            &&& forall|i: int|
                before.actions.len() <= i < after.actions.len() ==> (#[trigger] plan.actions[i]
                    == after.actions[i] && draw_base_is(
                    plan.actions[i],
                    sum_vtx_counts(lists.take(k)) as usize,
                ))
        }),
{
    let lists = dd.draw_lists@;
    let off = dd.display_pos;
    let scale = dd.framebuffer_scale;
    let before = run_lists(lists.take(k), init_state(), reg, off, scale);
    let after = run_cmds(lists[k].commands@, before, reg, off, scale);
    assert(forall|i: int|
        0 <= i < lists.take(k).len() ==> (#[trigger] lists.take(k)[i]).wf());
    lemma_run_lists_exact(lists.take(k), init_state(), reg, off, scale);
    assert(before.vtx_offset == sum_vtx_counts(lists.take(k)));
    lemma_run_cmds_draw_base(lists[k].commands@, before, reg, off, scale);

    // the frame plan extends this list's actions in place
    lemma_run_lists_app(lists.take(k + 1), lists.skip(k + 1), init_state(), reg, off, scale);
    assert(lists.take(k + 1) + lists.skip(k + 1) =~= lists);
    assert(lists.take(k + 1).drop_last() =~= lists.take(k));
    assert(lists.take(k + 1).last() == lists[k]);
    let at_k = run_lists(lists.take(k + 1), init_state(), reg, off, scale);
    assert(at_k.actions == after.actions);
    lemma_run_lists_appends(lists.skip(k + 1), at_k, reg, off, scale);
}

/// Whether an action's indexed draw stays within a frame's totals: its
/// indices lie inside the frame's index range and its base vertex
/// inside the vertex range. Any other action is unconstrained.
pub open spec fn draw_within(a: Action, total_vtx: nat, total_idx: nat) -> bool {
    match a {
        Action::DrawIndexed { count, index_offset, base_vertex } => index_offset + count
            <= total_idx && base_vertex <= total_vtx,
        _ => true,
    }
}

/// Whether every action of a sequence draws within the totals.
pub open spec fn all_draws_within(actions: Seq<Action>, total_vtx: nat, total_idx: nat) -> bool {
    forall|i: int|
        0 <= i < actions.len() ==> draw_within(#[trigger] actions[i], total_vtx, total_idx)
}

/// A command run only emits draws within the totals, provided the
/// commands' indices fit under the index total and the base vertex is
/// under the vertex total.
proof fn lemma_run_cmds_draws(
    cmds: Seq<DrawCmd>,
    st: InterpState,
    reg: Map<usize, u64>,
    off: Vec2,
    scale: Vec2,
    total_vtx: nat,
    total_idx: nat,
)
    requires
        all_draws_within(st.actions, total_vtx, total_idx),
        st.vtx_offset <= total_vtx,
        st.idx_offset + sum_elem_counts(cmds) <= total_idx,
    ensures
        all_draws_within(run_cmds(cmds, st, reg, off, scale).actions, total_vtx, total_idx),
    decreases cmds.len(),
{
    if cmds.len() > 0 {
        lemma_run_cmds_draws(cmds.drop_last(), st, reg, off, scale, total_vtx, total_idx);
        lemma_run_cmds_bounds(cmds.drop_last(), st, reg, off, scale);
    }
}

/// A run over whole lists only emits draws within the totals, provided
/// the lists' geometry fits under them.
proof fn lemma_run_lists_draws(
    lists: Seq<DrawList>,
    st: InterpState,
    reg: Map<usize, u64>,
    off: Vec2,
    scale: Vec2,
    total_vtx: nat,
    total_idx: nat,
)
    requires
        forall|i: int| 0 <= i < lists.len() ==> (#[trigger] lists[i]).wf(),
        all_draws_within(st.actions, total_vtx, total_idx),
        st.vtx_offset + sum_vtx_counts(lists) <= total_vtx,
        st.idx_offset + sum_idx_counts(lists) <= total_idx,
    ensures
        all_draws_within(run_lists(lists, st, reg, off, scale).actions, total_vtx, total_idx),
    decreases lists.len(),
{
    if lists.len() > 0 {
        let prefix = lists.drop_last();
        assert(forall|i: int| 0 <= i < prefix.len() ==> (#[trigger] prefix[i]).wf());
        lemma_run_lists_draws(prefix, st, reg, off, scale, total_vtx, total_idx);
        lemma_run_lists_bounds(prefix, st, reg, off, scale);
        let before = run_lists(prefix, st, reg, off, scale);
        assert(lists[lists.len() - 1].wf());
        assert(sum_elem_counts(lists.last().commands@) == lists.last().idx_count);
        lemma_run_cmds_draws(lists.last().commands@, before, reg, off, scale, total_vtx, total_idx);
    }
}

/// Every indexed draw a frame plan issues stays within the frame's
/// uploaded geometry: its indices lie inside the frame's index total and
/// its base vertex inside the vertex total — also in a plan that an
/// unregistered texture aborted early.
pub proof fn lemma_frame_draws_within(dd: DrawData, reg: Map<usize, u64>)
    requires
        dd.wf(),
    ensures
        all_draws_within(
            spec_frame_actions(dd, reg).actions,
            dd.total_vtx_count as nat,
            dd.total_idx_count as nat,
        ),
{
    lemma_run_lists_draws(
        dd.draw_lists@,
        init_state(),
        reg,
        dd.display_pos,
        dd.framebuffer_scale,
        dd.total_vtx_count as nat,
        dd.total_idx_count as nat,
    );
}

/// Interprets one frame's command stream against the registry: the
/// frame's ordered action plan, and the error that aborted the frame if
/// a command referenced an unregistered texture (the plan then ends with
/// what was interpreted before the abort).
pub fn frame_actions(dd: &DrawData, textures: &imgui::Textures<u64>) -> (r: (
    Vec<Action>,
    Option<RenderError>,
))
    requires
        dd.wf(),
    ensures
        ({
            let st = spec_frame_actions(*dd, registry_view(*textures));
            r.0@ == st.actions && r.1 == st.error
        }),
{
    let ghost reg = registry_view(*textures);
    let ghost off = dd.display_pos;
    let ghost scale = dd.framebuffer_scale;
    let ghost lists = dd.draw_lists@;

    let mut actions: Vec<Action> = Vec::new();
    actions.push(Action::SetupRenderState);
    actions.push(Action::BindFont);
    let mut error: Option<RenderError> = None;
    let mut vtx: usize = 0;
    let mut idx: usize = 0;
    let mut last_tex: usize = FONT_TEX_ID;
    proof {
        assert(actions@ =~= init_state().actions);
    }
    let mut li: usize = 0;
    while li < dd.draw_lists.len() && error.is_none()
        invariant
            dd.wf(),
            reg == registry_view(*textures),
            off == dd.display_pos,
            scale == dd.framebuffer_scale,
            lists == dd.draw_lists@,
            0 <= li <= lists.len(),
            ({
                let st = run_lists(lists.take(li as int), init_state(), reg, off, scale);
                actions@ == st.actions && error == st.error && (error is None ==> vtx
                    == st.vtx_offset && idx == st.idx_offset && last_tex == st.last_tex)
            }),
        decreases lists.len() - li,
    {
        let ghost st_li = run_lists(lists.take(li as int), init_state(), reg, off, scale);
        let list = &dd.draw_lists[li];
        let ghost cmds = lists[li as int].commands@;
        proof {
            assert(lists[li as int].wf());
        }
        let mut ci: usize = 0;
        while ci < list.commands.len() && error.is_none()
            invariant
                dd.wf(),
                reg == registry_view(*textures),
                off == dd.display_pos,
                scale == dd.framebuffer_scale,
                lists == dd.draw_lists@,
                0 <= li < lists.len(),
                *list == lists[li as int],
                cmds == lists[li as int].commands@,
                0 <= ci <= cmds.len(),
                st_li == run_lists(lists.take(li as int), init_state(), reg, off, scale),
                st_li.error is None,
                ({
                    let st = run_cmds(cmds.take(ci as int), st_li, reg, off, scale);
                    actions@ == st.actions && error == st.error && (error is None ==> vtx
                        == st.vtx_offset && idx == st.idx_offset && last_tex == st.last_tex)
                }),
            decreases cmds.len() - ci,
        {
            let ghost st_in = run_cmds(cmds.take(ci as int), st_li, reg, off, scale);
            proof {
                assert(cmds.take(ci + 1).drop_last() =~= cmds.take(ci as int));
                assert(cmds.take(ci + 1).last() == cmds[ci as int]);
            }
            match list.commands[ci] {
                DrawCmd::Elements { count, clip_rect, texture_id } => {
                    proof {
                        assert(cmds[ci as int].wf());
                    }
                    if texture_id != last_tex {
                        if texture_id == FONT_TEX_ID {
                            actions.push(Action::BindFont);
                            last_tex = FONT_TEX_ID;
                        } else {
                            match registry_get(textures, texture_id) {
                                Some(view) => {
                                    actions.push(Action::BindTexture(view));
                                    last_tex = texture_id;
                                },
                                None => {
                                    error = Some(RenderError::InvalidTexture { id: texture_id });
                                },
                            }
                        }
                    }
                    if error.is_none() {
                        let sr = compute_scissor(&clip_rect, dd.display_pos, dd.framebuffer_scale);
                        actions.push(Action::SetScissor(sr));
                        actions.push(
                            Action::DrawIndexed { count, index_offset: idx, base_vertex: vtx },
                        );
                        proof {
                            // the advanced index offset stays within the frame total
                            lemma_run_cmds_bounds(cmds.take(ci as int), st_li, reg, off, scale);
                            lemma_run_lists_bounds(
                                lists.take(li as int),
                                init_state(),
                                reg,
                                off,
                                scale,
                            );
                            lemma_sum_elem_counts_take(cmds, ci + 1);
                            lemma_sum_counts_take(lists, li as int + 1);
                            assert(lists.take(li as int + 1).drop_last() =~= lists.take(li as int));
                            assert(lists.take(li as int + 1).last() == lists[li as int]);
                        }
                        idx = idx + count;
                    }
                },
                DrawCmd::ResetRenderState => {
                    actions.push(Action::SetupRenderState);
                },
                DrawCmd::RawCallback => {
                    actions.push(Action::Callback);
                },
            }
            ci = ci + 1;
        }
        proof {
            assert(lists.take(li as int + 1).drop_last() =~= lists.take(li as int));
            assert(lists.take(li as int + 1).last() == lists[li as int]);
            if error is Some {
                // the abort freezes the rest of this list and the vertex bump
                let st_err = run_cmds(cmds.take(ci as int), st_li, reg, off, scale);
                lemma_run_cmds_app(cmds.take(ci as int), cmds.skip(ci as int), st_li, reg, off, scale);
                assert(cmds.take(ci as int) + cmds.skip(ci as int) =~= cmds);
                lemma_run_cmds_frozen(cmds.skip(ci as int), st_err, reg, off, scale);
            } else {
                assert(cmds.take(ci as int) =~= cmds);
            }
        }
        if error.is_none() {
            proof {
                // the advanced base vertex stays within the frame total
                lemma_run_cmds_bounds(cmds, st_li, reg, off, scale);
                lemma_run_lists_bounds(lists.take(li as int), init_state(), reg, off, scale);
                lemma_sum_counts_take(lists, li as int + 1);
            }
            vtx = vtx + list.vtx_count;
        }
        li = li + 1;
    }
    proof {
        if error is Some {
            let st_li = run_lists(lists.take(li as int), init_state(), reg, off, scale);
            lemma_run_lists_app(lists.take(li as int), lists.skip(li as int), init_state(), reg, off, scale);
            assert(lists.take(li as int) + lists.skip(li as int) =~= lists);
            lemma_run_lists_frozen(lists.skip(li as int), st_li, reg, off, scale);
        } else {
            assert(lists.take(li as int) =~= lists);
        }
    }
    (actions, error)
}

} // verus!
