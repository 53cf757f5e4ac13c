//! The frame geometry and draw-command model.
//!
//! One frame is a [`DrawData`]: display origin, size and framebuffer
//! scale, the frame's total vertex and index counts, and an ordered
//! sequence of [`DrawList`]s. Each list carries its own vertex and index
//! counts and an ordered sequence of [`DrawCmd`]s. The counts obey the
//! GUI library's invariants: the totals are the sums over the lists, and
//! a list's element commands consume exactly its index buffer.

use vstd::prelude::*;

use crate::buffers::MAX_BUFFER_REQUEST;
use crate::coord::Coord;

verus! {

/// The reserved texture handle that always resolves to the internally
/// owned font atlas view; it is never looked up in the texture registry.
pub const FONT_TEX_ID: usize = usize::MAX;

/// A pair of display-space scalars.
#[derive(Clone, Copy, PartialEq, Eq, Structural, Debug)]
pub struct Vec2 {
    pub x: Coord,
    pub y: Coord,
}

impl Vec2 {
    /// Both components within the accepted coordinate range.
    pub open spec fn in_range(self) -> bool {
        self.x.in_range() && self.y.in_range()
    }
}

/// A display-space clip rectangle: left, top, right, bottom.
#[derive(Clone, Copy, PartialEq, Eq, Structural, Debug)]
pub struct ClipRect {
    pub left: Coord,
    pub top: Coord,
    pub right: Coord,
    pub bottom: Coord,
}

impl ClipRect {
    /// All four coordinates within the accepted range.
    pub open spec fn in_range(self) -> bool {
        self.left.in_range() && self.top.in_range() && self.right.in_range()
            && self.bottom.in_range()
    }
}

/// One abstract draw command.
#[derive(Clone, Copy, PartialEq, Eq, Structural, Debug)]
pub enum DrawCmd {
    /// Draw `count` indices from the current running index offset, with
    /// the current running vertex offset as base vertex, clipped to
    /// `clip_rect` and textured with `texture_id`.
    Elements { count: usize, clip_rect: ClipRect, texture_id: usize },
    /// Re-establish the baseline pipeline state.
    ResetRenderState,
    /// Invoke the host-supplied callback stored at this position of the
    /// command stream; the renderer does not interpret it.
    RawCallback,
}

impl DrawCmd {
    /// A command the renderer accepts: an element draw's clip rectangle
    /// is within the coordinate range.
    pub open spec fn wf(self) -> bool {
        match self {
            DrawCmd::Elements { clip_rect, .. } => clip_rect.in_range(),
            _ => true,
        }
    }
}

/// The indices an element command consumes; zero for the other commands.
pub open spec fn elem_count(cmd: DrawCmd) -> nat {
    match cmd {
        DrawCmd::Elements { count, .. } => count as nat,
        _ => 0,
    }
}

/// The indices a command sequence consumes in total.
pub open spec fn sum_elem_counts(cmds: Seq<DrawCmd>) -> nat
    decreases cmds.len(),
{
    if cmds.len() == 0 {
        0
    } else {
        sum_elem_counts(cmds.drop_last()) + elem_count(cmds.last())
    }
}

/// A prefix of a command sequence consumes no more than the whole.
pub proof fn lemma_sum_elem_counts_take(cmds: Seq<DrawCmd>, i: int)
    requires
        0 <= i <= cmds.len(),
    ensures
        sum_elem_counts(cmds.take(i)) <= sum_elem_counts(cmds),
    decreases cmds.len() - i,
{
    if i < cmds.len() {
        lemma_sum_elem_counts_take(cmds, i + 1);
        assert(cmds.take(i + 1).drop_last() =~= cmds.take(i));
        assert(cmds.take(i + 1).last() == cmds[i]);
    } else {
        assert(cmds.take(i) =~= cmds);
    }
}

/// One batch of frame geometry: its vertex and index counts and its
/// ordered draw commands.
#[derive(Clone, PartialEq, Eq, Debug)]
pub struct DrawList {
    pub vtx_count: usize,
    pub idx_count: usize,
    pub commands: Vec<DrawCmd>,
}

impl DrawList {
    /// The GUI library's invariants on one list: counts within the
    /// 32-bit range, every command well formed, and the element commands
    /// consuming exactly the list's indices.
    pub open spec fn wf(self) -> bool {
        &&& self.vtx_count <= MAX_BUFFER_REQUEST
        &&& self.idx_count <= MAX_BUFFER_REQUEST
        &&& forall|i: int| 0 <= i < self.commands@.len() ==> (#[trigger] self.commands@[i]).wf()
        &&& sum_elem_counts(self.commands@) == self.idx_count
    }

    /// Builds a list after checking the invariants; `None` when the
    /// counts are out of range, a clip rectangle is out of range, or the
    /// commands do not consume exactly `idx_count` indices.
    pub fn new(vtx_count: usize, idx_count: usize, commands: Vec<DrawCmd>) -> (r: Option<
        DrawList,
    >)
        ensures
            match r {
                Some(list) => {
                    &&& list.vtx_count == vtx_count
                    &&& list.idx_count == idx_count
                    &&& list.commands@ == commands@
                    &&& list.wf()
                },
                None => !(DrawList { vtx_count, idx_count, commands }).wf(),
            },
    {
        if vtx_count > MAX_BUFFER_REQUEST || idx_count > MAX_BUFFER_REQUEST {
            return None;
        }
        let mut sum: usize = 0;
        let mut i: usize = 0;
        while i < commands.len()
            invariant
                0 <= i <= commands.len(),
                sum == sum_elem_counts(commands@.take(i as int)),
                sum <= MAX_BUFFER_REQUEST,
                idx_count <= MAX_BUFFER_REQUEST,
                forall|k: int| 0 <= k < i ==> (#[trigger] commands@[k]).wf(),
            decreases commands.len() - i,
        {
            let ghost prefix = commands@.take(i as int);
            match commands[i] {
                DrawCmd::Elements { count, clip_rect, .. } => {
                    if !coord_ok(clip_rect.left) || !coord_ok(clip_rect.top)
                        || !coord_ok(clip_rect.right) || !coord_ok(clip_rect.bottom) {
                        return None;
                    }
                    if count > idx_count || sum > idx_count - count {
                        // the commands already consume more than `idx_count`
                        proof {
                            lemma_sum_elem_counts_take(commands@, i + 1);
                            assert(commands@.take(i + 1).drop_last() =~= prefix);
                            assert(commands@.take(i + 1).last() == commands@[i as int]);
                        }
                        return None;
                    }
                    sum = sum + count;
                },
                _ => {},
            }
            proof {
                assert(commands@.take(i + 1).drop_last() =~= prefix);
                assert(commands@.take(i + 1).last() == commands@[i as int]);
            }
            i = i + 1;
        }
        proof {
            assert(commands@.take(commands@.len() as int) =~= commands@);
        }
        if sum == idx_count {
            Some(DrawList { vtx_count, idx_count, commands })
        } else {
            None
        }
    }
}

/// The vertices a sequence of lists holds in total.
pub open spec fn sum_vtx_counts(lists: Seq<DrawList>) -> nat
    decreases lists.len(),
{
    if lists.len() == 0 {
        0
    } else {
        sum_vtx_counts(lists.drop_last()) + lists.last().vtx_count as nat
    }
}

/// The indices a sequence of lists holds in total.
pub open spec fn sum_idx_counts(lists: Seq<DrawList>) -> nat
    decreases lists.len(),
{
    if lists.len() == 0 {
        0
    } else {
        sum_idx_counts(lists.drop_last()) + lists.last().idx_count as nat
    }
}

/// A prefix of the lists holds no more vertices or indices than all of
/// them.
pub proof fn lemma_sum_counts_take(lists: Seq<DrawList>, i: int)
    requires
        0 <= i <= lists.len(),
    ensures
        sum_vtx_counts(lists.take(i)) <= sum_vtx_counts(lists),
        sum_idx_counts(lists.take(i)) <= sum_idx_counts(lists),
    decreases lists.len() - i,
{
    if i < lists.len() {
        lemma_sum_counts_take(lists, i + 1);
        assert(lists.take(i + 1).drop_last() =~= lists.take(i));
        assert(lists.take(i + 1).last() == lists[i]);
    } else {
        assert(lists.take(i) =~= lists);
    }
}

/// One frame's complete geometry and command payload.
#[derive(Clone, PartialEq, Eq, Debug)]
pub struct DrawData {
    pub display_pos: Vec2,
    pub display_size: Vec2,
    pub framebuffer_scale: Vec2,
    pub total_vtx_count: usize,
    pub total_idx_count: usize,
    pub draw_lists: Vec<DrawList>,
}

impl DrawData {
    /// The GUI library's frame invariants: coordinates in range, every
    /// list well formed, and the totals equal to the sums over the
    /// lists, within the 32-bit range.
    pub open spec fn wf(self) -> bool {
        &&& self.display_pos.in_range()
        &&& self.display_size.in_range()
        &&& self.framebuffer_scale.in_range()
        &&& forall|i: int| 0 <= i < self.draw_lists@.len() ==> (#[trigger] self.draw_lists@[i]).wf()
        &&& self.total_vtx_count == sum_vtx_counts(self.draw_lists@)
        &&& self.total_idx_count == sum_idx_counts(self.draw_lists@)
        &&& self.total_vtx_count <= MAX_BUFFER_REQUEST
        &&& self.total_idx_count <= MAX_BUFFER_REQUEST
    }

    /// Builds a frame from its lists, computing the totals; `None` when
    /// a coordinate is out of range or the totals exceed the 32-bit
    /// range.
    pub fn new(display_pos: Vec2, display_size: Vec2, framebuffer_scale: Vec2, draw_lists: Vec<
        DrawList,
    >) -> (r: Option<DrawData>)
        requires
            forall|i: int| 0 <= i < draw_lists@.len() ==> (#[trigger] draw_lists@[i]).wf(),
        ensures
            match r {
                Some(dd) => {
                    &&& dd.display_pos == display_pos
                    &&& dd.display_size == display_size
                    &&& dd.framebuffer_scale == framebuffer_scale
                    &&& dd.draw_lists@ == draw_lists@
                    &&& dd.wf()
                },
                None => !(display_pos.in_range() && display_size.in_range()
                    && framebuffer_scale.in_range()
                    && sum_vtx_counts(draw_lists@) <= MAX_BUFFER_REQUEST
                    && sum_idx_counts(draw_lists@) <= MAX_BUFFER_REQUEST),
            },
    {
        if !coord_ok(display_pos.x) || !coord_ok(display_pos.y) || !coord_ok(display_size.x)
            || !coord_ok(display_size.y) || !coord_ok(framebuffer_scale.x)
            || !coord_ok(framebuffer_scale.y) {
            return None;
        }
        let mut vtx: usize = 0;
        let mut idx: usize = 0;
        let mut i: usize = 0;
        while i < draw_lists.len()
            invariant
                0 <= i <= draw_lists.len(),
                vtx == sum_vtx_counts(draw_lists@.take(i as int)),
                idx == sum_idx_counts(draw_lists@.take(i as int)),
                vtx <= MAX_BUFFER_REQUEST,
                idx <= MAX_BUFFER_REQUEST,
                forall|k: int| 0 <= k < draw_lists@.len() ==> (#[trigger] draw_lists@[k]).wf(),
            decreases draw_lists.len() - i,
        {
            let ghost prefix = draw_lists@.take(i as int);
            let list = &draw_lists[i];
            proof {
                assert(draw_lists@.take(i + 1).drop_last() =~= prefix);
                assert(draw_lists@.take(i + 1).last() == draw_lists@[i as int]);
            }
            if list.vtx_count > MAX_BUFFER_REQUEST - vtx {
                proof {
                    lemma_sum_counts_take(draw_lists@, i + 1);
                }
                return None;
            }
            if list.idx_count > MAX_BUFFER_REQUEST - idx {
                proof {
                    lemma_sum_counts_take(draw_lists@, i + 1);
                }
                return None;
            }
            vtx = vtx + list.vtx_count;
            idx = idx + list.idx_count;
            i = i + 1;
        }
        proof {
            assert(draw_lists@.take(draw_lists@.len() as int) =~= draw_lists@);
        }
        Some(
            DrawData {
                display_pos,
                display_size,
                framebuffer_scale,
                total_vtx_count: vtx,
                total_idx_count: idx,
                draw_lists,
            },
        )
    }

    /// Whether the frame is degenerate: a non-positive display width or
    /// height, as a minimized window produces. Rendering such a frame is
    /// a complete no-op.
    pub fn is_degenerate(&self) -> (r: bool)
        ensures
            r == !(self.display_size.x.units > 0 && self.display_size.y.units > 0),
    {
        !(self.display_size.x.is_positive() && self.display_size.y.is_positive())
    }
}

/// Range check on one coordinate.
fn coord_ok(c: Coord) -> (r: bool)
    ensures
        r == c.in_range(),
{
    c.units >= -crate::coord::COORD_LIMIT && c.units <= crate::coord::COORD_LIMIT
}

} // verus!
