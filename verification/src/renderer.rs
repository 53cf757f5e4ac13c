//! The renderer: the top-level owner of the growable buffers and the
//! texture registry, and the computation of one frame's complete plan.
//!
//! `render` turns a frame's [`DrawData`] into a [`FramePlan`]: the
//! buffer growth decisions, the copy spans for the mapped buffers, the
//! projection matrix, and the ordered device actions. The shell executes
//! the plan against the device, wrapped in a state backup and restore; a
//! degenerate frame produces no plan and the shell touches nothing.

use vstd::prelude::*;

use crate::buffers::Buffer;
use crate::buffers::INDEX_BUF_ADD_CAPACITY;
use crate::buffers::VERTEX_BUF_ADD_CAPACITY;
use crate::buffers::grown_capacity;
use crate::draw::DrawData;
use crate::matrix::Mat4;
use crate::matrix::ortho_matrix;
use crate::matrix::spec_ortho;
use crate::plan::Action;
use crate::plan::RenderError;
use crate::plan::frame_actions;
use crate::plan::spec_frame_actions;
use crate::textures::registry_new;
use crate::textures::registry_view;
use crate::upload::UploadSpan;
use crate::upload::spec_upload_spans;
use crate::upload::upload_spans;

verus! {

/// Everything the shell must do to render one non-degenerate frame, in
/// order: replace the buffers whose growth is requested, capture the
/// pipeline state, copy each span into the mapped buffers and write the
/// projection matrix into the mapped constant buffer, execute the
/// actions (the plan begins by establishing the baseline state and
/// binding the font), and restore the captured state — also when
/// `error` aborted the plan early.
pub struct FramePlan {
    /// New vertex buffer capacity, when the frame needs a larger buffer.
    pub grow_vertex: Option<usize>,
    /// New index buffer capacity, when the frame needs a larger buffer.
    pub grow_index: Option<usize>,
    /// One copy span per draw list, in order.
    pub uploads: Vec<UploadSpan>,
    /// The projection matrix for the frame's display rectangle.
    pub projection: Mat4,
    /// The device actions, in execution order.
    pub actions: Vec<Action>,
    /// The error that aborted the frame, if a draw command referenced an
    /// unregistered texture; `actions` then ends with what was
    /// interpreted before the abort.
    pub error: Option<RenderError>,
}

/// The renderer: owns the vertex and index buffer capacities and the
/// texture registry.
pub struct Renderer {
    vertex_buffer: Buffer,
    index_buffer: Buffer,
    textures: imgui::Textures<u64>,
}

impl Renderer {
    /// The vertex buffer's element capacity.
    pub closed spec fn spec_vertex_capacity(&self) -> nat {
        self.vertex_buffer.spec_len()
    }

    /// The index buffer's element capacity.
    pub closed spec fn spec_index_capacity(&self) -> nat {
        self.index_buffer.spec_len()
    }

    /// The texture registry the renderer consults.
    pub closed spec fn spec_textures(&self) -> imgui::Textures<u64> {
        self.textures
    }

    /// Creates a renderer: both buffers empty, the registry empty. The
    /// shell creates the device objects around it; construction of the
    /// model itself cannot fail.
    pub fn new() -> (r: Renderer)
        ensures
            r.spec_vertex_capacity() == 0,
            r.spec_index_capacity() == 0,
            registry_view(r.spec_textures()) =~= Map::empty(),
    {
        Renderer {
            vertex_buffer: Buffer::empty(),
            index_buffer: Buffer::empty(),
            textures: registry_new(),
        }
    }

    /// The texture registry of this renderer.
    ///
    /// The handle equal to the font sentinel is reserved for the font
    /// texture: the renderer never looks it up, so an entry stored under
    /// that raw value is ignored.
    pub fn textures_mut(&mut self) -> (r: &mut imgui::Textures<u64>)
        ensures
            *r == old(self).spec_textures(),
            final(self).spec_textures() == *final(r),
            final(self).spec_vertex_capacity() == old(self).spec_vertex_capacity(),
            final(self).spec_index_capacity() == old(self).spec_index_capacity(),
    {
        &mut self.textures
    }

    /// The texture registry of this renderer.
    pub fn textures(&self) -> (r: &imgui::Textures<u64>)
        ensures
            *r == self.spec_textures(),
    {
        &self.textures
    }

    /// The vertex buffer's current element capacity.
    pub fn vertex_capacity(&self) -> (n: usize)
        ensures
            n == self.spec_vertex_capacity(),
    {
        self.vertex_buffer.len()
    }

    /// The index buffer's current element capacity.
    pub fn index_capacity(&self) -> (n: usize)
        ensures
            n == self.spec_index_capacity(),
    {
        self.index_buffer.len()
    }

    /// Computes the plan for one frame.
    ///
    /// A degenerate frame (non-positive display width or height) yields
    /// no plan and changes nothing. Otherwise the buffers grow exactly
    /// where the frame's totals exceed their capacities, the copy spans
    /// partition the frame's geometry in list order, the projection
    /// matrix is the frame's orthographic projection, and the actions
    /// with the error are the interpretation of the frame's command
    /// stream against the registry as it stands at the call.
    pub fn render(&mut self, draw_data: &DrawData) -> (r: Option<FramePlan>)
        requires
            draw_data.wf(),
        ensures
            final(self).spec_textures() == old(self).spec_textures(),
            r is None <==> !(draw_data.display_size.x.units > 0 && draw_data.display_size.y.units
                > 0),
            r is None ==> *final(self) == *old(self),
            r is Some ==> {
                let p = r->Some_0;
                // the frame is never rendered with a short buffer
                &&& final(self).spec_vertex_capacity() >= draw_data.total_vtx_count
                &&& final(self).spec_index_capacity() >= draw_data.total_idx_count
                &&& final(self).spec_vertex_capacity() == grown_capacity(
                    old(self).spec_vertex_capacity(),
                    draw_data.total_vtx_count as nat,
                    VERTEX_BUF_ADD_CAPACITY as nat,
                )
                &&& final(self).spec_index_capacity() == grown_capacity(
                    old(self).spec_index_capacity(),
                    draw_data.total_idx_count as nat,
                    INDEX_BUF_ADD_CAPACITY as nat,
                )
                &&& p.grow_vertex == (if old(self).spec_vertex_capacity()
                    < draw_data.total_vtx_count {
                    Some((draw_data.total_vtx_count + VERTEX_BUF_ADD_CAPACITY) as usize)
                } else {
                    None::<usize>
                })
                &&& p.grow_index == (if old(self).spec_index_capacity()
                    < draw_data.total_idx_count {
                    Some((draw_data.total_idx_count + INDEX_BUF_ADD_CAPACITY) as usize)
                } else {
                    None::<usize>
                })
                &&& p.uploads@ == spec_upload_spans(draw_data.draw_lists@)
                &&& p.projection == spec_ortho(
                    draw_data.display_pos.x.units as int,
                    draw_data.display_pos.y.units as int,
                    draw_data.display_size.x.units as int,
                    draw_data.display_size.y.units as int,
                )
                &&& ({
                    let st = spec_frame_actions(
                        *draw_data,
                        registry_view(old(self).spec_textures()),
                    );
                    p.actions@ == st.actions && p.error == st.error
                })
            },
    {
        if draw_data.is_degenerate() {
            return None;
        }
        let grow_vertex = self.vertex_buffer.ensure_capacity(
            draw_data.total_vtx_count,
            VERTEX_BUF_ADD_CAPACITY,
        );
        let grow_index = self.index_buffer.ensure_capacity(
            draw_data.total_idx_count,
            INDEX_BUF_ADD_CAPACITY,
        );
        let uploads = upload_spans(draw_data);
        let projection = ortho_matrix(
            draw_data.display_pos.x,
            draw_data.display_pos.y,
            draw_data.display_size.x,
            draw_data.display_size.y,
        );
        let (actions, error) = frame_actions(draw_data, &self.textures);
        Some(FramePlan { grow_vertex, grow_index, uploads, projection, actions, error })
    }
}

} // verus!
