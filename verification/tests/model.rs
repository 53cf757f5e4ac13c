use imgui_dx11_renderer::buffers::Buffer;
use imgui_dx11_renderer::coord::scissor_component;
use imgui_dx11_renderer::coord::Coord;
use imgui_dx11_renderer::coord::ScissorRect;
use imgui_dx11_renderer::draw::ClipRect;
use imgui_dx11_renderer::draw::DrawCmd;
use imgui_dx11_renderer::draw::DrawData;
use imgui_dx11_renderer::draw::DrawList;
use imgui_dx11_renderer::draw::Vec2;
use imgui_dx11_renderer::draw::FONT_TEX_ID;
use imgui_dx11_renderer::plan::Action;
use imgui_dx11_renderer::state::apply_actions;
use imgui_dx11_renderer::state::apply_actions_within_backup;
use imgui_dx11_renderer::state::BaseState;
use imgui_dx11_renderer::state::IndexFormat;
use imgui_dx11_renderer::state::PipelineState;
use imgui_dx11_renderer::state::PsResource;
use imgui_dx11_renderer::state::RendererObjects;
use imgui_dx11_renderer::state::Slot;
use imgui_dx11_renderer::state::StateBackup;

fn units(v: i64) -> Coord {
    Coord::from_units(v)
}

#[test]
fn buffer_capacity_policy() {
    let mut b = Buffer::empty();
    assert_eq!(b.len(), 0);
    assert_eq!(b.ensure_capacity(100, 5000), Some(5100));
    assert_eq!(b.len(), 5100);
    assert_eq!(b.ensure_capacity(50, 5000), None);
    assert_eq!(b.len(), 5100);
    assert_eq!(b.ensure_capacity(5100, 5000), None);
    assert_eq!(b.ensure_capacity(5101, 5000), Some(10101));
    assert_eq!(b.len(), 10101);
}

#[test]
fn scissor_component_truncates_toward_zero() {
    let one = units(256);
    let zero = units(0);
    // 10.5 with scale 1 truncates to 10; -10.5 truncates to -10
    assert_eq!(scissor_component(units(10 * 256 + 128), zero, one), 10);
    assert_eq!(scissor_component(units(-10 * 256 - 128), zero, one), -10);
    // (30.25 - 10) * 2 = 40.5 -> 40
    let two = units(512);
    assert_eq!(scissor_component(units(30 * 256 + 64), units(10 * 256), two), 40);
    // saturation at the 32-bit bounds
    let big = units(0x1_0000_0000);
    assert_eq!(scissor_component(big, zero, big), i32::MAX);
    assert_eq!(scissor_component(units(-0x1_0000_0000), zero, big), i32::MIN);
}

#[test]
fn draw_list_validation() {
    let clip = ClipRect {
        left: units(0),
        top: units(0),
        right: units(800 * 256),
        bottom: units(600 * 256),
    };
    let good = DrawCmd::Elements { count: 9, clip_rect: clip, texture_id: FONT_TEX_ID };
    assert!(DrawList::new(5, 9, vec![good]).is_some());
    // the commands must consume exactly the list's indices
    assert!(DrawList::new(5, 10, vec![good]).is_none());
    // an out-of-range clip rectangle is rejected
    let far = ClipRect {
        left: units(0x1_0000_0001),
        top: units(0),
        right: units(0),
        bottom: units(0),
    };
    let bad = DrawCmd::Elements { count: 9, clip_rect: far, texture_id: FONT_TEX_ID };
    assert!(DrawList::new(5, 9, vec![bad]).is_none());
}

#[test]
fn draw_data_validation() {
    let pos = Vec2 { x: units(0), y: units(0) };
    let size = Vec2 { x: units(800 * 256), y: units(600 * 256) };
    let scale = Vec2 { x: units(256), y: units(256) };
    let huge = DrawList::new(0x7fff_ffff, 0, vec![]).unwrap();
    let huge2 = DrawList::new(0x7fff_ffff, 0, vec![]).unwrap();
    // the frame's vertex total would exceed the 32-bit range
    assert!(DrawData::new(pos, size, scale, vec![huge, huge2]).is_none());
    // an out-of-range coordinate is rejected
    let off = Vec2 { x: units(0x1_0000_0001), y: units(0) };
    assert!(DrawData::new(off, size, scale, vec![]).is_none());
    let ok = DrawData::new(pos, size, scale, vec![]).unwrap();
    assert_eq!(ok.total_vtx_count, 0);
    assert_eq!(ok.total_idx_count, 0);
}

fn sample_objects() -> RendererObjects {
    RendererObjects {
        input_layout: 1,
        vertex_buffer: 2,
        index_buffer: 3,
        vertex_shader: 4,
        constant_buffer: 5,
        pixel_shader: 6,
        sampler: 7,
        blend_state: 8,
        depth_stencil_state: 9,
        rasterizer_state: 10,
    }
}

fn host_state() -> PipelineState {
    let host_objects = RendererObjects {
        input_layout: 101,
        vertex_buffer: 102,
        index_buffer: 103,
        vertex_shader: 104,
        constant_buffer: 105,
        pixel_shader: 106,
        sampler: 107,
        blend_state: 108,
        depth_stencil_state: 109,
        rasterizer_state: 110,
    };
    let mut base = BaseState::baseline(
        &host_objects,
        Vec2 { x: units(1024 * 256), y: units(768 * 256) },
        IndexFormat::U32,
    );
    base.topology = 5;
    base.geometry_shader = Slot::Object(111);
    PipelineState {
        base,
        scissor: ScissorRect { left: 1, top: 2, right: 3, bottom: 4 },
        ps_resource: PsResource::View(112),
    }
}

#[test]
fn baseline_state_setup() {
    let size = Vec2 { x: units(800 * 256), y: units(600 * 256) };
    let baseline = BaseState::baseline(&sample_objects(), size, IndexFormat::U16);
    let mut s = host_state();
    let scissor_before = s.scissor;
    let ps_before = s.ps_resource;
    let cb = host_state();
    apply_actions(&mut s, &vec![Action::SetupRenderState], &baseline, &cb);
    // the baseline rewrites the pipeline slots the renderer uses ...
    assert_eq!(s.base, baseline);
    assert_eq!(s.base.viewport, size);
    assert_eq!(s.base.geometry_shader, Slot::Empty);
    assert_eq!(s.base.hull_shader, Slot::Empty);
    assert_eq!(s.base.sample_mask, 0xFFFF_FFFF);
    assert_eq!(s.base.blend_factor, 0);
    // ... and leaves the scissor and the bound texture alone
    assert_eq!(s.scissor, scissor_before);
    assert_eq!(s.ps_resource, ps_before);
}

#[test]
fn plan_actions_mutate_modeled_state() {
    let size = Vec2 { x: units(800 * 256), y: units(600 * 256) };
    let baseline = BaseState::baseline(&sample_objects(), size, IndexFormat::U16);
    let cb = host_state();
    let mut s = host_state();
    let actions = vec![
        Action::SetupRenderState,
        Action::BindFont,
        Action::SetScissor(ScissorRect { left: 0, top: 0, right: 800, bottom: 600 }),
        Action::DrawIndexed { count: 9, index_offset: 0, base_vertex: 0 },
        Action::BindTexture(42),
    ];
    apply_actions(&mut s, &actions, &baseline, &cb);
    assert_eq!(s.base, baseline);
    assert_eq!(s.scissor, ScissorRect { left: 0, top: 0, right: 800, bottom: 600 });
    assert_eq!(s.ps_resource, PsResource::View(42));
}

#[test]
fn state_restore_idempotence() {
    let size = Vec2 { x: units(800 * 256), y: units(600 * 256) };
    let baseline = BaseState::baseline(&sample_objects(), size, IndexFormat::U16);
    let cb = host_state();
    let initial = host_state();
    let actions = vec![
        Action::SetupRenderState,
        Action::BindFont,
        Action::SetScissor(ScissorRect { left: 0, top: 0, right: 800, bottom: 600 }),
        Action::Callback,
        Action::SetupRenderState,
        Action::DrawIndexed { count: 9, index_offset: 0, base_vertex: 0 },
    ];

    // capturing, mutating through a frame's actions, then restoring
    // yields the captured state
    let mut s = initial;
    let backup = StateBackup::backup(&s);
    apply_actions(&mut s, &actions, &baseline, &cb);
    assert_ne!(s, initial);
    backup.restore(&mut s);
    assert_eq!(s, initial);

    let mut s2 = initial;
    apply_actions_within_backup(&mut s2, &actions, &baseline, &cb);
    assert_eq!(s2, initial);
}
