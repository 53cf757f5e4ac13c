use imgui_dx11_renderer::coord::Coord;
use imgui_dx11_renderer::coord::ScissorRect;
use imgui_dx11_renderer::draw::ClipRect;
use imgui_dx11_renderer::draw::DrawCmd;
use imgui_dx11_renderer::draw::DrawData;
use imgui_dx11_renderer::draw::DrawList;
use imgui_dx11_renderer::draw::Vec2;
use imgui_dx11_renderer::draw::FONT_TEX_ID;
use imgui_dx11_renderer::plan::Action;
use imgui_dx11_renderer::plan::RenderError;
use imgui_dx11_renderer::renderer::Renderer;
use imgui_dx11_renderer::upload::UploadSpan;

fn unit(v: i64) -> Coord {
    Coord::from_units(v * 256)
}

fn pair(x: i64, y: i64) -> Vec2 {
    Vec2 { x: unit(x), y: unit(y) }
}

fn clip(l: i64, t: i64, r: i64, b: i64) -> ClipRect {
    ClipRect { left: unit(l), top: unit(t), right: unit(r), bottom: unit(b) }
}

fn elements(count: usize, texture_id: usize) -> DrawCmd {
    DrawCmd::Elements { count, clip_rect: clip(0, 0, 800, 600), texture_id }
}

fn list(vtx: usize, cmds: Vec<DrawCmd>) -> DrawList {
    let idx: usize = cmds
        .iter()
        .map(|c| match c {
            DrawCmd::Elements { count, .. } => *count,
            _ => 0,
        })
        .sum();
    DrawList::new(vtx, idx, cmds).expect("well-formed list")
}

fn frame(lists: Vec<DrawList>) -> DrawData {
    DrawData::new(pair(0, 0), pair(800, 600), pair(1, 1), lists).expect("well-formed frame")
}

#[test]
fn empty_frame_plan() {
    let mut r = Renderer::new();
    let plan = r.render(&frame(vec![])).expect("non-degenerate frame has a plan");
    assert_eq!(plan.error, None);
    assert_eq!(plan.actions, vec![Action::SetupRenderState, Action::BindFont]);
    assert!(plan.uploads.is_empty());
    assert_eq!(plan.grow_vertex, None);
    assert_eq!(plan.grow_index, None);
}

#[test]
fn degenerate_frame_no_op() {
    let mut r = Renderer::new();
    let zero_width =
        DrawData::new(pair(0, 0), pair(0, 600), pair(1, 1), vec![list(10, vec![elements(9, FONT_TEX_ID)])])
            .unwrap();
    assert!(r.render(&zero_width).is_none());
    let zero_height =
        DrawData::new(pair(0, 0), pair(800, 0), pair(1, 1), vec![list(10, vec![elements(9, FONT_TEX_ID)])])
            .unwrap();
    assert!(r.render(&zero_height).is_none());
    assert_eq!(r.vertex_capacity(), 0);
    assert_eq!(r.index_capacity(), 0);
}

#[test]
fn buffer_growth_monotonic() {
    let mut r = Renderer::new();

    let plan1 = r.render(&frame(vec![list(100, vec![elements(150, FONT_TEX_ID)])])).unwrap();
    assert_eq!(plan1.grow_vertex, Some(5100));
    assert_eq!(plan1.grow_index, Some(10150));
    assert_eq!(r.vertex_capacity(), 5100);
    assert_eq!(r.index_capacity(), 10150);

    let plan2 = r.render(&frame(vec![list(50, vec![elements(75, FONT_TEX_ID)])])).unwrap();
    assert_eq!(plan2.grow_vertex, None);
    assert_eq!(plan2.grow_index, None);
    assert_eq!(r.vertex_capacity(), 5100);
    assert_eq!(r.index_capacity(), 10150);

    let plan3 = r.render(&frame(vec![list(6000, vec![elements(9000, FONT_TEX_ID)])])).unwrap();
    assert_eq!(plan3.grow_vertex, Some(11000));
    assert_eq!(plan3.grow_index, None);
    assert_eq!(r.vertex_capacity(), 11000);
    assert_eq!(r.index_capacity(), 10150);
}

#[test]
fn projection_matrix_entries() {
    let mut r = Renderer::new();
    let plan = r.render(&frame(vec![])).unwrap();
    let m = plan.projection;
    // 2 / (r - l) over units: 512 / 204800 == 2 / 800
    assert_eq!((m.m00.num, m.m00.den), (512, 800 * 256));
    assert_eq!((m.m11.num, m.m11.den), (-512, 600 * 256));
    assert_eq!((m.m30.num, m.m30.den), (-800 * 256, 800 * 256));
    assert_eq!((m.m31.num, m.m31.den), (600 * 256, 600 * 256));
    assert_eq!((m.m22.num, m.m22.den), (1, 2));
    assert_eq!((m.m32.num, m.m32.den), (1, 2));
    assert_eq!((m.m33.num, m.m33.den), (1, 1));
    assert_eq!((m.m01.num, m.m01.den), (0, 1));

    // the matrix maps (0,0) to clip (-1,1) and (800,600) to clip (1,-1)
    let f = |r: imgui_dx11_renderer::matrix::Rat| r.num as f64 / r.den as f64;
    let map_x = |x: f64| x * f(m.m00) + f(m.m30);
    let map_y = |y: f64| y * f(m.m11) + f(m.m31);
    assert_eq!(map_x(0.0), -1.0);
    assert_eq!(map_y(0.0), 1.0);
    assert_eq!(map_x(800.0), 1.0);
    assert_eq!(map_y(600.0), -1.0);
}

#[test]
fn font_sentinel_resolution() {
    let mut r = Renderer::new();
    // an entry stored under the sentinel's raw value is ignored
    r.textures_mut().replace(imgui::TextureId::new(FONT_TEX_ID), 77u64);
    let plan = r.render(&frame(vec![list(4, vec![elements(6, FONT_TEX_ID)])])).unwrap();
    assert_eq!(plan.error, None);
    assert!(plan.actions.iter().all(|a| !matches!(a, Action::BindTexture(_))));
    assert_eq!(plan.actions[0], Action::SetupRenderState);
    assert_eq!(plan.actions[1], Action::BindFont);
    assert!(matches!(plan.actions[2], Action::SetScissor(_)));
    assert_eq!(plan.actions[3], Action::DrawIndexed { count: 6, index_offset: 0, base_vertex: 0 });
    assert_eq!(plan.actions.len(), 4);
}

#[test]
fn font_rebinds_after_texture_switch() {
    let mut r = Renderer::new();
    let tex = r.textures_mut().insert(10u64);
    let plan = r
        .render(&frame(vec![list(8, vec![elements(3, tex.id()), elements(3, FONT_TEX_ID)])]))
        .unwrap();
    assert_eq!(plan.error, None);
    let binds: Vec<&Action> = plan
        .actions
        .iter()
        .filter(|a| matches!(a, Action::BindFont | Action::BindTexture(_)))
        .collect();
    assert_eq!(binds, vec![&Action::BindFont, &Action::BindTexture(10), &Action::BindFont]);
}

#[test]
fn unknown_texture_abort() {
    let mut r = Renderer::new();
    let a = r.textures_mut().insert(10u64);
    let cmds = vec![elements(4, a.id()), elements(5, 999), elements(6, a.id())];
    let plan = r.render(&frame(vec![list(12, cmds)])).unwrap();
    // exactly the draw for the first command was issued, then the abort
    let scissor = match plan.actions[3] {
        Action::SetScissor(s) => s,
        _ => panic!("expected a scissor update"),
    };
    assert_eq!(
        plan.actions,
        vec![
            Action::SetupRenderState,
            Action::BindFont,
            Action::BindTexture(10),
            Action::SetScissor(scissor),
            Action::DrawIndexed { count: 4, index_offset: 0, base_vertex: 0 },
        ]
    );
    assert_eq!(plan.error, Some(RenderError::InvalidTexture { id: 999 }));

    // the renderer stays valid for the next frame
    let next = r.render(&frame(vec![list(2, vec![elements(3, a.id())])])).unwrap();
    assert_eq!(next.error, None);
}

#[test]
fn vertex_and_index_offset_accumulation() {
    let mut r = Renderer::new();
    let lists = vec![
        list(10, vec![elements(15, FONT_TEX_ID)]),
        list(20, vec![elements(10, FONT_TEX_ID), elements(20, FONT_TEX_ID)]),
        list(5, vec![elements(9, FONT_TEX_ID)]),
    ];
    let plan = r.render(&frame(lists)).unwrap();
    assert_eq!(plan.error, None);
    let draws: Vec<(usize, usize, usize)> = plan
        .actions
        .iter()
        .filter_map(|a| match a {
            Action::DrawIndexed { count, index_offset, base_vertex } => {
                Some((*count, *index_offset, *base_vertex))
            }
            _ => None,
        })
        .collect();
    // index offsets accumulate per command across list boundaries;
    // base vertices jump by whole-list vertex counts
    assert_eq!(draws, vec![(15, 0, 0), (10, 15, 10), (20, 25, 10), (9, 45, 30)]);
}

#[test]
fn upload_spans_partition_frame() {
    let mut r = Renderer::new();
    let lists = vec![
        list(10, vec![elements(15, FONT_TEX_ID)]),
        list(20, vec![elements(10, FONT_TEX_ID), elements(20, FONT_TEX_ID)]),
        list(5, vec![elements(9, FONT_TEX_ID)]),
    ];
    let plan = r.render(&frame(lists)).unwrap();
    assert_eq!(
        plan.uploads,
        vec![
            UploadSpan { list: 0, vtx_offset: 0, idx_offset: 0, vtx_count: 10, idx_count: 15 },
            UploadSpan { list: 1, vtx_offset: 10, idx_offset: 15, vtx_count: 20, idx_count: 30 },
            UploadSpan { list: 2, vtx_offset: 30, idx_offset: 45, vtx_count: 5, idx_count: 9 },
        ]
    );
}

#[test]
fn scissor_rects_shift_and_scale() {
    let mut r = Renderer::new();
    let cmds = vec![DrawCmd::Elements {
        count: 3,
        clip_rect: clip(30, 40, 130, 140),
        texture_id: FONT_TEX_ID,
    }];
    let dd = DrawData::new(pair(10, 20), pair(800, 600), pair(2, 2), vec![list(3, cmds)]).unwrap();
    let plan = r.render(&dd).unwrap();
    let scissors: Vec<ScissorRect> = plan
        .actions
        .iter()
        .filter_map(|a| match a {
            Action::SetScissor(s) => Some(*s),
            _ => None,
        })
        .collect();
    assert_eq!(scissors, vec![ScissorRect { left: 40, top: 40, right: 240, bottom: 240 }]);
}

#[test]
fn raw_callbacks_and_state_resets_kept_in_order() {
    let mut r = Renderer::new();
    let cmds = vec![
        DrawCmd::RawCallback,
        DrawCmd::ResetRenderState,
        elements(5, FONT_TEX_ID),
    ];
    let plan = r.render(&frame(vec![list(4, cmds)])).unwrap();
    assert_eq!(plan.error, None);
    assert_eq!(plan.actions[0], Action::SetupRenderState);
    assert_eq!(plan.actions[1], Action::BindFont);
    assert_eq!(plan.actions[2], Action::Callback);
    assert_eq!(plan.actions[3], Action::SetupRenderState);
    assert!(matches!(plan.actions[4], Action::SetScissor(_)));
    assert_eq!(plan.actions[5], Action::DrawIndexed { count: 5, index_offset: 0, base_vertex: 0 });
}

#[test]
fn removed_texture_aborts_next_frame() {
    let mut r = Renderer::new();
    let a = r.textures_mut().insert(10u64);
    let first = r.render(&frame(vec![list(2, vec![elements(3, a.id())])])).unwrap();
    assert_eq!(first.error, None);
    assert_eq!(r.textures_mut().remove(a), Some(10u64));
    let second = r.render(&frame(vec![list(2, vec![elements(3, a.id())])])).unwrap();
    assert_eq!(second.error, Some(RenderError::InvalidTexture { id: a.id() }));
}

#[test]
fn registry_untouched_by_render() {
    let mut r = Renderer::new();
    let a = r.textures_mut().insert(42u64);
    let _ = r.render(&frame(vec![list(2, vec![elements(3, a.id())])])).unwrap();
    assert_eq!(r.textures().get(a).copied(), Some(42u64));
}
