use nuki_gls::clip::{RectL, NO_CLIP_EXTENT, NO_CLIP_ORIGIN};
use nuki_gls::command::DrawCommand;
use nuki_gls::drawer::{AttribComponentType, Drawer, RenderState};
use nuki_gls::layout::VertexLayout;
use nuki_gls::options::DrawOptions;
use nuki_gls::scale::Scale;

fn plain_rect() -> RectL {
    RectL {
        x: 0,
        y: 0,
        w: 100,
        h: 100,
    }
}

#[test]
fn it_works() {
    assert_eq!(2 + 2, 4);
}

#[test]
fn vertex_layout_offsets_ordered() {
    let l = VertexLayout::new();
    assert_eq!(l.position_offset, 0);
    assert!(l.position_offset < l.texcoord_offset);
    assert!(l.texcoord_offset < l.color_offset);
    assert!(l.color_offset < l.stride);
    // The stride is the packed size of {2 x f32, 2 x f32, 4 x u8}.
    let packed = std::mem::size_of::<[f32; 2]>()
        + std::mem::size_of::<[f32; 2]>()
        + std::mem::size_of::<[u8; 4]>();
    assert_eq!(l.stride, packed);
    assert_eq!(l.stride, 20);
    assert_eq!(l.texcoord_offset, 8);
    assert_eq!(l.color_offset, 16);
}

#[test]
fn projection_maps_display_corners() {
    let opts = DrawOptions::new(800, 600);
    let drawer = Drawer::new(512 * 1024, 128 * 1024);
    let p = drawer.get_projection(&opts);
    assert_eq!(p.eff_width, 800);
    assert_eq!(p.eff_height, 600);
    // Logical (0, 0) maps to clip (-1, 1).
    let x0 = p.clip_x(0);
    let y0 = p.clip_y(0);
    assert_eq!(x0.num, -800);
    assert_eq!(x0.den, 800);
    assert_eq!(x0.num, -x0.den);
    assert_eq!(y0.num, y0.den);
    // Logical (800, 600) maps to clip (1, -1).
    let x1 = p.clip_x(800);
    let y1 = p.clip_y(600);
    assert_eq!(x1.num, x1.den);
    assert_eq!(y1.num, -y1.den);
}

#[test]
fn projection_uses_scaled_display_size() {
    // DPI 1.5 on both axes: 800 x 600 becomes 1200 x 900 device pixels.
    let opts = DrawOptions::new(800, 600).with_dpi_factor(Scale::new(3, 2), Scale::new(3, 2));
    let drawer = Drawer::new(512 * 1024, 128 * 1024);
    let p = drawer.get_projection(&opts);
    assert_eq!(p.eff_width, 1200);
    assert_eq!(p.eff_height, 900);
}

#[test]
fn no_clip_sentinel_maps_to_full_viewport() {
    let drawer = Drawer::new(512 * 1024, 128 * 1024);
    let sentinel = RectL {
        x: NO_CLIP_ORIGIN,
        y: NO_CLIP_ORIGIN,
        w: NO_CLIP_EXTENT,
        h: NO_CLIP_EXTENT,
    };
    // Whatever the DPI and scale factors are, the sentinel maps to the
    // full viewport.
    let plain = DrawOptions::new(800, 600);
    let scaled = DrawOptions::new(800, 600)
        .with_dpi_factor(Scale::new(3, 2), Scale::new(3, 2))
        .with_scale_factor(Scale::new(2, 1), Scale::new(2, 1));
    for opts in [plain, scaled] {
        let s = drawer.clip_rect(&sentinel, &opts);
        assert_eq!(s.x, 0);
        assert_eq!(s.y, 0);
        assert_eq!(s.w, 800);
        assert_eq!(s.h, 600);
    }
}

#[test]
fn scissor_scales_and_flips_y() {
    // dpi 2 * scale 1.5 = an exact factor of 3 on both axes.
    let opts = DrawOptions::new(800, 600)
        .with_dpi_factor(Scale::new(2, 1), Scale::new(2, 1))
        .with_scale_factor(Scale::new(3, 2), Scale::new(3, 2));
    let drawer = Drawer::new(512 * 1024, 128 * 1024);
    let r = RectL {
        x: 10,
        y: 20,
        w: 30,
        h: 40,
    };
    let s = drawer.clip_rect(&r, &opts);
    assert_eq!(s.x, 30);
    assert_eq!(s.w, 90);
    assert_eq!(s.h, 120);
    // y flipped inside the logical display, then scaled:
    // (600 - 20 - 40) * 3 = 1620.
    assert_eq!(s.y, 1620);
}

#[test]
fn scissor_rounds_outward_on_negative_coords() {
    // A factor of one half, with fractional results.
    let opts = DrawOptions::new(800, 600).with_scale_factor(Scale::new(1, 2), Scale::new(1, 2));
    let drawer = Drawer::new(512 * 1024, 128 * 1024);
    let r = RectL {
        x: -5,
        y: -10,
        w: 7,
        h: 9,
    };
    let s = drawer.clip_rect(&r, &opts);
    assert_eq!(s.x, -3); // floor(-2.5)
    assert_eq!(s.w, 4); // ceil(3.5)
    assert_eq!(s.h, 5); // ceil(4.5)
    assert_eq!(s.y, 300); // floor((600 + 10 - 9) / 2)
}

#[test]
fn scissor_clamps_to_device_range() {
    let opts = DrawOptions::new(800, 600).with_dpi_factor(Scale::new(3, 1), Scale::new(3, 1));
    let drawer = Drawer::new(512 * 1024, 128 * 1024);
    let r = RectL {
        x: 2_000_000_000,
        y: 0,
        w: 2_000_000_000,
        h: 10,
    };
    let s = drawer.clip_rect(&r, &opts);
    assert_eq!(s.x, i32::MAX);
    assert_eq!(s.w, i32::MAX);
    assert_eq!(s.h, 30);
}

#[test]
fn zero_count_command_is_skipped() {
    let opts = DrawOptions::new(800, 600);
    let mut drawer = Drawer::new(512 * 1024, 128 * 1024);
    drawer.begin_frame();
    let empty = DrawCommand {
        elem_count: 0,
        clip: plain_rect(),
        texture: 1,
    };
    let visible = DrawCommand {
        elem_count: 6,
        clip: plain_rect(),
        texture: 2,
    };
    drawer.load_converted(vec![empty, visible], vec![0u8; 80], vec![0u8; 12]);
    let plan = drawer.draw(&opts);
    // Exactly one draw call, for the second command only.
    assert_eq!(plan.len(), 1);
    assert_eq!(plan[0].elem_count, 6);
    assert_eq!(plan[0].texture, 2);
    assert_eq!(plan[0].index_offset, 0);
}

#[test]
fn index_cursor_advances_by_prefix_sums() {
    let opts = DrawOptions::new(800, 600);
    let mut drawer = Drawer::new(512 * 1024, 128 * 1024);
    drawer.begin_frame();
    let counts: [u32; 4] = [3, 0, 6, 2];
    let cmds: Vec<DrawCommand> = counts
        .iter()
        .map(|&elem_count| DrawCommand {
            elem_count,
            clip: plain_rect(),
            texture: 1,
        })
        .collect();
    drawer.load_converted(cmds, vec![0u8; 220], vec![0u8; 22]);
    let plan = drawer.draw(&opts);
    assert_eq!(plan.len(), 3);
    // The offset before each call is the sum of all counts before it.
    assert_eq!(plan[0].index_offset, 0);
    assert_eq!(plan[1].index_offset, 3);
    assert_eq!(plan[2].index_offset, 9);
    // No two calls read overlapping index ranges.
    for i in 0..plan.len() {
        for j in (i + 1)..plan.len() {
            assert!(plan[i].index_offset + plan[i].elem_count as u64 <= plan[j].index_offset);
        }
    }
}

#[test]
fn plan_carries_scissor_and_texture() {
    let opts = DrawOptions::new(800, 600);
    let mut drawer = Drawer::new(512 * 1024, 128 * 1024);
    drawer.begin_frame();
    let clip = RectL {
        x: 10,
        y: 20,
        w: 30,
        h: 40,
    };
    let cmd = DrawCommand {
        elem_count: 9,
        clip,
        texture: 5,
    };
    drawer.load_converted(vec![cmd], vec![0u8; 100], vec![0u8; 18]);
    let plan = drawer.draw(&opts);
    assert_eq!(plan.len(), 1);
    assert_eq!(plan[0].texture, 5);
    assert_eq!(plan[0].scissor, drawer.clip_rect(&clip, &opts));
}

#[test]
fn begin_frame_is_idempotent_and_keeps_capacity() {
    let mut drawer = Drawer::new(512 * 1024, 128 * 1024);
    let cmd = DrawCommand {
        elem_count: 6,
        clip: plain_rect(),
        texture: 1,
    };
    drawer.load_converted(vec![cmd; 8], vec![7u8; 4096], vec![3u8; 512]);
    drawer.begin_frame();
    assert!(drawer.staged_commands().is_empty());
    assert!(drawer.vertex_staging().is_empty());
    assert!(drawer.index_staging().is_empty());
    let cmd_cap = drawer.staged_commands().capacity();
    let vtx_cap = drawer.vertex_staging().capacity();
    let idx_cap = drawer.index_staging().capacity();
    assert!(vtx_cap >= 4096);
    drawer.begin_frame();
    // A second reset with nothing staged in between changes nothing:
    // still empty, capacity untouched.
    assert!(drawer.staged_commands().is_empty());
    assert!(drawer.vertex_staging().is_empty());
    assert!(drawer.index_staging().is_empty());
    assert_eq!(drawer.staged_commands().capacity(), cmd_cap);
    assert_eq!(drawer.vertex_staging().capacity(), vtx_cap);
    assert_eq!(drawer.index_staging().capacity(), idx_cap);
}

#[test]
fn begin_frame_resets_converter_settings() {
    let mut drawer = Drawer::new(512 * 1024, 128 * 1024);
    drawer.settings.line_aa = false;
    drawer.settings.circle_segment_count = 3;
    drawer.begin_frame();
    assert!(drawer.settings.line_aa);
    assert!(drawer.settings.shape_aa);
    assert_eq!(drawer.settings.circle_segment_count, 22);
    assert_eq!(drawer.settings.arc_segment_count, 22);
    assert_eq!(drawer.settings.curve_segment_count, 22);
    assert_eq!(drawer.settings.global_alpha, Scale::new(1, 1));
    assert_eq!(drawer.settings.vertex_size, 20);
}

#[test]
fn upload_lengths_match_staged_content() {
    let mut drawer = Drawer::new(512 * 1024, 128 * 1024);
    drawer.begin_frame();
    drawer.load_converted(Vec::new(), vec![0u8; 12], vec![0u8; 6]);
    assert_eq!(drawer.upload_lengths(), (12, 6));
}

#[test]
fn font_texture_handle_equals_identifier() {
    let mut drawer = Drawer::new(512 * 1024, 128 * 1024);
    assert_eq!(drawer.add_font_texture(7), 7);
    assert_eq!(drawer.add_font_texture(9), 9);
    assert_eq!(drawer.state.font_texture_ids, vec![7, 9]);
}

#[test]
fn attrib_bindings_skip_absent_locations() {
    let mut state = RenderState::new(512 * 1024, 128 * 1024);
    assert!(state.attrib_bindings().is_empty());
    state.set_locations(Some(0), None, Some(2), Some(3), None);
    let bindings = state.attrib_bindings();
    assert_eq!(bindings.len(), 2);
    assert_eq!(bindings[0].location, 0);
    assert_eq!(bindings[0].components, 2);
    assert_eq!(bindings[0].component_type, AttribComponentType::Float);
    assert!(!bindings[0].normalized);
    assert_eq!(bindings[0].offset, 0);
    assert_eq!(bindings[0].stride, 20);
    assert_eq!(bindings[1].location, 2);
    assert_eq!(bindings[1].components, 4);
    assert_eq!(bindings[1].component_type, AttribComponentType::UnsignedByte);
    assert!(bindings[1].normalized);
    assert_eq!(bindings[1].offset, 16);
    assert_eq!(bindings[1].stride, 20);
}

#[test]
fn attrib_bindings_full_program() {
    let mut state = RenderState::new(512 * 1024, 128 * 1024);
    state.set_locations(Some(0), Some(1), Some(2), Some(0), Some(1));
    let bindings = state.attrib_bindings();
    assert_eq!(bindings.len(), 3);
    assert_eq!(bindings[0].offset, 0);
    assert_eq!(bindings[1].offset, 8);
    assert_eq!(bindings[2].offset, 16);
}

#[test]
fn options_builders_replace_factors() {
    let opts = DrawOptions::new(800, 600);
    assert_eq!(opts.display_width, 800);
    assert_eq!(opts.display_height, 600);
    assert_eq!(opts.viewport, (0, 0, 800, 600));
    assert_eq!(opts.dpi_x, Scale::new(1, 1));
    let scaled = opts
        .with_dpi_factor(Scale::new(3, 2), Scale::new(5, 4))
        .with_scale_factor(Scale::new(2, 1), Scale::new(7, 8));
    assert_eq!(scaled.dpi_x, Scale::new(3, 2));
    assert_eq!(scaled.dpi_y, Scale::new(5, 4));
    assert_eq!(scaled.scale_x, Scale::new(2, 1));
    assert_eq!(scaled.scale_y, Scale::new(7, 8));
    assert_eq!(scaled.display_width, 800);
    assert_eq!(scaled.viewport, (0, 0, 800, 600));
}

#[test]
fn null_texture_descriptor_is_writable() {
    let mut drawer = Drawer::new(512 * 1024, 128 * 1024);
    assert_eq!(drawer.get_null().texture, 0);
    drawer.get_null_mut().texture = 42;
    assert_eq!(drawer.get_null().texture, 42);
}

#[test]
fn empty_frame_draws_nothing() {
    let opts = DrawOptions::new(800, 600);
    let mut drawer = Drawer::new(512 * 1024, 128 * 1024);
    drawer.begin_frame();
    let plan = drawer.draw(&opts);
    assert!(plan.is_empty());
    let plan = drawer.try_draw(&opts).unwrap();
    assert!(plan.is_empty());
}

#[test]
fn command_order_is_preserved() {
    let opts = DrawOptions::new(800, 600);
    let mut drawer = Drawer::new(512 * 1024, 128 * 1024);
    drawer.begin_frame();
    let cmds: Vec<DrawCommand> = [(3u32, 1i32), (6, 2), (9, 3)]
        .iter()
        .map(|&(elem_count, texture)| DrawCommand {
            elem_count,
            clip: plain_rect(),
            texture,
        })
        .collect();
    drawer.load_converted(cmds, vec![0u8; 300], vec![0u8; 36]);
    let plan = drawer.draw(&opts);
    let textures: Vec<i32> = plan.iter().map(|c| c.texture).collect();
    assert_eq!(textures, vec![1, 2, 3]);
}

#[test]
fn dpi_factor_that_overflows_device_range_is_rejected() {
    let opts = DrawOptions::new(2_000_000_000, 600);
    assert!(opts
        .try_with_dpi_factor(Scale::new(100, 1), Scale::new(1, 1))
        .is_none());
    assert!(opts
        .try_with_dpi_factor(Scale::new(1, 1), Scale::new(1, 1))
        .is_some());
    assert!(opts
        .try_with_scale_factor(Scale::new(100, 1), Scale::new(1, 1))
        .is_none());
}

#[test]
fn checked_total_sums_all_counts() {
    let cmds: Vec<DrawCommand> = [3u32, 0, 6, 2]
        .iter()
        .map(|&elem_count| DrawCommand {
            elem_count,
            clip: plain_rect(),
            texture: 1,
        })
        .collect();
    assert_eq!(nuki_gls::command::checked_total(&cmds), Some(11));
    assert_eq!(nuki_gls::command::checked_total(&Vec::new()), Some(0));
}

#[test]
fn scaling_helpers_round_exactly() {
    assert_eq!(nuki_gls::numeric::scale_floor_i32(-5, 1, 2), -3);
    assert_eq!(nuki_gls::numeric::scale_floor_i32(5, 1, 2), 2);
    assert_eq!(nuki_gls::numeric::scale_ceil_i32(5, 1, 2), 3);
    assert_eq!(nuki_gls::numeric::scale_ceil_i32(-5, 1, 2), -2);
    assert_eq!(nuki_gls::numeric::scale_floor_i32(0, 7, 3), 0);
    assert_eq!(nuki_gls::numeric::floor_div_i128(-7, 2), -4);
    assert_eq!(nuki_gls::numeric::floor_div_i128(7, 2), 3);
}
