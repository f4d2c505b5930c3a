use starpsx_core::gpu::renderer::{Color, Renderer};
use starpsx_core::gpu::utils::{
    parse_uv, parse_xy, DmaDirection, Gp0Op, HorizontalRes, PolyLineOp, TextureDepth, VerticalRes,
};
use starpsx_core::gpu::{is_known_gp0, GP0State, Gp0Effect, Gp1Effect, Gpu, VramWrite};

fn command_of(e: Gp0Effect) -> (Gp0Op, Vec<u32>) {
    match e {
        Gp0Effect::Command { op, params } => (op, params),
        _ => panic!("expected a complete command"),
    }
}

fn writes_of(e: Gp0Effect) -> Vec<VramWrite> {
    match e {
        Gp0Effect::VramWrites(w) => w,
        _ => panic!("expected VRAM writes"),
    }
}

fn is_nothing(e: &Gp0Effect) -> bool {
    matches!(e, Gp0Effect::Nothing)
}

#[test]
fn gp0_nop_completes_at_once() {
    let mut g = Gpu::new();
    let (op, params) = command_of(g.gp0(0x0000_0000));
    assert_eq!(op, Gp0Op::Nop);
    assert_eq!(params, vec![0]);
    assert!(matches!(g.gp0_state, GP0State::AwaitCommand));
}

#[test]
fn gp0_triangle_waits_for_all_words() {
    let mut g = Gpu::new();
    assert!(is_nothing(&g.gp0(0x2000_00FF)));
    assert!(is_nothing(&g.gp0(0x0000_0000)));
    assert!(is_nothing(&g.gp0(0x0010_0010)));
    let (op, params) = command_of(g.gp0(0x0020_0000));
    assert_eq!(op, Gp0Op::PolyMono { quad: false, trans: false });
    assert_eq!(params, vec![0x2000_00FF, 0, 0x0010_0010, 0x0020_0000]);
    assert!(matches!(g.gp0_state, GP0State::AwaitCommand));
}

#[test]
fn gp0_textured_quad_takes_nine_words() {
    let mut g = Gpu::new();
    for i in 0..8u32 {
        let w = if i == 0 { 0x2C00_0000 } else { i };
        assert!(is_nothing(&g.gp0(w)));
    }
    let (op, params) = command_of(g.gp0(8));
    assert_eq!(op, Gp0Op::PolyTexture { quad: true, trans: false, blend: true });
    assert_eq!(params.len(), 9);
}

#[test]
fn gp0_draw_mode_sets_status_bits() {
    let mut g = Gpu::new();
    command_of(g.gp0(0xE100_060F));
    assert_eq!(g.stat, 0x60F);
    assert_eq!(g.stat(), 0x1C00_060F);
}

#[test]
fn gp0_draw_mode_undefined_depth_reads_as_4bit() {
    let mut g = Gpu::new();
    command_of(g.gp0(0xE100_0180));
    assert_eq!(g.stat, 0);
    command_of(g.gp0(0xE100_0100));
    assert_eq!(g.stat, 0x100);
}

#[test]
fn gp0_draw_mode_texture_disable_goes_to_bit_15() {
    let mut g = Gpu::new();
    command_of(g.gp0(0xE100_0800));
    assert_eq!(g.stat, 0x8000);
}

#[test]
fn gp0_mask_bit_setting() {
    let mut g = Gpu::new();
    command_of(g.gp0(0xE600_0003));
    assert_eq!(g.stat, 0x1800);
    command_of(g.gp0(0xE600_0001));
    assert_eq!(g.stat, 0x0800);
}

#[test]
fn gp0_image_load_writes_vram_halfwords() {
    let mut g = Gpu::new();
    assert!(is_nothing(&g.gp0(0xA000_0000)));
    assert!(is_nothing(&g.gp0(0x0002_0001)));
    command_of(g.gp0(0x0001_0003));
    assert!(matches!(g.gp0_state, GP0State::CopyToVram(_)));
    let w = writes_of(g.gp0(0xBBBB_AAAA));
    assert_eq!(w, vec![VramWrite { col: 1, row: 2, value: 0xAAAA }, VramWrite { col: 2, row: 2, value: 0xBBBB }]);
    let w = writes_of(g.gp0(0xDDDD_CCCC));
    assert_eq!(w, vec![VramWrite { col: 3, row: 2, value: 0xCCCC }]);
    assert!(matches!(g.gp0_state, GP0State::AwaitCommand));
}

#[test]
fn gp0_image_load_wraps_rows() {
    let mut g = Gpu::new();
    g.gp0(0xA000_0000);
    g.gp0(0x0000_0000);
    command_of(g.gp0(0x0002_0001));
    let w = writes_of(g.gp0(0x0002_0001));
    assert_eq!(w, vec![VramWrite { col: 0, row: 0, value: 1 }, VramWrite { col: 0, row: 1, value: 2 }]);
    assert!(matches!(g.gp0_state, GP0State::AwaitCommand));
}

#[test]
fn gp0_image_store_reads_vram_words() {
    let mut g = Gpu::new();
    g.gp0(0xC000_0000);
    g.gp0(0x0000_0000);
    command_of(g.gp0(0x0001_0004));
    assert_eq!(g.pending_vram_read(), Some((0, 0)));
    assert_eq!(g.read(0x1111, 0x2222), 0x2222_1111);
    assert_eq!(g.pending_vram_read(), Some((2, 0)));
    // The copy's last word is not latched.
    assert_eq!(g.read(0x3333, 0x4444), 0x2222_1111);
    assert_eq!(g.pending_vram_read(), None);
    assert!(matches!(g.gp0_state, GP0State::AwaitCommand));
}

#[test]
fn gp0_mono_polyline_until_terminator() {
    let mut g = Gpu::new();
    assert!(is_nothing(&g.gp0(0x4800_00FF)));
    assert!(is_nothing(&g.gp0(0x0000_0000)));
    assert!(is_nothing(&g.gp0(0x0010_0010)));
    match g.gp0(0x5555_5555) {
        Gp0Effect::PolyLine { op, vertices, colors } => {
            assert_eq!(op, PolyLineOp::Mono { trans: false });
            assert_eq!(vertices, vec![0, 0x0010_0010]);
            assert_eq!(colors, vec![0x4800_00FF]);
        },
        _ => panic!("expected a polyline"),
    }
}

#[test]
fn gp0_shaded_polyline_alternates_colors_and_vertices() {
    let mut g = Gpu::new();
    g.gp0(0x5A00_00FF);
    g.gp0(0x0000_0001);
    g.gp0(0x0000_00AA);
    g.gp0(0x0000_0002);
    match g.gp0(0x5000_5000) {
        Gp0Effect::PolyLine { op, vertices, colors } => {
            assert_eq!(op, PolyLineOp::Shaded { trans: true });
            assert_eq!(vertices, vec![1, 2]);
            assert_eq!(colors, vec![0x5A00_00FF, 0xAA]);
        },
        _ => panic!("expected a polyline"),
    }
}

#[test]
fn gp1_reset_drops_pending_command() {
    let mut g = Gpu::new();
    g.gp0(0x2000_0000);
    assert!(matches!(g.gp0_state, GP0State::AwaitArgs(_)));
    assert_eq!(g.gp1(0x0000_0000), Gp1Effect::ResetContext);
    assert_eq!(g.stat, 0x1481_2000);
    assert!(matches!(g.gp0_state, GP0State::AwaitCommand));
}

#[test]
fn gp1_command_buffer_reset() {
    let mut g = Gpu::new();
    g.gp0(0x2000_0000);
    assert_eq!(g.gp1(0x0100_0000), Gp1Effect::Nothing);
    assert!(matches!(g.gp0_state, GP0State::AwaitCommand));
    assert_eq!(g.stat, 0);
}

#[test]
fn gp1_display_mode_sets_resolution() {
    let mut g = Gpu::new();
    assert_eq!(
        g.gp1(0x0800_0001),
        Gp1Effect::DisplayMode { width: 320, height: 240, depth_24: false, interlaced: false }
    );
    assert_eq!(g.stat, 0x1_0000);
    assert_eq!(g.get_resolution(), (320, 240));
    assert_eq!(
        g.gp1(0x0800_0027),
        Gp1Effect::DisplayMode { width: 640, height: 480, depth_24: false, interlaced: true }
    );
    assert_eq!(g.stat, 0x4B_0000);
    assert_eq!(g.get_resolution(), (640, 480));
    // The status as read always reports 240 lines.
    assert_eq!(g.stat() & 0x8_0000, 0);
    assert_eq!(
        g.gp1(0x0800_0040),
        Gp1Effect::DisplayMode { width: 368, height: 240, depth_24: false, interlaced: false }
    );
}

#[test]
fn gp1_display_enable_dma_and_acknowledge() {
    let mut g = Gpu::new();
    assert_eq!(g.gp1(0x0300_0001), Gp1Effect::DisplayEnable { off: true });
    assert_eq!(g.stat, 0x80_0000);
    g.gp1(0x0400_0002);
    assert_eq!(g.stat, 0x4080_0000);
    g.stat |= 0x100_0000;
    g.gp1(0x0200_0000);
    assert_eq!(g.stat, 0x4080_0000);
}

#[test]
fn gp1_display_area_and_ranges() {
    let mut g = Gpu::new();
    assert_eq!(g.gp1(0x0500_0C0B), Gp1Effect::DisplayVramStart { x: 4, y: 3 });
    // 256-pixel mode: the dot clock divider is 10.
    assert_eq!(g.gp1(0x06C6_0260), Gp1Effect::HorizontalRange { width: 256 });
    // A range that ends before it starts wraps around.
    assert_eq!(g.gp1(0x0600_0010), Gp1Effect::HorizontalRange { width: 6552 });
    // 320-pixel mode: the divider is 8.
    g.gp1(0x0800_0001);
    assert_eq!(g.gp1(0x06C6_0260), Gp1Effect::HorizontalRange { width: 320 });
    // 368-pixel mode: the divider is 7.
    g.gp1(0x0800_0040);
    assert_eq!(g.gp1(0x06C6_0260), Gp1Effect::HorizontalRange { width: 364 });
    assert_eq!(g.gp1(0x0704_0010), Gp1Effect::VerticalRange { lines: 0xF0 });
    assert_eq!(g.gp1(0x0700_4020), Gp1Effect::VerticalRange { lines: 0xFFF0 });
}

#[test]
fn gp1_read_internal_register() {
    let mut g = Gpu::new();
    assert_eq!(g.gp1(0x1000_0003), Gp1Effect::ReadContext { index: 3 });
    assert_eq!(g.gp1(0x1000_0007), Gp1Effect::Nothing);
    g.latch_read(0x1234);
    assert_eq!(g.gpu_read, 0x1234);
}

#[test]
fn known_gp0_commands() {
    assert!(is_known_gp0(0x2000_0000));
    assert!(is_known_gp0(0x4A00_0000));
    assert!(is_known_gp0(0xE600_0000));
    assert!(!is_known_gp0(0x1F00_0000));
    assert!(!is_known_gp0(0xE700_0000));
}

#[test]
fn coordinate_parsing_sign_extends_11_bits() {
    assert_eq!(parse_xy(0x0400_07FF), (-1, -1024));
    assert_eq!(parse_xy(0x0010_0020), (0x20, 0x10));
    assert_eq!(parse_xy(0xF800_03FF), (0x3FF, 0));
    assert_eq!(parse_uv(0xFFFF_1234), (0x34, 0x12));
}

#[test]
fn resolution_and_mode_enums() {
    assert_eq!(HorizontalRes::from_bits(5).as_value(), 368);
    assert_eq!(HorizontalRes::from_bits(2).as_value(), 512);
    assert_eq!(VerticalRes::from_bit(true).as_value(), 480);
    assert_eq!(TextureDepth::from_bits(3), TextureDepth::T4);
    assert_eq!(TextureDepth::from_bits(2), TextureDepth::T15);
    assert_eq!(DmaDirection::from_bits(3), DmaDirection::VRamToCpu);
}

#[test]
fn color_bytes_are_red_blue_green() {
    assert_eq!(Color::new(0x0011_2233).to_le_bytes(), [0x11, 0x33, 0x22]);
}

#[test]
fn renderer_puts_pixel_bytes() {
    let mut r = Renderer::new();
    assert_eq!(r.pixel_buffer.len(), 640 * 480 * 3);
    r.put_pixel(1, 0, Color::new(0x0001_0203));
    assert_eq!(&r.pixel_buffer[0..5], &[0x33, 0x01, 0x03, 0x02, 0x33]);
}

use starpsx_core::gpu::draw::{decode_draw, DrawCommand, Texturing, Triangle};

#[test]
fn decode_mono_triangle() {
    let p = vec![0x2000_00FF, 0x0001_0002, 0x0003_0004, 0x0005_0006];
    let d = decode_draw(Gp0Op::PolyMono { quad: false, trans: false }, &p);
    assert_eq!(
        d,
        DrawCommand::Polygon {
            first: Triangle {
                vertices: [(2, 1), (4, 3), (6, 5)],
                colors: [0x2000_00FF; 3],
                transparent: false,
                texture: None,
            },
            second: None,
        }
    );
}

#[test]
fn decode_textured_quad() {
    let p = vec![
        0x2F00_0080, 0, 0x1234_0201, 0x0000_0010, 0x0056_0403, 0x0010_0000, 0x0000_0605, 0x0010_0010, 0x0000_0807,
    ];
    let d = decode_draw(Gp0Op::PolyTexture { quad: true, trans: true, blend: false }, &p);
    let tex = |uvs| Some(Texturing { page: 0x56, clut: 0x1234, blend: false, uvs });
    assert_eq!(
        d,
        DrawCommand::Polygon {
            first: Triangle {
                vertices: [(0, 0), (16, 0), (0, 16)],
                colors: [0x2F00_0080; 3],
                transparent: true,
                texture: tex([(1, 2), (3, 4), (5, 6)]),
            },
            second: Some(Triangle {
                vertices: [(16, 0), (0, 16), (16, 16)],
                colors: [0x2F00_0080; 3],
                transparent: true,
                texture: tex([(3, 4), (5, 6), (7, 8)]),
            }),
        }
    );
}

#[test]
fn decode_shaded_triangle_and_line() {
    let p = vec![0x3000_0001, 0x0000_0001, 0x0000_0002, 0x0000_0003, 0x0000_0004, 0x0000_0005];
    match decode_draw(Gp0Op::PolyShaded { quad: false, trans: false }, &p) {
        DrawCommand::Polygon { first, second } => {
            assert_eq!(first.vertices, [(1, 0), (3, 0), (5, 0)]);
            assert_eq!(first.colors, [0x3000_0001, 2, 4]);
            assert!(second.is_none());
        },
        _ => panic!("expected a polygon"),
    }
    let l = decode_draw(Gp0Op::LineShaded { trans: true }, &vec![0xAA, 0x0001_0001, 0xBB, 0x0002_0002]);
    assert_eq!(l, DrawCommand::Line { vertices: [(1, 1), (2, 2)], colors: [0xAA, 0xBB], transparent: true });
}

#[test]
fn decode_environment_commands() {
    assert_eq!(
        decode_draw(Gp0Op::DrawingAreaOffset, &vec![0xE520_07FF]),
        DrawCommand::DrawingOffset { x: -1, y: -1024 }
    );
    assert_eq!(
        decode_draw(Gp0Op::TextureWindow, &vec![0xE201_883F]),
        DrawCommand::TextureWindow { mask: (0x1F, 1), offset: (2, 3) }
    );
    assert_eq!(
        decode_draw(Gp0Op::DrawingAreaBottomRight, &vec![0xE407_FE7F]),
        DrawCommand::DrawingAreaBottomRight { x: 0x27F, y: 0x1FF }
    );
    assert_eq!(
        decode_draw(Gp0Op::DrawMode, &vec![0xE100_3260]),
        DrawCommand::DrawMode { x_flip: true, y_flip: true, dithering: true, semi_transparency: 3 }
    );
    assert_eq!(
        decode_draw(Gp0Op::RectFixed { size: 16, trans: false }, &vec![0x7800_00FF, 0x0002_0003]),
        DrawCommand::Rectangle { position: (3, 2), size: (16, 16), color: 0x7800_00FF, transparent: false }
    );
    assert_eq!(decode_draw(Gp0Op::Nop, &vec![0]), DrawCommand::Nothing);
}

#[test]
fn gp1_handlers_called_directly() {
    let mut g = Gpu::new();
    assert_eq!(g.gp1_reset(), Gp1Effect::ResetContext);
    assert_eq!(g.stat, 0x1480_2000 | (1 << 16));
    assert_eq!(g.gp1_acknowledge_irq(), Gp1Effect::Nothing);
    assert_eq!(g.stat & (1 << 24), 0);
    assert_eq!(g.gp1_display_enable(0x0300_0000), Gp1Effect::DisplayEnable { off: false });
    assert_eq!(g.stat & (1 << 23), 0);
    assert_eq!(g.gp1_dma_direction(0x0400_0002), Gp1Effect::Nothing);
    assert_eq!((g.stat >> 29) & 3, 2);
    assert_eq!(g.gp1_display_vram_start(0x0500_0C05), Gp1Effect::DisplayVramStart { x: 2, y: 3 });
    assert_eq!(
        g.gp1_display_horizontal_range(0x0600_0000 | (0xC60 << 12) | 0x260),
        Gp1Effect::HorizontalRange { width: 320 }
    );
    assert_eq!(
        g.gp1_display_vertical_range(0x0700_0000 | (0x100 << 10) | 0x10),
        Gp1Effect::VerticalRange { lines: 0xF0 }
    );
    assert_eq!(g.gp1_read_internal_reg(0x1000_0004), Gp1Effect::ReadContext { index: 4 });
    assert_eq!(g.gp1_read_internal_reg(0x1000_0007), Gp1Effect::Nothing);
    g.gp0(0x2000_0000);
    assert_eq!(g.gp1_reset_command_buffer(), Gp1Effect::Nothing);
    assert!(matches!(g.gp0_state, GP0State::AwaitCommand));
}

#[test]
fn gp0_state_handlers_called_directly() {
    let mut g = Gpu::new();
    g.gp0_draw_mode(0x0000_0A1F);
    assert_eq!(g.stat & 0x7FF, 0x21F);
    g.gp0_mask_bit_setting(0x3);
    assert_eq!((g.stat >> 11) & 3, 3);
    g.gp0_image_load(0x0002_0001, 0);
    match &g.gp0_state {
        GP0State::CopyToVram(f) => {
            assert_eq!((f.vram_x, f.vram_y, f.width, f.height), (1, 2, 1024, 512));
        },
        _ => panic!("expected a CPU-to-VRAM copy"),
    }
    g.gp0_image_store(0x0000_0000, 0x0001_0002);
    assert_eq!(g.pending_vram_read(), Some((0, 0)));
}
