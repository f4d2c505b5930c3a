use vstd::prelude::*;

use crate::gpu::op_len;
use crate::gpu::utils::{field, get_field, parse_uv, parse_xy, sign_extend_11, xy_of, Gp0Op};

verus! {

/// The texture of a triangle: its texture page and CLUT attributes (the
/// high halves of their words), whether the texels are blended with the
/// color, and the texture coordinates of its corners.
#[derive(Clone, Copy, Debug, PartialEq, Eq)]
pub struct Texturing {
    pub page: u16,
    pub clut: u16,
    pub blend: bool,
    pub uvs: [(i32, i32); 3],
}

/// A triangle to draw: corners, the 24-bit color of each corner, whether
/// it is semi-transparent, and its texture if any.
#[derive(Clone, Copy, Debug, PartialEq, Eq)]
pub struct Triangle {
    pub vertices: [(i32, i32); 3],
    pub colors: [u32; 3],
    pub transparent: bool,
    pub texture: Option<Texturing>,
}

/// What a complete GP0 command asks of the renderer.
#[derive(Clone, Copy, Debug, PartialEq, Eq)]
pub enum DrawCommand {
    /// A triangle, or a quad as two triangles sharing an edge.
    Polygon { first: Triangle, second: Option<Triangle> },
    Line { vertices: [(i32, i32); 2], colors: [u32; 2], transparent: bool },
    Rectangle { position: (i32, i32), size: (i32, i32), color: u32, transparent: bool },
    /// A fill that ignores the drawing area and the mask.
    Fill { position: (i32, i32), size: (i32, i32), color: u32 },
    Blit { source: (i32, i32), destination: (i32, i32), size: (i32, i32) },
    DrawMode { x_flip: bool, y_flip: bool, dithering: bool, semi_transparency: u32 },
    TextureWindow { mask: (u32, u32), offset: (u32, u32) },
    DrawingAreaTopLeft { x: u32, y: u32 },
    DrawingAreaBottomRight { x: u32, y: u32 },
    DrawingOffset { x: i32, y: i32 },
    /// Nothing to draw (state commands already applied, image transfers,
    /// and the shaded textured polygons that no handler draws).
    Nothing,
}

pub open spec fn uv_of(data: u32) -> (i32, i32) {
    ((data & 0xFF) as i32, ((data >> 8) & 0xFF) as i32)
}

pub open spec fn high_half(data: u32) -> u16 {
    (data >> 16) as u16
}

/// What the renderer is asked to do for command `op` with words `p`.
pub open spec fn draw_of(op: Gp0Op, p: Seq<u32>) -> DrawCommand {
    match op {
        Gp0Op::PolyMono { quad, trans } => DrawCommand::Polygon {
            first: Triangle {
                vertices: [xy_of(p[1]), xy_of(p[2]), xy_of(p[3])],
                colors: [p[0], p[0], p[0]],
                transparent: trans,
                texture: None,
            },
            second: if quad {
                Some(
                    Triangle {
                        vertices: [xy_of(p[2]), xy_of(p[3]), xy_of(p[4])],
                        colors: [p[0], p[0], p[0]],
                        transparent: trans,
                        texture: None,
                    },
                )
            } else {
                None
            },
        },
        Gp0Op::PolyShaded { quad, trans } => DrawCommand::Polygon {
            first: Triangle {
                vertices: [xy_of(p[1]), xy_of(p[3]), xy_of(p[5])],
                colors: [p[0], p[2], p[4]],
                transparent: trans,
                texture: None,
            },
            second: if quad {
                Some(
                    Triangle {
                        vertices: [xy_of(p[3]), xy_of(p[5]), xy_of(p[7])],
                        colors: [p[2], p[4], p[6]],
                        transparent: trans,
                        texture: None,
                    },
                )
            } else {
                None
            },
        },
        Gp0Op::PolyTexture { quad, trans, blend } => DrawCommand::Polygon {
            first: Triangle {
                vertices: [xy_of(p[1]), xy_of(p[3]), xy_of(p[5])],
                colors: [p[0], p[0], p[0]],
                transparent: trans,
                texture: Some(
                    Texturing {
                        page: high_half(p[4]),
                        clut: high_half(p[2]),
                        blend,
                        uvs: [uv_of(p[2]), uv_of(p[4]), uv_of(p[6])],
                    },
                ),
            },
            second: if quad {
                Some(
                    Triangle {
                        vertices: [xy_of(p[3]), xy_of(p[5]), xy_of(p[7])],
                        colors: [p[0], p[0], p[0]],
                        transparent: trans,
                        texture: Some(
                            Texturing {
                                page: high_half(p[4]),
                                clut: high_half(p[2]),
                                blend,
                                uvs: [uv_of(p[4]), uv_of(p[6]), uv_of(p[8])],
                            },
                        ),
                    },
                )
            } else {
                None
            },
        },
        Gp0Op::LineMono { trans } => DrawCommand::Line {
            vertices: [xy_of(p[1]), xy_of(p[2])],
            colors: [p[0], p[0]],
            transparent: trans,
        },
        Gp0Op::LineShaded { trans } => DrawCommand::Line {
            vertices: [xy_of(p[1]), xy_of(p[3])],
            colors: [p[0], p[2]],
            transparent: trans,
        },
        Gp0Op::RectVariable { trans } => DrawCommand::Rectangle {
            position: xy_of(p[1]),
            size: xy_of(p[2]),
            color: p[0],
            transparent: trans,
        },
        Gp0Op::RectFixed { size, trans } => DrawCommand::Rectangle {
            position: xy_of(p[1]),
            size: (size as i32, size as i32),
            color: p[0],
            transparent: trans,
        },
        Gp0Op::QuickRectFill => DrawCommand::Fill { position: xy_of(p[1]), size: xy_of(p[2]), color: p[0] },
        Gp0Op::VramToVramBlit => DrawCommand::Blit { source: xy_of(p[1]), destination: xy_of(p[2]), size: xy_of(p[3]) },
        Gp0Op::DrawMode => DrawCommand::DrawMode {
            x_flip: field(p[0], 12, 1) == 1,
            y_flip: field(p[0], 13, 1) == 1,
            dithering: field(p[0], 9, 1) == 1,
            semi_transparency: field(p[0], 5, 3),
        },
        Gp0Op::TextureWindow => DrawCommand::TextureWindow {
            mask: (field(p[0], 0, 0x1F), field(p[0], 5, 0x1F)),
            offset: (field(p[0], 10, 0x1F), field(p[0], 15, 0x1F)),
        },
        Gp0Op::DrawingAreaTopLeft => DrawCommand::DrawingAreaTopLeft {
            x: field(p[0], 0, 0x3FF),
            y: field(p[0], 10, 0x3FF),
        },
        Gp0Op::DrawingAreaBottomRight => DrawCommand::DrawingAreaBottomRight {
            x: field(p[0], 0, 0x3FF),
            y: field(p[0], 10, 0x3FF),
        },
        Gp0Op::DrawingAreaOffset => DrawCommand::DrawingOffset {
            x: sign_extend_11(field(p[0], 0, 0x7FF)),
            y: sign_extend_11(field(p[0], 11, 0x7FF)),
        },
        _ => DrawCommand::Nothing,
    }
}

fn uv(data: u32) -> (r: (i32, i32))
    ensures
        r == uv_of(data),
{
    parse_uv(data)
}

fn half(data: u32) -> (r: u16)
    ensures
        r == high_half(data),
{
    (data >> 16) as u16
}

fn sext11(v: u32) -> (r: i32)
    ensures
        r == sign_extend_11(v),
{
    let low = v % 2048;
    if low >= 1024 {
        low as i32 - 2048
    } else {
        low as i32
    }
}

/// Decodes a complete command (all its words, command word first) into
/// what the renderer is asked to do.
pub fn decode_draw(op: Gp0Op, p: &Vec<u32>) -> (d: DrawCommand)
    requires
        p@.len() == op_len(op),
    ensures
        d == draw_of(op, p@),
{
    match op {
        Gp0Op::PolyMono { quad, trans } => {
            let first = Triangle {
                vertices: [parse_xy(p[1]), parse_xy(p[2]), parse_xy(p[3])],
                colors: [p[0], p[0], p[0]],
                transparent: trans,
                texture: None,
            };
            let second = if quad {
                Some(
                    Triangle {
                        vertices: [parse_xy(p[2]), parse_xy(p[3]), parse_xy(p[4])],
                        colors: [p[0], p[0], p[0]],
                        transparent: trans,
                        texture: None,
                    },
                )
            } else {
                None
            };
            DrawCommand::Polygon { first, second }
        },
        Gp0Op::PolyShaded { quad, trans } => {
            let first = Triangle {
                vertices: [parse_xy(p[1]), parse_xy(p[3]), parse_xy(p[5])],
                colors: [p[0], p[2], p[4]],
                transparent: trans,
                texture: None,
            };
            let second = if quad {
                Some(
                    Triangle {
                        vertices: [parse_xy(p[3]), parse_xy(p[5]), parse_xy(p[7])],
                        colors: [p[2], p[4], p[6]],
                        transparent: trans,
                        texture: None,
                    },
                )
            } else {
                None
            };
            DrawCommand::Polygon { first, second }
        },
        Gp0Op::PolyTexture { quad, trans, blend } => {
            let page = half(p[4]);
            let clut = half(p[2]);
            let first = Triangle {
                vertices: [parse_xy(p[1]), parse_xy(p[3]), parse_xy(p[5])],
                colors: [p[0], p[0], p[0]],
                transparent: trans,
                texture: Some(Texturing { page, clut, blend, uvs: [uv(p[2]), uv(p[4]), uv(p[6])] }),
            };
            let second = if quad {
                Some(
                    Triangle {
                        vertices: [parse_xy(p[3]), parse_xy(p[5]), parse_xy(p[7])],
                        colors: [p[0], p[0], p[0]],
                        transparent: trans,
                        texture: Some(Texturing { page, clut, blend, uvs: [uv(p[4]), uv(p[6]), uv(p[8])] }),
                    },
                )
            } else {
                None
            };
            DrawCommand::Polygon { first, second }
        },
        Gp0Op::LineMono { trans } => DrawCommand::Line {
            vertices: [parse_xy(p[1]), parse_xy(p[2])],
            colors: [p[0], p[0]],
            transparent: trans,
        },
        Gp0Op::LineShaded { trans } => DrawCommand::Line {
            vertices: [parse_xy(p[1]), parse_xy(p[3])],
            colors: [p[0], p[2]],
            transparent: trans,
        },
        Gp0Op::RectVariable { trans } => DrawCommand::Rectangle {
            position: parse_xy(p[1]),
            size: parse_xy(p[2]),
            color: p[0],
            transparent: trans,
        },
        Gp0Op::RectFixed { size, trans } => DrawCommand::Rectangle {
            position: parse_xy(p[1]),
            size: (size as i32, size as i32),
            color: p[0],
            transparent: trans,
        },
        Gp0Op::QuickRectFill => DrawCommand::Fill { position: parse_xy(p[1]), size: parse_xy(p[2]), color: p[0] },
        Gp0Op::VramToVramBlit => DrawCommand::Blit {
            source: parse_xy(p[1]),
            destination: parse_xy(p[2]),
            size: parse_xy(p[3]),
        },
        Gp0Op::DrawMode => DrawCommand::DrawMode {
            x_flip: get_field(p[0], 12, 1) == 1,
            y_flip: get_field(p[0], 13, 1) == 1,
            dithering: get_field(p[0], 9, 1) == 1,
            semi_transparency: get_field(p[0], 5, 3),
        },
        Gp0Op::TextureWindow => DrawCommand::TextureWindow {
            mask: (get_field(p[0], 0, 0x1F), get_field(p[0], 5, 0x1F)),
            offset: (get_field(p[0], 10, 0x1F), get_field(p[0], 15, 0x1F)),
        },
        Gp0Op::DrawingAreaTopLeft => DrawCommand::DrawingAreaTopLeft {
            x: get_field(p[0], 0, 0x3FF),
            y: get_field(p[0], 10, 0x3FF),
        },
        Gp0Op::DrawingAreaBottomRight => DrawCommand::DrawingAreaBottomRight {
            x: get_field(p[0], 0, 0x3FF),
            y: get_field(p[0], 10, 0x3FF),
        },
        Gp0Op::DrawingAreaOffset => DrawCommand::DrawingOffset {
            x: sext11(get_field(p[0], 0, 0x7FF)),
            y: sext11(get_field(p[0], 11, 0x7FF)),
        },
        _ => DrawCommand::Nothing,
    }
}

/// Vertex `i` of a shaded command: the position in word 2i + 1 with the
/// color in word 2i before it.
pub open spec fn shaded_vertex(p: Seq<u32>, i: int) -> ((i32, i32), u32) {
    (xy_of(p[2 * i + 1]), p[2 * i])
}

/// Every corner of `t` is one of the command's first `n` vertices with its
/// own color.
pub open spec fn corners_keep_colors(t: Triangle, p: Seq<u32>, n: int) -> bool {
    forall|j: int|
        #![trigger t.vertices@[j]]
        0 <= j < 3 ==> exists|i: int| 0 <= i < n && #[trigger] shaded_vertex(p, i) == (t.vertices@[j], t.colors@[j])
}

/// In a decoded shaded polygon each vertex carries its own color: every
/// corner of each triangle is a vertex (position word 2i + 1) with the color
/// word 2i before it, and a quad's second triangle holds its fourth vertex.
pub proof fn lemma_shaded_polygon_colors(quad: bool, trans: bool, p: Seq<u32>)
    requires
        p.len() == op_len(Gp0Op::PolyShaded { quad, trans }),
    ensures
        ({
            let n = if quad { 4int } else { 3 };
            &&& draw_of(Gp0Op::PolyShaded { quad, trans }, p) matches DrawCommand::Polygon { first, second }
            &&& corners_keep_colors(first, p, n)
            &&& (second is Some) == quad
            &&& second matches Some(t) ==> corners_keep_colors(t, p, n) && exists|j: int|
                0 <= j < 3 && shaded_vertex(p, 3) == (#[trigger] t.vertices@[j], t.colors@[j])
        }),
{
    let n = if quad { 4int } else { 3 };
    if let DrawCommand::Polygon { first, second } = draw_of(Gp0Op::PolyShaded { quad, trans }, p) {
        lemma_corners(first, p, n, 0, 1, 2);
        if let Some(t) = second {
            lemma_corners(t, p, n, 1, 2, 3);
        }
    }
}

proof fn lemma_corners(t: Triangle, p: Seq<u32>, n: int, a: int, b: int, c: int)
    requires
        0 <= a < n,
        0 <= b < n,
        0 <= c < n,
        shaded_vertex(p, a) == (t.vertices@[0], t.colors@[0]),
        shaded_vertex(p, b) == (t.vertices@[1], t.colors@[1]),
        shaded_vertex(p, c) == (t.vertices@[2], t.colors@[2]),
    ensures
        corners_keep_colors(t, p, n),
{
    assert forall|j: int| #![trigger t.vertices@[j]] 0 <= j < 3 implies exists|i: int|
        0 <= i < n && #[trigger] shaded_vertex(p, i) == (t.vertices@[j], t.colors@[j]) by {
        if j == 0 {
            assert(shaded_vertex(p, a) == (t.vertices@[j], t.colors@[j]));
        } else if j == 1 {
            assert(shaded_vertex(p, b) == (t.vertices@[j], t.colors@[j]));
        } else {
            assert(shaded_vertex(p, c) == (t.vertices@[j], t.colors@[j]));
        }
    }
}

/// A decoded shaded line pairs each end with its own color: the position in
/// word 1 with color word 0, the position in word 3 with color word 2.
pub proof fn lemma_shaded_line_colors(trans: bool, p: Seq<u32>)
    requires
        p.len() == op_len(Gp0Op::LineShaded { trans }),
    ensures
        draw_of(Gp0Op::LineShaded { trans }, p) matches DrawCommand::Line { vertices, colors, .. }
            && (vertices@[0], colors@[0]) == shaded_vertex(p, 0) && (vertices@[1], colors@[1]) == shaded_vertex(p, 1),
{
}

/// Vertex `i` of a textured command: the position in word 2i + 1 with the
/// texture coordinate in word 2i + 2 after it.
pub open spec fn textured_vertex(p: Seq<u32>, i: int) -> ((i32, i32), (i32, i32)) {
    (xy_of(p[2 * i + 1]), uv_of(p[2 * i + 2]))
}

/// Every corner of `t` is one of the command's first `n` textured vertices
/// with its own texture coordinate.
pub open spec fn corners_keep_uvs(t: Triangle, p: Seq<u32>, n: int) -> bool {
    &&& t.texture is Some
    &&& forall|j: int|
        #![trigger t.vertices@[j]]
        0 <= j < 3 ==> exists|i: int|
            0 <= i < n && #[trigger] textured_vertex(p, i) == (t.vertices@[j], t.texture->Some_0.uvs@[j])
}

/// In a decoded textured polygon each vertex carries its own texture
/// coordinate (word 2i + 2 for the position in word 2i + 1), every corner has
/// the command's color (word 0), the CLUT comes from word 2 and the texture
/// page from word 4, and a quad's second triangle holds its fourth vertex.
pub proof fn lemma_textured_polygon_uvs(quad: bool, trans: bool, blend: bool, p: Seq<u32>)
    requires
        p.len() == op_len(Gp0Op::PolyTexture { quad, trans, blend }),
    ensures
        ({
            let n = if quad { 4int } else { 3 };
            &&& draw_of(Gp0Op::PolyTexture { quad, trans, blend }, p) matches DrawCommand::Polygon { first, second }
            &&& corners_keep_uvs(first, p, n)
            &&& (second is Some) == quad
            &&& forall|t: Triangle| #![trigger corners_keep_uvs(t, p, n)]
                (t == first || second == Some(t)) ==> {
                &&& corners_keep_uvs(t, p, n)
                &&& t.colors == [p[0], p[0], p[0]]
                &&& t.texture->Some_0.clut == high_half(p[2])
                &&& t.texture->Some_0.page == high_half(p[4])
                &&& t.texture->Some_0.blend == blend
                &&& t.transparent == trans
            }
            &&& second matches Some(t) ==> exists|j: int|
                0 <= j < 3 && textured_vertex(p, 3) == (#[trigger] t.vertices@[j], t.texture->Some_0.uvs@[j])
        }),
{
    let n = if quad { 4int } else { 3 };
    if let DrawCommand::Polygon { first, second } = draw_of(Gp0Op::PolyTexture { quad, trans, blend }, p) {
        lemma_uv_corners(first, p, n, 0, 1, 2);
        if let Some(t) = second {
            lemma_uv_corners(t, p, n, 1, 2, 3);
            assert(textured_vertex(p, 3) == (t.vertices@[2], t.texture->Some_0.uvs@[2]));
        }
    }
}

proof fn lemma_uv_corners(t: Triangle, p: Seq<u32>, n: int, a: int, b: int, c: int)
    requires
        0 <= a < n,
        0 <= b < n,
        0 <= c < n,
        t.texture is Some,
        textured_vertex(p, a) == (t.vertices@[0], t.texture->Some_0.uvs@[0]),
        textured_vertex(p, b) == (t.vertices@[1], t.texture->Some_0.uvs@[1]),
        textured_vertex(p, c) == (t.vertices@[2], t.texture->Some_0.uvs@[2]),
    ensures
        corners_keep_uvs(t, p, n),
{
    let tex = t.texture->Some_0;
    assert forall|j: int| #![trigger t.vertices@[j]] 0 <= j < 3 implies exists|i: int|
        0 <= i < n && #[trigger] textured_vertex(p, i) == (t.vertices@[j], tex.uvs@[j]) by {
        if j == 0 {
            assert(textured_vertex(p, a) == (t.vertices@[j], tex.uvs@[j]));
        } else if j == 1 {
            assert(textured_vertex(p, b) == (t.vertices@[j], tex.uvs@[j]));
        } else {
            assert(textured_vertex(p, c) == (t.vertices@[j], tex.uvs@[j]));
        }
    }
}

/// A quad is drawn as two triangles that share an edge: the second
/// triangle's first two corners are the first triangle's last two, for
/// flat, shaded and textured quads alike.
pub proof fn lemma_quad_shares_edge(op: Gp0Op, p: Seq<u32>)
    requires
        p.len() == op_len(op),
        (match op {
            Gp0Op::PolyMono { quad, .. } => quad,
            Gp0Op::PolyShaded { quad, .. } => quad,
            Gp0Op::PolyTexture { quad, .. } => quad,
            _ => false,
        }),
    ensures
        draw_of(op, p) matches DrawCommand::Polygon { first, second } && second matches Some(t)
            && t.vertices@[0] == first.vertices@[1] && t.vertices@[1] == first.vertices@[2],
{
}

} // verus!
