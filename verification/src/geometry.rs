//! The full-viewport quad: its four vertices, its six indices, and the layout
//! in which a vertex buffer holds them.

use vstd::prelude::*;

verus! {

/// A corner of the quad. Every coordinate of the quad is a whole number, so
/// the fields hold integers: a position in normalized device coordinates,
/// where the viewport spans -1 to 1 with y pointing up, and a texture
/// coordinate, where the texture spans 0 to 1 with v pointing down.
#[derive(Debug, Clone, Copy, PartialEq, Eq)]
pub struct Vertex {
    pub position: [i8; 3],
    pub tex_coords: [u8; 2],
}

/// How a vertex attribute is encoded in the vertex buffer.
#[derive(Debug, Clone, Copy, PartialEq, Eq, Structural)]
pub enum VertexFormat {
    /// Two 32-bit floating-point components.
    Float2,
    /// Three 32-bit floating-point components.
    Float3,
}

/// Whether a vertex buffer advances per vertex or per instance.
#[derive(Debug, Clone, Copy, PartialEq, Eq, Structural)]
pub enum InputStepMode {
    Vertex,
    Instance,
}

/// The width of one index in an index buffer.
#[derive(Debug, Clone, Copy, PartialEq, Eq, Structural)]
pub enum IndexFormat {
    Uint16,
    Uint32,
}

/// One attribute of a vertex: its encoding, its byte offset within the
/// vertex, and the shader input that it feeds.
#[derive(Debug, Clone, Copy, PartialEq, Eq, Structural)]
pub struct VertexAttribute {
    pub format: VertexFormat,
    pub offset: u64,
    pub shader_location: u32,
}

/// The layout of the quad's vertex buffer.
#[derive(Debug, Clone, Copy, PartialEq, Eq)]
pub struct VertexBufferLayout {
    pub array_stride: u64,
    pub step_mode: InputStepMode,
    pub attributes: [VertexAttribute; 2],
}

impl VertexFormat {
    /// The number of bytes that an attribute of this format takes.
    pub open spec fn byte_size(self) -> u64 {
        match self {
            VertexFormat::Float2 => 8,
            VertexFormat::Float3 => 12,
        }
    }

    /// The number of bytes that an attribute of this format takes.
    #[verifier::when_used_as_spec(byte_size)]
    pub fn size(self) -> (n: u64)
        ensures
            n == self.byte_size(),
    {
        match self {
            VertexFormat::Float2 => 8,
            VertexFormat::Float3 => 12,
        }
    }
}

impl IndexFormat {
    /// The number of bytes that one index of this format takes.
    pub open spec fn byte_size(self) -> u64 {
        match self {
            IndexFormat::Uint16 => 2,
            IndexFormat::Uint32 => 4,
        }
    }
}

impl VertexBufferLayout {
    /// The attributes follow one another without a gap, starting at offset 0,
    /// and the stride is the end of the last one.
    pub open spec fn tightly_packed(self) -> bool {
        &&& self.attributes[0].offset == 0
        &&& self.attributes[1].offset == self.attributes[0].offset
            + self.attributes[0].format.byte_size()
        &&& self.array_stride == self.attributes[1].offset + self.attributes[1].format.byte_size()
    }
}

impl Vertex {
    /// Horizontal position, -1 at the left edge of the viewport and 1 at the
    /// right edge.
    pub open spec fn x(self) -> int {
        self.position[0] as int
    }

    /// Vertical position, -1 at the bottom edge of the viewport and 1 at the
    /// top edge.
    pub open spec fn y(self) -> int {
        self.position[1] as int
    }

    /// Depth.
    pub open spec fn z(self) -> int {
        self.position[2] as int
    }

    /// Horizontal texture coordinate, 0 at the left edge of the texture.
    pub open spec fn u(self) -> int {
        self.tex_coords[0] as int
    }

    /// Vertical texture coordinate, 0 at the top edge of the texture.
    pub open spec fn v(self) -> int {
        self.tex_coords[1] as int
    }

    /// The vertex buffer layout: the position as three floats at offset 0 for
    /// shader input 0, then the texture coordinate as two floats at offset 12
    /// for shader input 1, one vertex every 20 bytes.
    pub open spec fn layout() -> VertexBufferLayout {
        VertexBufferLayout {
            array_stride: 20,
            step_mode: InputStepMode::Vertex,
            attributes: [
                VertexAttribute { format: VertexFormat::Float3, offset: 0, shader_location: 0 },
                VertexAttribute { format: VertexFormat::Float2, offset: 12, shader_location: 1 },
            ],
        }
    }

    /// The vertex buffer layout, one attribute packed behind the other.
    pub fn desc() -> (layout: VertexBufferLayout)
        ensures
            layout == Vertex::layout(),
            layout.tightly_packed(),
    {
        let position = VertexAttribute {
            format: VertexFormat::Float3,
            offset: 0,
            shader_location: 0,
        };
        let tex_coords = VertexAttribute {
            format: VertexFormat::Float2,
            offset: position.format.size(),
            shader_location: 1,
        };
        VertexBufferLayout {
            array_stride: tex_coords.offset + tex_coords.format.size(),
            step_mode: InputStepMode::Vertex,
            attributes: [position, tex_coords],
        }
    }
}

/// The corners of the quad: top left, top right, bottom left, bottom right.
pub open spec fn quad() -> Seq<Vertex> {
    seq![
        Vertex { position: [-1i8, 1i8, 0i8], tex_coords: [0u8, 0u8] },
        Vertex { position: [1i8, 1i8, 0i8], tex_coords: [1u8, 0u8] },
        Vertex { position: [-1i8, -1i8, 0i8], tex_coords: [0u8, 1u8] },
        Vertex { position: [1i8, -1i8, 0i8], tex_coords: [1u8, 1u8] },
    ]
}

/// The corners of the quad: top left, top right, bottom left, bottom right.
pub fn vertices() -> (vs: [Vertex; 4])
    ensures
        vs@ == quad(),
{
    let vs = [
        Vertex { position: [-1, 1, 0], tex_coords: [0, 0] },
        Vertex { position: [1, 1, 0], tex_coords: [1, 0] },
        Vertex { position: [-1, -1, 0], tex_coords: [0, 1] },
        Vertex { position: [1, -1, 0], tex_coords: [1, 1] },
    ];
    assert(vs@ =~= quad());
    vs
}

/// The six indices of the quad: the triangle top left, bottom left, bottom
/// right, then the triangle top left, bottom right, top right.
pub open spec fn quad_indices() -> Seq<u16> {
    seq![0u16, 2u16, 3u16, 0u16, 3u16, 1u16]
}

/// The six indices of the quad, three for each of its two triangles.
pub fn indices() -> (is: [u16; 6])
    ensures
        is@ == quad_indices(),
{
    let is: [u16; 6] = [0, 2, 3, 0, 3, 1];
    assert(is@ =~= quad_indices());
    is
}

/// Each index takes two bytes of `bytes`, low byte first.
pub open spec fn little_endian(indices: Seq<u16>, bytes: Seq<u8>) -> bool {
    forall|i: int|
        0 <= i < indices.len() ==> indices[i] == #[trigger] bytes[2 * i] + 256 * bytes[2 * i + 1]
}

/// Each index takes two bytes of `bytes`, high byte first.
pub open spec fn big_endian(indices: Seq<u16>, bytes: Seq<u8>) -> bool {
    forall|i: int|
        0 <= i < indices.len() ==> indices[i] == 256 * #[trigger] bytes[2 * i] + bytes[2 * i + 1]
}

/// The memory of a slice of 16-bit indices as bytes, by `bytemuck::cast_slice`
/// from `u16` to `u8`. Trusted: the result has two bytes for each index, and
/// they hold the indices in the byte order of the machine, which is the same
/// for all of them. The cast cannot fail, since a byte needs no alignment and
/// any length is a whole number of bytes.
#[verifier::external_body]
fn cast_index_bytes(indices: &[u16]) -> (bytes: Vec<u8>)
    ensures
        bytes@.len() == 2 * indices@.len(),
        little_endian(indices@, bytes@) || big_endian(indices@, bytes@),
{
    bytemuck::cast_slice::<u16, u8>(indices).to_vec()
}

/// The contents of the quad's index buffer: two bytes for each of the six
/// indices, in the byte order of the machine, as an index buffer of format
/// `Uint16` is read.
pub fn index_bytes() -> (bytes: Vec<u8>)
    ensures
        bytes@.len() == quad_indices().len() * IndexFormat::Uint16.byte_size(),
        little_endian(quad_indices(), bytes@) || big_endian(quad_indices(), bytes@),
{
    let is = indices();
    cast_index_bytes(is.as_slice())
}

/// Corner `k` (0, 1 or 2) of triangle `t` (0 or 1) of the quad.
pub open spec fn corner(t: int, k: int) -> Vertex {
    quad()[quad_indices()[3 * t + k] as int]
}

/// Twice the signed area of the triangle `a`, `b`, `c`: positive where the
/// corners run counter-clockwise on the screen.
pub open spec fn winding(a: Vertex, b: Vertex, c: Vertex) -> int {
    (b.x() - a.x()) * (c.y() - a.y()) - (b.y() - a.y()) * (c.x() - a.x())
}

/// On which side of the edge from `a` to `b` the point `(x / d, y / d)` lies,
/// scaled by `d`: not negative where the point is on the edge or to its left.
pub open spec fn edge_side(a: Vertex, b: Vertex, x: int, y: int, d: int) -> int {
    (b.x() - a.x()) * (y - a.y() * d) - (b.y() - a.y()) * (x - a.x() * d)
}

/// The point `(x / d, y / d)` lies in triangle `t` of the quad, its edges
/// included.
pub open spec fn in_triangle(t: int, x: int, y: int, d: int) -> bool {
    &&& edge_side(corner(t, 0), corner(t, 1), x, y, d) >= 0
    &&& edge_side(corner(t, 1), corner(t, 2), x, y, d) >= 0
    &&& edge_side(corner(t, 2), corner(t, 0), x, y, d) >= 0
}

/// Every index of the quad names one of its four vertices.
pub proof fn lemma_indices_name_vertices()
    ensures
        quad_indices().len() == 6,
        quad().len() == 4,
        forall|k: int| 0 <= k < 6 ==> (#[trigger] quad_indices()[k]) < 4,
{
}

/// Where the corners of the two triangles lie.
proof fn lemma_corner_positions()
    ensures
        corner(0, 0).x() == -1 && corner(0, 0).y() == 1,
        corner(0, 1).x() == -1 && corner(0, 1).y() == -1,
        corner(0, 2).x() == 1 && corner(0, 2).y() == -1,
        corner(1, 0).x() == -1 && corner(1, 0).y() == 1,
        corner(1, 1).x() == 1 && corner(1, 1).y() == -1,
        corner(1, 2).x() == 1 && corner(1, 2).y() == 1,
{
}

/// Both triangles of the quad run counter-clockwise, so with
/// counter-clockwise front faces neither of them is culled as a back face.
pub proof fn lemma_triangles_face_front()
    ensures
        winding(corner(0, 0), corner(0, 1), corner(0, 2)) > 0,
        winding(corner(1, 0), corner(1, 1), corner(1, 2)) > 0,
{
    lemma_corner_positions();
}

/// The two triangles cover the viewport: every point `(x / d, y / d)` with
/// both coordinates between -1 and 1 lies in one of them.
pub proof fn lemma_quad_covers_viewport(x: int, y: int, d: int)
    requires
        d > 0,
        -d <= x <= d,
        -d <= y <= d,
    ensures
        in_triangle(0, x, y, d) || in_triangle(1, x, y, d),
{
    lemma_corner_positions();
    if x + y <= 0 {
        assert(in_triangle(0, x, y, d));
    } else {
        assert(in_triangle(1, x, y, d));
    }
}

/// The texture lies upright on the viewport and fills it: at every corner
/// the texture coordinate is the position, moved and halved from -1..1 to
/// 0..1, with the vertical axis turned over; and the quad is flat at depth 0.
pub proof fn lemma_texture_fills_viewport()
    ensures
        forall|i: int|
            0 <= i < 4 ==> {
                let c = #[trigger] quad()[i];
                &&& 2 * c.u() == c.x() + 1
                &&& 2 * c.v() == 1 - c.y()
                &&& c.z() == 0
            },
{
}

} // verus!
