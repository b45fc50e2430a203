//! Vertex data for the GPU: vertices of a position and a colour, the meshes
//! the renderer uploads, and the bytes that go into a vertex buffer.
//!
//! Each component is a 32-bit float; the library holds it as its IEEE 754 bit
//! pattern, so that the bytes a vertex buffer receives are fixed exactly.

use vstd::prelude::*;

verus! {

/// Bit pattern of the float zero.
pub const ZERO_BITS: u32 = 0;
/// Bit pattern of the float one.
pub const ONE_BITS: u32 = 0x3F80_0000;
/// Bit pattern of the float one half.
pub const HALF_BITS: u32 = 0x3F00_0000;
/// Bit pattern of the float minus one half.
pub const MINUS_HALF_BITS: u32 = 0xBF00_0000;

/// A position in clip space, each coordinate as a float bit pattern.
#[derive(Clone, Copy, PartialEq, Eq, Structural, Debug)]
pub struct Position {
    pub x: u32,
    pub y: u32,
    pub z: u32,
}

/// A colour, each channel as a float bit pattern.
#[derive(Clone, Copy, PartialEq, Eq, Structural, Debug)]
pub struct Color {
    pub r: u32,
    pub g: u32,
    pub b: u32,
}

/// One vertex: its position followed by its colour.
#[derive(Clone, Copy, PartialEq, Eq, Structural, Debug)]
pub struct Vertex {
    pub position: Position,
    pub color: Color,
}

/// Size in bytes of one vertex in a vertex buffer: six 32-bit floats.
pub const VERTEX_SIZE: usize = 24;

/// The format of a vertex attribute: a number of 32-bit floats.
#[derive(Clone, Copy, PartialEq, Eq, Structural, Debug)]
pub enum AttributeFormat {
    Float32x2,
    Float32x3,
    Float32x4,
}

/// One attribute of a vertex in a vertex buffer.
#[derive(Clone, Copy, PartialEq, Eq, Structural, Debug)]
pub struct VertexAttributeDesc {
    /// Byte offset of the attribute within a vertex.
    pub offset: u64,
    /// The shader input the attribute feeds.
    pub shader_location: u32,
    pub format: AttributeFormat,
}

/// How a vertex buffer is read: one vertex per stride, stepping once per
/// vertex, with the given attributes.
#[derive(Clone, Debug)]
pub struct VertexLayoutDesc {
    pub array_stride: u64,
    pub attributes: Vec<VertexAttributeDesc>,
}

/// The attributes of a vertex: its position at location 0, then its colour
/// at location 1, each three floats.
pub open spec fn vertex_attributes() -> Seq<VertexAttributeDesc> {
    seq![
        VertexAttributeDesc { offset: 0, shader_location: 0, format: AttributeFormat::Float32x3 },
        VertexAttributeDesc { offset: 12, shader_location: 1, format: AttributeFormat::Float32x3 },
    ]
}

/// The layout of a vertex buffer of vertices.
pub fn vertex_layout() -> (layout: VertexLayoutDesc)
    ensures
        layout.array_stride == VERTEX_SIZE,
        layout.attributes@ == vertex_attributes(),
{
    let mut attributes: Vec<VertexAttributeDesc> = Vec::new();
    attributes.push(VertexAttributeDesc { offset: 0, shader_location: 0, format: AttributeFormat::Float32x3 });
    attributes.push(VertexAttributeDesc { offset: 12, shader_location: 1, format: AttributeFormat::Float32x3 });
    assert(attributes@ =~= vertex_attributes());
    VertexLayoutDesc { array_stride: VERTEX_SIZE as u64, attributes }
}

/// The vertex layout agrees with the bytes of a vertex: the position is
/// read from the first three components, the colour from the three after
/// them, and one vertex takes the whole stride.
pub proof fn law_layout_matches_bytes(v: Vertex)
    ensures
        vertex_attributes()[0].offset == 4 * 0 && vertex_words(v)[0] == v.position.x,
        vertex_attributes()[1].offset == 4 * 3 && vertex_words(v)[3] == v.color.r,
        VERTEX_SIZE == 4 * vertex_words(v).len(),
{
}

/// The vertex with the given components.
pub open spec fn vertex_of(x: u32, y: u32, z: u32, r: u32, g: u32, b: u32) -> Vertex {
    Vertex { position: Position { x, y, z }, color: Color { r, g, b } }
}

/// The vertex at the origin, coloured black.
pub open spec fn zero_vertex() -> Vertex {
    vertex_of(0, 0, 0, 0, 0, 0)
}

impl Vertex {
    /// The vertex with the given position and colour components.
    pub fn from(x: u32, y: u32, z: u32, r: u32, g: u32, b: u32) -> (v: Self)
        ensures
            v == vertex_of(x, y, z, r, g, b),
    {
        Vertex { position: Position { x, y, z }, color: Color { r, g, b } }
    }

    /// The vertex at the origin, coloured black.
    pub fn new() -> (v: Self)
        ensures
            v == zero_vertex(),
    {
        Vertex { position: Position { x: 0, y: 0, z: 0 }, color: Color { r: 0, g: 0, b: 0 } }
    }
}

/// The six components of a vertex, in buffer order.
pub open spec fn vertex_words(v: Vertex) -> Seq<u32> {
    seq![v.position.x, v.position.y, v.position.z, v.color.r, v.color.g, v.color.b]
}

/// The components of a sequence of vertices, one vertex after the other.
pub open spec fn words_of(vs: Seq<Vertex>) -> Seq<u32>
    decreases vs.len(),
{
    if vs.len() == 0 {
        Seq::empty()
    } else {
        words_of(vs.drop_last()) + vertex_words(vs.last())
    }
}

/// The flattened components have six entries per vertex, and entry `6 * i + k`
/// is component `k` of vertex `i`.
pub proof fn lemma_words_of(vs: Seq<Vertex>)
    ensures
        words_of(vs).len() == 6 * vs.len(),
        forall|i: int, k: int|
            0 <= i < vs.len() && 0 <= k < 6 ==> #[trigger] words_of(vs)[6 * i + k]
                == vertex_words(vs[i])[k],
    decreases vs.len(),
{
    if vs.len() > 0 {
        let front = vs.drop_last();
        lemma_words_of(front);
        assert forall|i: int, k: int|
            0 <= i < vs.len() && 0 <= k < 6 implies #[trigger] words_of(vs)[6 * i + k]
                == vertex_words(vs[i])[k] by {
            if i < vs.len() - 1 {
                assert(front[i] == vs[i]);
            }
        }
    }
}

/// The byte of `w` at position `k`, counting from the least significant.
pub open spec fn byte_of(w: u32, k: int) -> u8 {
    if k == 0 {
        (w & 0xff) as u8
    } else if k == 1 {
        ((w >> 8u32) & 0xff) as u8
    } else if k == 2 {
        ((w >> 16u32) & 0xff) as u8
    } else {
        ((w >> 24u32) & 0xff) as u8
    }
}

/// `bytes` holds `words` four bytes each, least significant byte first when
/// `little` and most significant first otherwise.
pub open spec fn encodes(words: Seq<u32>, bytes: Seq<u8>, little: bool) -> bool {
    &&& bytes.len() == 4 * words.len()
    &&& forall|i: int, k: int|
        0 <= i < words.len() && 0 <= k < 4 ==> #[trigger] bytes[4 * i + k] == byte_of(
            words[i],
            if little { k } else { 3 - k },
        )
}

/// The word stored in bytes `4 * i .. 4 * i + 4`, read in the given order.
pub open spec fn word_at(bytes: Seq<u8>, i: int, little: bool) -> u32 {
    let b0 = bytes[4 * i + if little { 0int } else { 3 }] as u32;
    let b1 = bytes[4 * i + if little { 1int } else { 2 }] as u32;
    let b2 = bytes[4 * i + if little { 2int } else { 1 }] as u32;
    let b3 = bytes[4 * i + if little { 3int } else { 0 }] as u32;
    b0 | (b1 << 8u32) | (b2 << 16u32) | (b3 << 24u32)
}

/// Every component of every vertex reaches the buffer words in order: the
/// six words of vertex `i` are its position's x, y and z, then its colour's
/// red, green and blue.
pub proof fn law_components_in_order(vs: Seq<Vertex>)
    ensures
        words_of(vs).len() == 6 * vs.len(),
        forall|i: int|
            0 <= i < vs.len() ==> {
                &&& #[trigger] words_of(vs)[6 * i] == vs[i].position.x
                &&& words_of(vs)[6 * i + 1] == vs[i].position.y
                &&& words_of(vs)[6 * i + 2] == vs[i].position.z
                &&& words_of(vs)[6 * i + 3] == vs[i].color.r
                &&& words_of(vs)[6 * i + 4] == vs[i].color.g
                &&& words_of(vs)[6 * i + 5] == vs[i].color.b
            },
{
    lemma_words_of(vs);
    assert forall|i: int| 0 <= i < vs.len() implies {
        &&& #[trigger] words_of(vs)[6 * i] == vs[i].position.x
        &&& words_of(vs)[6 * i + 1] == vs[i].position.y
        &&& words_of(vs)[6 * i + 2] == vs[i].position.z
        &&& words_of(vs)[6 * i + 3] == vs[i].color.r
        &&& words_of(vs)[6 * i + 4] == vs[i].color.g
        &&& words_of(vs)[6 * i + 5] == vs[i].color.b
    } by {
        assert(words_of(vs)[6 * i + 0] == vertex_words(vs[i])[0]);
        assert(words_of(vs)[6 * i + 1] == vertex_words(vs[i])[1]);
        assert(words_of(vs)[6 * i + 2] == vertex_words(vs[i])[2]);
        assert(words_of(vs)[6 * i + 3] == vertex_words(vs[i])[3]);
        assert(words_of(vs)[6 * i + 4] == vertex_words(vs[i])[4]);
        assert(words_of(vs)[6 * i + 5] == vertex_words(vs[i])[5]);
    }
}

/// The bytes of a vertex buffer hold every component of every vertex: read
/// back in the order they were laid out in, word `6 * i + k` of the bytes
/// is component `k` of vertex `i`, position first, then colour.
pub proof fn law_vertex_bytes(vs: Seq<Vertex>, bytes: Seq<u8>, little: bool)
    requires
        encodes(words_of(vs), bytes, little),
    ensures
        bytes.len() == 24 * vs.len(),
        forall|i: int|
            0 <= i < vs.len() ==> {
                &&& #[trigger] word_at(bytes, 6 * i, little) == vs[i].position.x
                &&& word_at(bytes, 6 * i + 1, little) == vs[i].position.y
                &&& word_at(bytes, 6 * i + 2, little) == vs[i].position.z
                &&& word_at(bytes, 6 * i + 3, little) == vs[i].color.r
                &&& word_at(bytes, 6 * i + 4, little) == vs[i].color.g
                &&& word_at(bytes, 6 * i + 5, little) == vs[i].color.b
            },
{
    law_components_in_order(vs);
    law_bytes_read_back(words_of(vs), bytes, little);
    assert forall|i: int| 0 <= i < vs.len() implies {
        &&& #[trigger] word_at(bytes, 6 * i, little) == vs[i].position.x
        &&& word_at(bytes, 6 * i + 1, little) == vs[i].position.y
        &&& word_at(bytes, 6 * i + 2, little) == vs[i].position.z
        &&& word_at(bytes, 6 * i + 3, little) == vs[i].color.r
        &&& word_at(bytes, 6 * i + 4, little) == vs[i].color.g
        &&& word_at(bytes, 6 * i + 5, little) == vs[i].color.b
    } by {
        assert(word_at(bytes, 6 * i, little) == words_of(vs)[6 * i]);
        assert(word_at(bytes, 6 * i + 1, little) == words_of(vs)[6 * i + 1]);
        assert(word_at(bytes, 6 * i + 2, little) == words_of(vs)[6 * i + 2]);
        assert(word_at(bytes, 6 * i + 3, little) == words_of(vs)[6 * i + 3]);
        assert(word_at(bytes, 6 * i + 4, little) == words_of(vs)[6 * i + 4]);
        assert(word_at(bytes, 6 * i + 5, little) == words_of(vs)[6 * i + 5]);
    }
}

/// Reading the bytes of a buffer back in the order they were laid out in
/// gives back every word.
pub proof fn law_bytes_read_back(words: Seq<u32>, bytes: Seq<u8>, little: bool)
    requires
        encodes(words, bytes, little),
    ensures
        forall|i: int| 0 <= i < words.len() ==> #[trigger] word_at(bytes, i, little) == words[i],
{
    assert forall|i: int| 0 <= i < words.len() implies #[trigger] word_at(bytes, i, little) == words[i] by {
        let w = words[i];
        assert(bytes[4 * i + 0] == byte_of(w, if little { 0 } else { 3 }));
        assert(bytes[4 * i + 1] == byte_of(w, if little { 1 } else { 2 }));
        assert(bytes[4 * i + 2] == byte_of(w, if little { 2 } else { 1 }));
        assert(bytes[4 * i + 3] == byte_of(w, if little { 3 } else { 0 }));
        let b0 = (w & 0xff) as u8;
        let b1 = ((w >> 8u32) & 0xff) as u8;
        let b2 = ((w >> 16u32) & 0xff) as u8;
        let b3 = ((w >> 24u32) & 0xff) as u8;
        assert(((b0 as u32) | ((b1 as u32) << 8u32) | ((b2 as u32) << 16u32) | ((b3 as u32) << 24u32))
            == w) by (bit_vector)
            requires
                b0 == (w & 0xff) as u8,
                b1 == ((w >> 8u32) & 0xff) as u8,
                b2 == ((w >> 16u32) & 0xff) as u8,
                b3 == ((w >> 24u32) & 0xff) as u8,
        ;
        assert(word_at(bytes, i, little) == ((b0 as u32) | ((b1 as u32) << 8u32) | ((b2 as u32) << 16u32)
            | ((b3 as u32) << 24u32)));
    }
}

/// A fresh vertex buffer is all zero bytes, whatever the byte order.
pub proof fn law_fresh_buffer_is_zero(vertices: Seq<Vertex>, bytes: Seq<u8>, little: bool)
    requires
        forall|i: int| 0 <= i < vertices.len() ==> vertices[i] == zero_vertex(),
        encodes(words_of(vertices), bytes, little),
    ensures
        forall|j: int| 0 <= j < bytes.len() ==> bytes[j] == 0,
{
    lemma_words_of(vertices);
    assert forall|j: int| 0 <= j < bytes.len() implies bytes[j] == 0 by {
        let i = j / 4;
        let k = j % 4;
        assert(j == 4 * i + k);
        let v = i / 6;
        let c = i % 6;
        assert(i == 6 * v + c);
        assert(words_of(vertices)[6 * v + c] == vertex_words(vertices[v])[c]);
        assert(vertex_words(vertices[v])[c] == 0);
        assert(bytes[4 * i + k] == byte_of(words_of(vertices)[i], if little { k } else { 3 - k }));
        assert((0u32 & 0xff) as u8 == 0 && ((0u32 >> 8u32) & 0xff) as u8 == 0 && ((0u32 >> 16u32) & 0xff) as u8 == 0
            && ((0u32 >> 24u32) & 0xff) as u8 == 0) by (bit_vector);
    }
}

/// The memory of `words` viewed as bytes: calls `bytemuck::cast_slice` from
/// `u32` to `u8`, which cannot fail for these types, and copies the result.
/// The contract claims the length and that each word is laid out in one byte
/// order, the same for all; which order is the machine's, and is left open.
#[verifier::external_body]
fn words_as_bytes(words: &[u32]) -> (bytes: Vec<u8>)
    ensures
        encodes(words@, bytes@, true) || encodes(words@, bytes@, false),
{
    bytemuck::cast_slice::<u32, u8>(words).to_vec()
}

/// The components of the vertices, one vertex after the other.
pub fn vertex_words_of(vertices: &Vec<Vertex>) -> (words: Vec<u32>)
    requires
        6 * vertices.len() <= usize::MAX,
    ensures
        words@ == words_of(vertices@),
{
    let mut words: Vec<u32> = Vec::new();
    let mut i: usize = 0;
    while i < vertices.len()
        invariant
            i <= vertices.len(),
            words@ == words_of(vertices@.subrange(0, i as int)),
        decreases vertices.len() - i,
    {
        let v = vertices[i];
        words.push(v.position.x);
        words.push(v.position.y);
        words.push(v.position.z);
        words.push(v.color.r);
        words.push(v.color.g);
        words.push(v.color.b);
        proof {
            let next = vertices@.subrange(0, i + 1);
            assert(next.drop_last() =~= vertices@.subrange(0, i as int));
            assert(next.last() == v);
        }
        i = i + 1;
    }
    assert(vertices@.subrange(0, vertices.len() as int) =~= vertices@);
    words
}

/// The bytes of the vertices as a vertex buffer holds them: each vertex's
/// six components in order, four bytes each, in the machine's byte order.
pub fn as_u8_slice(vertices: &Vec<Vertex>) -> (bytes: Vec<u8>)
    requires
        VERTEX_SIZE * vertices.len() <= usize::MAX,
    ensures
        bytes.len() == VERTEX_SIZE * vertices.len(),
        encodes(words_of(vertices@), bytes@, true) || encodes(words_of(vertices@), bytes@, false),
{
    proof {
        lemma_words_of(vertices@);
    }
    let words = vertex_words_of(vertices);
    words_as_bytes(words.as_slice())
}

/// The triangle the renderer starts from: red at the top, green bottom
/// left, blue bottom right.
pub open spec fn triangle_spec() -> Seq<Vertex> {
    seq![
        vertex_of(ZERO_BITS, HALF_BITS, ZERO_BITS, ONE_BITS, ZERO_BITS, ZERO_BITS),
        vertex_of(MINUS_HALF_BITS, MINUS_HALF_BITS, ZERO_BITS, ZERO_BITS, ONE_BITS, ZERO_BITS),
        vertex_of(HALF_BITS, MINUS_HALF_BITS, ZERO_BITS, ZERO_BITS, ZERO_BITS, ONE_BITS),
    ]
}

/// A square of side one centred on the origin, as two triangles with
/// red, green and blue corners each.
pub open spec fn quad_spec() -> Seq<Vertex> {
    seq![
        vertex_of(MINUS_HALF_BITS, HALF_BITS, ZERO_BITS, ONE_BITS, ZERO_BITS, ZERO_BITS),
        vertex_of(MINUS_HALF_BITS, MINUS_HALF_BITS, ZERO_BITS, ZERO_BITS, ONE_BITS, ZERO_BITS),
        vertex_of(HALF_BITS, HALF_BITS, ZERO_BITS, ZERO_BITS, ZERO_BITS, ONE_BITS),
        vertex_of(MINUS_HALF_BITS, MINUS_HALF_BITS, ZERO_BITS, ONE_BITS, ZERO_BITS, ZERO_BITS),
        vertex_of(HALF_BITS, MINUS_HALF_BITS, ZERO_BITS, ZERO_BITS, ONE_BITS, ZERO_BITS),
        vertex_of(HALF_BITS, HALF_BITS, ZERO_BITS, ZERO_BITS, ZERO_BITS, ONE_BITS),
    ]
}

/// The vertices of the triangle mesh.
pub fn triangle_vertices() -> (vertices: Vec<Vertex>)
    ensures
        vertices@ == triangle_spec(),
{
    let mut vertices: Vec<Vertex> = Vec::new();
    vertices.push(Vertex::from(ZERO_BITS, HALF_BITS, ZERO_BITS, ONE_BITS, ZERO_BITS, ZERO_BITS));
    vertices.push(Vertex::from(MINUS_HALF_BITS, MINUS_HALF_BITS, ZERO_BITS, ZERO_BITS, ONE_BITS, ZERO_BITS));
    vertices.push(Vertex::from(HALF_BITS, MINUS_HALF_BITS, ZERO_BITS, ZERO_BITS, ZERO_BITS, ONE_BITS));
    assert(vertices@ =~= triangle_spec());
    vertices
}

/// The vertices of the quad mesh.
pub fn quad_vertices() -> (vertices: Vec<Vertex>)
    ensures
        vertices@ == quad_spec(),
{
    let mut vertices: Vec<Vertex> = Vec::new();
    vertices.push(Vertex::from(MINUS_HALF_BITS, HALF_BITS, ZERO_BITS, ONE_BITS, ZERO_BITS, ZERO_BITS));
    vertices.push(Vertex::from(MINUS_HALF_BITS, MINUS_HALF_BITS, ZERO_BITS, ZERO_BITS, ONE_BITS, ZERO_BITS));
    vertices.push(Vertex::from(HALF_BITS, HALF_BITS, ZERO_BITS, ZERO_BITS, ZERO_BITS, ONE_BITS));
    vertices.push(Vertex::from(MINUS_HALF_BITS, MINUS_HALF_BITS, ZERO_BITS, ONE_BITS, ZERO_BITS, ZERO_BITS));
    vertices.push(Vertex::from(HALF_BITS, MINUS_HALF_BITS, ZERO_BITS, ZERO_BITS, ONE_BITS, ZERO_BITS));
    vertices.push(Vertex::from(HALF_BITS, HALF_BITS, ZERO_BITS, ZERO_BITS, ZERO_BITS, ONE_BITS));
    assert(vertices@ =~= quad_spec());
    vertices
}

/// The initial contents of a vertex buffer with room for the given number of
/// triangles: three vertices per triangle, all at the origin and black.
pub fn buffer_vertices(number_of_triangles: usize) -> (vertices: Vec<Vertex>)
    requires
        number_of_triangles * 3 * VERTEX_SIZE <= isize::MAX,
    ensures
        vertices.len() == 3 * number_of_triangles,
        forall|i: int| 0 <= i < vertices.len() ==> vertices[i] == zero_vertex(),
{
    let count = number_of_triangles * 3;
    let mut vertices: Vec<Vertex> = Vec::new();
    let mut i: usize = 0;
    while i < count
        invariant
            i <= count,
            vertices.len() == i,
            forall|j: int| 0 <= j < i ==> vertices[j] == zero_vertex(),
        decreases count - i,
    {
        vertices.push(Vertex::new());
        i = i + 1;
    }
    vertices
}

} // verus!
