//! The triangle's vertex and index data, the vertex input layout, and the byte
//! images that are uploaded to the device.
//!
//! Floating-point components are carried as IEEE-754 bit patterns, so every
//! value in this module is an integer and every contract is exact.

use vstd::prelude::*;
use vstd::slice::slice_to_vec;

verus! {

/// Bit pattern of the single-precision number `0.0`.
pub const BITS_ZERO: u32 = 0x0000_0000;

/// Bit pattern of the single-precision number `0.5`.
pub const BITS_HALF: u32 = 0x3F00_0000;

/// Bit pattern of the single-precision number `-0.5`.
pub const BITS_NEG_HALF: u32 = 0xBF00_0000;

/// Bit pattern of the single-precision number `1.0`.
pub const BITS_ONE: u32 = 0x3F80_0000;

/// Three single-precision components, each held as its IEEE-754 bit pattern.
#[derive(Clone, Copy, Debug, PartialEq, Eq, Structural)]
pub struct Float3 {
    pub x: u32,
    pub y: u32,
    pub z: u32,
}

/// One vertex record: a position followed by a colour, six words with no padding.
#[derive(Clone, Copy, Debug, PartialEq, Eq, Structural)]
pub struct Vertex {
    pub position: Float3,
    pub color: Float3,
}

/// Format of one vertex attribute: a vector of 32-bit floats.
#[derive(Clone, Copy, Debug, PartialEq, Eq, Structural)]
pub enum VertexFormat {
    Float,
    Float2,
    Float3,
    Float4,
}

/// Whether a vertex buffer advances per vertex or per instance.
#[derive(Clone, Copy, Debug, PartialEq, Eq, Structural)]
pub enum InputStepMode {
    Vertex,
    Instance,
}

/// One attribute of a vertex buffer: where it starts inside a record, which
/// shader input it feeds, and its format.
#[derive(Clone, Copy, Debug, PartialEq, Eq, Structural)]
pub struct VertexAttribute {
    pub offset: u64,
    pub shader_location: u32,
    pub format: VertexFormat,
}

/// Layout of one vertex buffer.
#[derive(Debug, PartialEq, Eq)]
pub struct VertexLayout {
    pub stride: u64,
    pub step_mode: InputStepMode,
    pub attributes: Vec<VertexAttribute>,
}

/// Byte order of a machine.
#[derive(Clone, Copy, Debug, PartialEq, Eq, Structural)]
pub enum ByteOrder {
    Little,
    Big,
}

impl VertexFormat {
    /// Number of components of the format.
    pub open spec fn components(self) -> nat {
        match self {
            VertexFormat::Float => 1,
            VertexFormat::Float2 => 2,
            VertexFormat::Float3 => 3,
            VertexFormat::Float4 => 4,
        }
    }

    /// Number of bytes that one attribute of this format occupies.
    pub open spec fn byte_size(self) -> nat {
        4 * self.components()
    }

    /// Number of bytes that one attribute of this format occupies.
    pub fn size(self) -> (bytes: u64)
        ensures
            bytes == self.byte_size(),
    {
        match self {
            VertexFormat::Float => 4,
            VertexFormat::Float2 => 8,
            VertexFormat::Float3 => 12,
            VertexFormat::Float4 => 16,
        }
    }
}

impl VertexLayout {
    /// The attributes follow one another from offset 0 without gaps, and the
    /// stride is where the last one ends.
    pub open spec fn is_packed(self) -> bool {
        let a = self.attributes@;
        &&& a.len() > 0
        &&& a[0].offset == 0
        &&& forall|i: int|
            0 < i < a.len() ==> #[trigger] a[i].offset == a[i - 1].offset + a[i - 1].format.byte_size()
        &&& self.stride == a.last().offset + a.last().format.byte_size()
    }

    /// This is the layout of the vertex record: 24 bytes per vertex, the
    /// position at offset 0 for shader input 0 and the colour at offset 12 for
    /// shader input 1, both vectors of three floats.
    pub open spec fn is_vertex_desc(self) -> bool {
        &&& self.stride == Vertex::byte_size()
        &&& self.step_mode == InputStepMode::Vertex
        &&& self.attributes@ == seq![Vertex::position_attribute(), Vertex::color_attribute()]
    }

    /// Every attribute feeds the shader input of its own index.
    pub open spec fn locations_in_order(self) -> bool {
        forall|i: int|
            0 <= i < self.attributes@.len() ==> (#[trigger] self.attributes@[i]).shader_location == i
    }
}

impl Vertex {
    /// The six words of the record, position first.
    pub open spec fn words(self) -> Seq<u32> {
        seq![
            self.position.x,
            self.position.y,
            self.position.z,
            self.color.x,
            self.color.y,
            self.color.z,
        ]
    }

    /// The position attribute: shader input 0 at the start of the record.
    pub open spec fn position_attribute() -> VertexAttribute {
        VertexAttribute { offset: 0, shader_location: 0, format: VertexFormat::Float3 }
    }

    /// The colour attribute: shader input 1, right behind the position.
    pub open spec fn color_attribute() -> VertexAttribute {
        VertexAttribute { offset: 12, shader_location: 1, format: VertexFormat::Float3 }
    }

    /// Size of one record in bytes.
    pub open spec fn byte_size() -> nat {
        24
    }

    /// The vertex buffer layout of this record: two three-component float
    /// attributes, position at offset 0 and colour at offset 12, stepping per
    /// vertex with a stride of 24 bytes.
    pub fn desc() -> (layout: VertexLayout)
        ensures
            layout.is_vertex_desc(),
            layout.is_packed(),
            layout.locations_in_order(),
    {
        let position_format = VertexFormat::Float3;
        let color_format = VertexFormat::Float3;
        let color_offset: u64 = position_format.size();
        let stride: u64 = color_offset + color_format.size();
        let mut attributes: Vec<VertexAttribute> = Vec::new();
        attributes.push(VertexAttribute { offset: 0, shader_location: 0, format: position_format });
        attributes.push(
            VertexAttribute { offset: color_offset, shader_location: 1, format: color_format },
        );
        assert(attributes@ =~= seq![Vertex::position_attribute(), Vertex::color_attribute()]);
        VertexLayout { stride, step_mode: InputStepMode::Vertex, attributes }
    }
}

/// The three corners of the triangle: top in red, bottom left in green,
/// bottom right in blue.
pub open spec fn triangle_vertices() -> Seq<Vertex> {
    seq![
        Vertex {
            position: Float3 { x: BITS_ZERO, y: BITS_HALF, z: BITS_ZERO },
            color: Float3 { x: BITS_ONE, y: BITS_ZERO, z: BITS_ZERO },
        },
        Vertex {
            position: Float3 { x: BITS_NEG_HALF, y: BITS_NEG_HALF, z: BITS_ZERO },
            color: Float3 { x: BITS_ZERO, y: BITS_ONE, z: BITS_ZERO },
        },
        Vertex {
            position: Float3 { x: BITS_HALF, y: BITS_NEG_HALF, z: BITS_ZERO },
            color: Float3 { x: BITS_ZERO, y: BITS_ZERO, z: BITS_ONE },
        },
    ]
}

/// The triangle's index list: each corner once, in counter-clockwise order.
pub open spec fn triangle_indices() -> Seq<u16> {
    seq![0u16, 1u16, 2u16]
}

/// The words of a vertex list, record after record.
pub open spec fn flatten(vertices: Seq<Vertex>) -> Seq<u32> {
    Seq::new(6 * vertices.len(), |i: int| vertices[i / 6].words()[i % 6])
}

/// The weight of byte `k` of an integer, counted from the least significant.
pub open spec fn place(k: int) -> int {
    if k <= 0 {
        1
    } else if k == 1 {
        0x100
    } else if k == 2 {
        0x1_0000
    } else {
        0x100_0000
    }
}

/// Byte `k` (0 to 3) of a word as the given byte order stores it.
pub open spec fn word_byte(word: u32, k: int, order: ByteOrder) -> u8 {
    match order {
        ByteOrder::Little => ((word as int / place(k)) % 256) as u8,
        ByteOrder::Big => ((word as int / place(3 - k)) % 256) as u8,
    }
}

/// Byte `k` (0 or 1) of a 16-bit item as the given byte order stores it.
pub open spec fn half_byte(item: u16, k: int, order: ByteOrder) -> u8 {
    match order {
        ByteOrder::Little => ((item as int / place(k)) % 256) as u8,
        ByteOrder::Big => ((item as int / place(1 - k)) % 256) as u8,
    }
}

/// The bytes of a list of words in the given byte order, four per word.
pub open spec fn words_as_bytes(words: Seq<u32>, order: ByteOrder) -> Seq<u8> {
    Seq::new(4 * words.len(), |i: int| word_byte(words[i / 4], i % 4, order))
}

/// The bytes of a list of 16-bit items in the given byte order, two per item.
pub open spec fn halves_as_bytes(items: Seq<u16>, order: ByteOrder) -> Seq<u8> {
    Seq::new(2 * items.len(), |i: int| half_byte(items[i / 2], i % 2, order))
}

/// `bytes` is the memory image of `words` on a little-endian or on a
/// big-endian machine.
pub open spec fn is_image_of_words(bytes: Seq<u8>, words: Seq<u32>) -> bool {
    bytes == words_as_bytes(words, ByteOrder::Little) || bytes == words_as_bytes(
        words,
        ByteOrder::Big,
    )
}

/// `bytes` is the memory image of `items` on a little-endian or on a
/// big-endian machine.
pub open spec fn is_image_of_halves(bytes: Seq<u8>, items: Seq<u16>) -> bool {
    bytes == halves_as_bytes(items, ByteOrder::Little) || bytes == halves_as_bytes(
        items,
        ByteOrder::Big,
    )
}

/// Calls `bytemuck::cast_slice` from `u32` to `u8`. The cast reinterprets the
/// words' memory, so the result holds four bytes per word in the byte order of
/// the machine, which is little-endian or big-endian. It cannot fail: `u8` has
/// alignment 1 and any byte count is a multiple of its size.
#[verifier::external_body]
fn cast_words(words: &[u32]) -> (bytes: &[u8])
    ensures
        is_image_of_words(bytes@, words@),
{
    bytemuck::cast_slice(words)
}

/// Calls `bytemuck::cast_slice` from `u16` to `u8`. The cast reinterprets the
/// items' memory, so the result holds two bytes per item in the byte order of
/// the machine, which is little-endian or big-endian. It cannot fail: `u8` has
/// alignment 1 and any byte count is a multiple of its size.
#[verifier::external_body]
fn cast_halves(items: &[u16]) -> (bytes: &[u8])
    ensures
        is_image_of_halves(bytes@, items@),
{
    bytemuck::cast_slice(items)
}

/// The triangle's vertices.
pub fn vertices() -> (list: Vec<Vertex>)
    ensures
        list@ == triangle_vertices(),
{
    let mut list: Vec<Vertex> = Vec::new();
    list.push(
        Vertex {
            position: Float3 { x: BITS_ZERO, y: BITS_HALF, z: BITS_ZERO },
            color: Float3 { x: BITS_ONE, y: BITS_ZERO, z: BITS_ZERO },
        },
    );
    list.push(
        Vertex {
            position: Float3 { x: BITS_NEG_HALF, y: BITS_NEG_HALF, z: BITS_ZERO },
            color: Float3 { x: BITS_ZERO, y: BITS_ONE, z: BITS_ZERO },
        },
    );
    list.push(
        Vertex {
            position: Float3 { x: BITS_HALF, y: BITS_NEG_HALF, z: BITS_ZERO },
            color: Float3 { x: BITS_ZERO, y: BITS_ZERO, z: BITS_ONE },
        },
    );
    assert(list@ =~= triangle_vertices());
    list
}

/// The triangle's indices.
pub fn indices() -> (list: Vec<u16>)
    ensures
        list@ == triangle_indices(),
{
    let mut list: Vec<u16> = Vec::new();
    list.push(0);
    list.push(1);
    list.push(2);
    assert(list@ =~= triangle_indices());
    list
}

/// The words of a vertex list, record after record, position before colour.
pub fn vertex_words(vertices: &Vec<Vertex>) -> (words: Vec<u32>)
    ensures
        words@ == flatten(vertices@),
{
    let mut words: Vec<u32> = Vec::new();
    let mut i: usize = 0;
    while i < vertices.len()
        invariant
            i <= vertices@.len(),
            words@ == flatten(vertices@.take(i as int)),
        decreases vertices@.len() - i,
    {
        let v = vertices[i];
        let ghost before = words@;
        words.push(v.position.x);
        words.push(v.position.y);
        words.push(v.position.z);
        words.push(v.color.x);
        words.push(v.color.y);
        words.push(v.color.z);
        proof {
            let prefix = vertices@.take(i as int);
            let longer = vertices@.take(i + 1);
            assert(words@.len() == 6 * (i + 1));
            assert forall|k: int| 0 <= k < 6 * (i + 1) implies words@[k] == flatten(longer)[k] by {
                if k < 6 * i {
                    assert(words@[k] == before[k]);
                    assert(before[k] == prefix[k / 6].words()[k % 6]);
                    assert(prefix[k / 6] == longer[k / 6]);
                } else {
                    assert(k / 6 == i);
                    assert(longer[k / 6] == v);
                }
            }
            assert(words@ =~= flatten(longer));
        }
        i = i + 1;
    }
    assert(vertices@.take(i as int) =~= vertices@);
    words
}

/// The byte image of the triangle's vertices as it is uploaded: 24 bytes per
/// vertex in the machine's byte order.
pub fn vertex_bytes() -> (bytes: Vec<u8>)
    ensures
        is_image_of_words(bytes@, flatten(triangle_vertices())),
        bytes@.len() == Vertex::byte_size() * triangle_vertices().len(),
{
    let list = vertices();
    let words = vertex_words(&list);
    let image = cast_words(words.as_slice());
    slice_to_vec(image)
}

/// The byte image of the triangle's indices as it is uploaded: two bytes per
/// index in the machine's byte order.
pub fn index_bytes() -> (bytes: Vec<u8>)
    ensures
        is_image_of_halves(bytes@, triangle_indices()),
        bytes@.len() == 2 * triangle_indices().len(),
{
    let list = indices();
    let image = cast_halves(list.as_slice());
    slice_to_vec(image)
}

} // verus!
