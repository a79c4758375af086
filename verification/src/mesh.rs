//! Meshes: vertex records, their layout in a vertex buffer, and how a mesh
//! is put together from what a model loader hands over.
//!
//! Every coordinate is a 32-bit float on the device. Here it is carried as
//! its 32 bits: the engine moves coordinates about and never computes on
//! them.

use vstd::prelude::*;
use crate::buffer::{create_buffer, AllocatedBuffer, BufferPlan, BufferUsage, MemoryUsage};
use crate::device::FORMAT_R32G32B32_SFLOAT;

verus! {

/// Bytes from one vertex record to the next in a vertex buffer.
pub const VERTEX_STRIDE: u32 = 36;

/// Bytes of the block of push constants: one 4x4 matrix of floats.
pub const PUSH_CONSTANT_BYTES: u32 = 64;

/// One vertex: position, normal and colour, three coordinates each.
#[derive(Clone, Copy, Debug, PartialEq, Eq)]
pub struct Vertex {
    pub pos: [u32; 3],
    pub normal: [u32; 3],
    pub color: [u32; 3],
}

/// A 4x4 matrix of floats, column after column.
#[derive(Clone, Copy, Debug, PartialEq, Eq)]
pub struct Transform {
    pub columns: [u32; 16],
}

/// What is pushed to the vertex stage for each draw: the matrix that takes
/// a vertex from the mesh's own space to clip space.
#[allow(non_camel_case_types)]
#[derive(Clone, Copy, Debug, PartialEq, Eq)]
pub struct push_mesh_constants {
    pub render_matrix: Transform,
}

/// How often the vertex stage steps to the next record of a binding.
#[derive(Clone, Copy, Debug, PartialEq, Eq, Structural)]
pub enum InputRate {
    Vertex,
    Instance,
}

/// One vertex buffer binding of a pipeline.
#[derive(Clone, Copy, Debug, PartialEq, Eq, Structural)]
pub struct VertexBinding {
    pub binding: u32,
    pub stride: u32,
    pub input_rate: InputRate,
}

/// One attribute that the vertex stage reads from a binding.
#[derive(Clone, Copy, Debug, PartialEq, Eq, Structural)]
pub struct VertexAttribute {
    pub binding: u32,
    pub location: u32,
    pub format: i32,
    pub offset: u32,
}

/// The vertex input layout of every pipeline of the engine.
#[derive(Debug)]
pub struct VertexDesc {
    pub attributes: Vec<VertexAttribute>,
    pub bindings: Vec<VertexBinding>,
}

/// The attribute at a location: three floats, read from binding 0 at
/// twelve bytes per location.
pub open spec fn attribute_at(location: u32) -> VertexAttribute {
    VertexAttribute {
        binding: 0,
        location,
        format: FORMAT_R32G32B32_SFLOAT,
        offset: (12 * location) as u32,
    }
}

impl VertexDesc {
    /// One binding that steps per vertex over whole records, and the
    /// position, normal and colour at locations 0, 1 and 2.
    pub fn new() -> (desc: Self)
        ensures
            desc.bindings@ == seq![
                VertexBinding { binding: 0, stride: VERTEX_STRIDE, input_rate: InputRate::Vertex },
            ],
            desc.attributes@ == seq![attribute_at(0), attribute_at(1), attribute_at(2)],
    {
        let mut bindings: Vec<VertexBinding> = Vec::new();
        bindings.push(
            VertexBinding { binding: 0, stride: VERTEX_STRIDE, input_rate: InputRate::Vertex },
        );
        let mut attributes: Vec<VertexAttribute> = Vec::new();
        let mut location: u32 = 0;
        while location < 3
            invariant
                location <= 3,
                attributes@.len() == location,
                forall|k: int| 0 <= k < location ==> attributes@[k] == attribute_at(k as u32),
            decreases 3 - location,
        {
            attributes.push(
                VertexAttribute {
                    binding: 0,
                    location,
                    format: FORMAT_R32G32B32_SFLOAT,
                    offset: 12 * location,
                },
            );
            location = location + 1;
        }
        proof {
            assert(bindings@ =~= seq![
                VertexBinding { binding: 0, stride: VERTEX_STRIDE, input_rate: InputRate::Vertex },
            ]);
            assert(attributes@ =~= seq![attribute_at(0), attribute_at(1), attribute_at(2)]);
        }
        VertexDesc { attributes, bindings }
    }
}

/// The attributes of a layout lie one after another inside a record.
pub proof fn attributes_fit_the_record(location: u32)
    requires
        location < 3,
    ensures
        attribute_at(location).offset + 12 <= VERTEX_STRIDE,
        location > 0 ==> attribute_at(location).offset == attribute_at(
            (location - 1) as u32,
        ).offset + 12,
{
}

/// Three coordinates starting at `3 * index` in a flat list.
pub open spec fn triple_at(flat: Seq<u32>, index: int) -> [u32; 3] {
    [flat[3 * index], flat[3 * index + 1], flat[3 * index + 2]]
}

/// An index can be looked up in the model: its position is there, and its
/// normal where the model has normals at all.
pub open spec fn index_in_range(index: u32, positions: Seq<u32>, normals: Seq<u32>) -> bool {
    &&& 3 * index + 2 < positions.len()
    &&& normals.len() > 0 ==> 3 * index + 2 < normals.len()
}

/// The vertex that an index stands for. A model without normals gives
/// zero normals; the colour of a vertex is its normal.
pub open spec fn vertex_of(index: u32, positions: Seq<u32>, normals: Seq<u32>) -> Vertex {
    let normal = if normals.len() > 0 {
        triple_at(normals, index as int)
    } else {
        [0u32, 0u32, 0u32]
    };
    Vertex { pos: triple_at(positions, index as int), normal, color: normal }
}

fn read_triple(flat: &Vec<u32>, index: u32) -> (triple: [u32; 3])
    requires
        3 * index + 2 < flat@.len(),
    ensures
        triple == triple_at(flat@, index as int),
{
    let length = flat.len();
    assert(3 * index + 2 < length);
    let base: usize = 3 * (index as usize);
    let triple = [flat[base], flat[base + 1], flat[base + 2]];
    proof {
        assert(triple@ =~= triple_at(flat@, index as int)@);
    }
    triple
}

fn triple_readable(flat: &Vec<u32>, index: u32) -> (readable: bool)
    ensures
        readable == (3 * index + 2 < flat@.len()),
{
    let last: u64 = 3 * (index as u64) + 2;
    last < flat.len() as u64
}

/// Turns an indexed model into the list of its vertices, one per index and
/// in the order of the indices. Gives nothing where an index points outside
/// the model.
pub fn load(indices: &Vec<u32>, positions: &Vec<u32>, normals: &Vec<u32>) -> (vertices: Option<
    Vec<Vertex>,
>)
    ensures
        vertices is Some <==> forall|k: int|
            0 <= k < indices@.len() ==> index_in_range(
                #[trigger] indices@[k],
                positions@,
                normals@,
            ),
        vertices is Some ==> {
            let v = vertices->Some_0;
            &&& v@.len() == indices@.len()
            &&& forall|k: int|
                0 <= k < indices@.len() ==> #[trigger] v@[k] == vertex_of(
                    indices@[k],
                    positions@,
                    normals@,
                )
        },
{
    let mut vertices: Vec<Vertex> = Vec::new();
    let mut k: usize = 0;
    while k < indices.len()
        invariant
            k <= indices@.len(),
            vertices@.len() == k,
            forall|j: int|
                0 <= j < k ==> index_in_range(#[trigger] indices@[j], positions@, normals@),
            forall|j: int|
                0 <= j < k ==> #[trigger] vertices@[j] == vertex_of(
                    indices@[j],
                    positions@,
                    normals@,
                ),
        decreases indices@.len() - k,
    {
        let index = indices[k];
        if !triple_readable(positions, index) {
            return None;
        }
        let pos = read_triple(positions, index);
        let normal = if normals.len() > 0 {
            if !triple_readable(normals, index) {
                return None;
            }
            read_triple(normals, index)
        } else {
            [0u32, 0u32, 0u32]
        };
        vertices.push(Vertex { pos, normal, color: normal });
        k = k + 1;
    }
    Some(vertices)
}

/// Word `k` of a vertex record: the position comes first, then the
/// normal, then the colour.
pub open spec fn vertex_word(vertex: Vertex, k: int) -> u32 {
    if k < 3 {
        vertex.pos[k]
    } else if k < 6 {
        vertex.normal[k - 3]
    } else {
        vertex.color[k - 6]
    }
}

/// The words of a list of vertices as they lie in a vertex buffer: record
/// after record.
pub open spec fn vertex_words(vertices: Seq<Vertex>) -> Seq<u32> {
    Seq::new(9 * vertices.len(), |i: int| vertex_word(vertices[i / 9], i % 9))
}

/// One of the four bytes of a word, the lowest being byte 0.
pub open spec fn word_byte(word: u32, k: int) -> u8 {
    if k == 0 {
        (word & 0xff) as u8
    } else if k == 1 {
        ((word >> 8) & 0xff) as u8
    } else if k == 2 {
        ((word >> 16) & 0xff) as u8
    } else {
        ((word >> 24) & 0xff) as u8
    }
}

/// `bytes` holds the words in order, each with its lowest byte first.
pub open spec fn little_endian(words: Seq<u32>, bytes: Seq<u8>) -> bool {
    &&& bytes.len() == 4 * words.len()
    &&& forall|i: int| 0 <= i < bytes.len() ==> #[trigger] bytes[i] == word_byte(words[i / 4], i % 4)
}

/// `bytes` holds the words in order, each with its highest byte first.
pub open spec fn big_endian(words: Seq<u32>, bytes: Seq<u8>) -> bool {
    &&& bytes.len() == 4 * words.len()
    &&& forall|i: int|
        0 <= i < bytes.len() ==> #[trigger] bytes[i] == word_byte(words[i / 4], 3 - i % 4)
}

/// Calls `bytemuck::cast_slice` from 32-bit words to bytes, which views the
/// same memory as four times as many bytes, and copies what it shows. The
/// bytes of a word come in the order of the machine, which is the same for
/// every word: lowest first or highest first.
#[verifier::external_body]
fn words_as_bytes(words: &Vec<u32>) -> (bytes: Vec<u8>)
    ensures
        little_endian(words@, bytes@) || big_endian(words@, bytes@),
{
    bytemuck::cast_slice::<u32, u8>(words.as_slice()).to_vec()
}

/// Lays the vertices out as words, as they lie in a vertex buffer.
pub fn flatten(vertices: &Vec<Vertex>) -> (words: Vec<u32>)
    ensures
        words@ == vertex_words(vertices@),
{
    let mut words: Vec<u32> = Vec::new();
    let mut i: usize = 0;
    while i < vertices.len()
        invariant
            i <= vertices@.len(),
            words@.len() == 9 * i,
            forall|j: int|
                0 <= j < words@.len() ==> #[trigger] words@[j] == vertex_word(
                    vertices@[j / 9],
                    j % 9,
                ),
        decreases vertices@.len() - i,
    {
        let vertex = vertices[i];
        let ghost before = words@;
        words.push(vertex.pos[0]);
        words.push(vertex.pos[1]);
        words.push(vertex.pos[2]);
        words.push(vertex.normal[0]);
        words.push(vertex.normal[1]);
        words.push(vertex.normal[2]);
        words.push(vertex.color[0]);
        words.push(vertex.color[1]);
        words.push(vertex.color[2]);
        proof {
            assert forall|j: int| 0 <= j < words@.len() implies #[trigger] words@[j]
                == vertex_word(vertices@[j / 9], j % 9) by {
                if j < 9 * i {
                    assert(words@[j] == before[j]);
                } else {
                    assert(j / 9 == i as int);
                }
            }
        }
        i = i + 1;
    }
    proof {
        assert(words@ =~= vertex_words(vertices@));
    }
    words
}

/// The bytes to upload for a list of vertices: 36 for each, in the
/// machine's byte order.
pub fn vertex_data(vertices: &Vec<Vertex>) -> (bytes: Vec<u8>)
    ensures
        bytes@.len() == 36 * vertices@.len(),
        little_endian(vertex_words(vertices@), bytes@) || big_endian(
            vertex_words(vertices@),
            bytes@,
        ),
{
    let words = flatten(vertices);
    words_as_bytes(&words)
}

/// A mesh: its vertices, and the vertex buffer they were uploaded to.
#[derive(Debug)]
pub struct Mesh<A> {
    pub vertices: Vec<Vertex>,
    pub vertex_buffer: AllocatedBuffer<A>,
}

impl<A> Mesh<A> {
    /// Plans the vertex buffer for data of this many bytes: memory that the
    /// host can write, of exactly that size.
    pub fn upload_plan(data: &Vec<u8>) -> (plan: BufferPlan)
        ensures
            plan == vertex_buffer_plan(data@.len() as u64),
    {
        create_buffer(data.len() as u64, BufferUsage::VertexBuffer, MemoryUsage::HostAccess)
    }

    /// A mesh of these vertices, which lie in this buffer.
    pub fn new(vertices: Vec<Vertex>, vertex_buffer: AllocatedBuffer<A>) -> (mesh: Self)
        ensures
            mesh.vertices == vertices,
            mesh.vertex_buffer == vertex_buffer,
    {
        Mesh { vertices, vertex_buffer }
    }

    /// Whether one draw can cover the mesh: the device counts vertices in
    /// 32 bits.
    pub open spec fn drawable(self) -> bool {
        self.vertices@.len() <= u32::MAX
    }
}

/// The plan of a vertex buffer of `size` bytes.
pub open spec fn vertex_buffer_plan(size: u64) -> BufferPlan {
    BufferPlan {
        request: crate::buffer::AllocationRequest {
            size,
            align_mask: 1,
            usage: MemoryUsage::HostAccess,
            memory_types: 0xffff_ffff,
        },
        info: crate::buffer::BufferInfo { size, usage: BufferUsage::VertexBuffer },
        bind_offset: 0,
    }
}

} // verus!
