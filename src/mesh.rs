//! Index data of triangle meshes: bounds checking against the vertex count,
//! the element count of an indexed draw, and the bytes of the index buffer.

use vstd::prelude::*;

verus! {

/// Every index names one of `vertex_count` vertices.
pub open spec fn indices_in_bounds(indices: Seq<u16>, vertex_count: nat) -> bool {
    forall|i: int| 0 <= i < indices.len() ==> (#[trigger] indices[i]) < vertex_count
}

/// `bytes` holds each value as two bytes, low byte first.
pub open spec fn little_endian_pairs(bytes: Seq<u8>, values: Seq<u16>) -> bool {
    &&& bytes.len() == 2 * values.len()
    &&& forall|i: int|
        0 <= i < values.len() ==> #[trigger] values[i] == bytes[2 * i] + 256 * bytes[2 * i + 1]
}

/// `bytes` holds each value as two bytes, high byte first.
pub open spec fn big_endian_pairs(bytes: Seq<u8>, values: Seq<u16>) -> bool {
    &&& bytes.len() == 2 * values.len()
    &&& forall|i: int|
        0 <= i < values.len() ==> #[trigger] values[i] == 256 * bytes[2 * i] + bytes[2 * i + 1]
}

/// The index data of a mesh, ready to be written to an index buffer and drawn.
pub struct IndexUpload {
    /// The indices as 16-bit values in the machine's byte order.
    pub bytes: Vec<u8>,
    /// The number of elements of the indexed draw.
    pub count: u32,
}

#[derive(Clone, Copy, Debug, PartialEq, Eq, Structural)]
pub enum MeshError {
    /// The index at `position` names no vertex.
    IndexOutOfBounds { position: usize, index: u16 },
    /// More indices than one draw call can cover.
    TooManyIndices,
}

/// The position of the first index that names no vertex, if there is one.
pub fn first_out_of_bounds(indices: &Vec<u16>, vertex_count: usize) -> (position: Option<usize>)
    ensures
        position is None <==> indices_in_bounds(indices@, vertex_count as nat),
        position matches Some(p) ==> {
            &&& p < indices@.len()
            &&& indices@[p as int] >= vertex_count
            &&& indices_in_bounds(indices@.take(p as int), vertex_count as nat)
        },
{
    let mut i: usize = 0;
    while i < indices.len()
        invariant
            i <= indices@.len(),
            indices_in_bounds(indices@.take(i as int), vertex_count as nat),
        decreases indices@.len() - i,
    {
        if indices[i] as usize >= vertex_count {
            assert(!indices_in_bounds(indices@, vertex_count as nat));
            return Some(i);
        }
        assert(indices@.take(i as int + 1) =~= indices@.take(i as int).push(indices@[i as int]));
        i += 1;
    }
    assert(indices@.take(i as int) =~= indices@);
    None
}

/// The element count of an indexed draw over all of `indices`, when it fits
/// in 32 bits.
pub fn draw_count(indices: &Vec<u16>) -> (count: Option<u32>)
    ensures
        count == (if indices@.len() <= u32::MAX {
            Some(indices@.len() as u32)
        } else {
            None::<u32>
        }),
{
    if indices.len() <= u32::MAX as usize {
        Some(indices.len() as u32)
    } else {
        None
    }
}

/// Relies on `bytemuck::cast_slice::<u16, u8>`: it views the slice's memory as
/// bytes, two per value in the machine's byte order, and never fails for this
/// pair of types.
#[verifier::external_body]
fn native_bytes(values: &[u16]) -> (bytes: Vec<u8>)
    ensures
        little_endian_pairs(bytes@, values@) || big_endian_pairs(bytes@, values@),
{
    bytemuck::cast_slice::<u16, u8>(values).to_vec()
}

/// The bytes of an index buffer holding `indices`: two per index, all in the
/// machine's byte order (low byte first on the little-endian targets the
/// buffer layout is defined for).
pub fn index_bytes(indices: &Vec<u16>) -> (bytes: Vec<u8>)
    ensures
        bytes@.len() == 2 * indices@.len(),
        little_endian_pairs(bytes@, indices@) || big_endian_pairs(bytes@, indices@),
{
    native_bytes(indices.as_slice())
}

/// Checks `indices` against the vertex count and prepares them for drawing.
/// Fails on the first index that names no vertex, then when the draw count
/// does not fit in 32 bits.
pub fn index_upload(indices: &Vec<u16>, vertex_count: usize) -> (upload: Result<
    IndexUpload,
    MeshError,
>)
    ensures
        upload is Ok <==> indices_in_bounds(indices@, vertex_count as nat) && indices@.len()
            <= u32::MAX,
        upload matches Ok(u) ==> {
            &&& u.count == indices@.len()
            &&& little_endian_pairs(u.bytes@, indices@) || big_endian_pairs(u.bytes@, indices@)
        },
        upload matches Err(MeshError::IndexOutOfBounds { position, index }) ==> {
            &&& position < indices@.len()
            &&& index == indices@[position as int]
            &&& index >= vertex_count
            &&& indices_in_bounds(indices@.take(position as int), vertex_count as nat)
        },
        upload matches Err(MeshError::TooManyIndices) ==> {
            &&& indices_in_bounds(indices@, vertex_count as nat)
            &&& indices@.len() > u32::MAX
        },
{
    match first_out_of_bounds(indices, vertex_count) {
        Some(position) => Err(MeshError::IndexOutOfBounds { position, index: indices[position] }),
        None => match draw_count(indices) {
            Some(count) => Ok(IndexUpload { bytes: index_bytes(indices), count }),
            None => Err(MeshError::TooManyIndices),
        },
    }
}

} // verus!
