//! Models: the buffers that hold a mesh, named by their ids, and the bytes
//! that go into them.

use vstd::prelude::*;

verus! {

/// The width of the indices in an index buffer.
#[derive(Clone, Copy, Debug, PartialEq, Eq, Structural)]
pub enum IndexFormat {
    Uint16,
    Uint32,
}

/// Data for a 3D model, and its format. The buffers are named by their ids
/// in the shared context.
#[derive(Clone, Copy, Debug, PartialEq, Eq, Structural)]
pub struct Model {
    pub vertex_buffer: usize,
    pub index_buffer: usize,
    pub index_format: IndexFormat,
    pub offset_buffer: usize,
    pub num_indices: u32,
}

/// Prepares the data of a model for its buffers.
#[derive(Clone, Copy, Debug, PartialEq, Eq, Structural)]
pub struct ModelBuilder;

/// The contents of an index buffer.
#[derive(Debug)]
pub struct IndexData {
    pub bytes: Vec<u8>,
    pub num_indices: u32,
}

/// Whether the bytes `first` and `second`, in this order, hold `word` in one
/// of the two byte orders.
pub open spec fn holds_word(first: u8, second: u8, word: u16) -> bool {
    word == first + 256 * second || word == 256 * first + second
}

/// The bytes of `indices` as they lie in memory, by `bytemuck::cast_slice`
/// from `u16` to `u8`. Believed of it, not proved: there are two bytes for
/// each index, in the order of the indices, and each pair holds its index in
/// the byte order of the machine, whichever that is.
#[verifier::external_body]
fn cast_indices(indices: &Vec<u16>) -> (bytes: Vec<u8>)
    ensures
        bytes@.len() == 2 * indices@.len(),
        forall|i: int|
            0 <= i < indices@.len() ==> holds_word(bytes@[2 * i], bytes@[2 * i + 1], #[trigger] indices@[i]),
{
    bytemuck::cast_slice::<u16, u8>(indices.as_slice()).to_vec()
}

impl Model {
    pub fn new() -> (b: ModelBuilder)
        ensures
            b == ModelBuilder,
    {
        ModelBuilder
    }
}

impl ModelBuilder {
    /// The contents of the index buffer for `indices`: their bytes and their
    /// number. `None` where there are more indices than a draw can count.
    pub fn index_data(&self, indices: &Vec<u16>) -> (data: Option<IndexData>)
        ensures
            data.is_some() <==> indices@.len() <= u32::MAX,
            data matches Some(d) ==> {
                &&& d.num_indices == indices@.len()
                &&& d.bytes@.len() == 2 * indices@.len()
                &&& forall|i: int|
                    0 <= i < indices@.len() ==> holds_word(
                        d.bytes@[2 * i],
                        d.bytes@[2 * i + 1],
                        #[trigger] indices@[i],
                    )
            },
    {
        let n: usize = indices.len();
        if n > 0xFFFF_FFFF {
            None
        } else {
            Some(IndexData { bytes: cast_indices(indices), num_indices: n as u32 })
        }
    }
}

} // verus!
