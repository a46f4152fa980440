//! Geometry handles and the vertex-stream layout.
//!
//! A `Mesh` is the handle pair of an uploaded vertex buffer plus its
//! vertex count; the GPU upload itself happens outside the library. The
//! interleaving of a loaded model's attribute arrays into the stream the
//! buffer expects is pure index arithmetic and is verified here; vertex
//! attributes pass through as opaque 32-bit words.
use vstd::prelude::*;

verus! {

/// Handles of one uploaded mesh: vertex array, vertex buffer, and how
/// many vertices to draw.
#[derive(Clone, Copy, Debug, PartialEq, Eq, Structural)]
pub struct Mesh {
    pub vao: u32,
    pub vbo: u32,
    pub vertex_count: i32,
}

/// A mesh file whose attribute arrays cannot be interleaved.
#[derive(Clone, Copy, Debug, PartialEq, Eq, Structural)]
pub enum AssetLoadError {
    /// The file holds no model at all.
    NoModels,
    /// An index points past the end of the position array.
    IndexOutOfRange,
}

/// Number of 32-bit words per interleaved vertex: position, normal, and
/// texture coordinates.
pub const VERTEX_STRIDE: usize = 8;

/// Bit pattern of the 32-bit float 1.0. The vertex stream carries float
/// words as opaque bits; this is the `y` word of the default `+y` unit
/// normal written when a model has none.
pub const FLOAT_ONE_BITS: u32 = 0x3F80_0000;

/// The `j`-th word of the interleaved record for source vertex `i`:
/// three position words, then three normal words (`+y` unit default when
/// the model has none), then two texture words (zero default).
pub open spec fn vertex_word(
    positions: Seq<u32>,
    normals: Seq<u32>,
    texcoords: Seq<u32>,
    i: int,
    j: int,
) -> u32 {
    if j < 3 {
        positions[3 * i + j]
    } else if j < 6 {
        if normals.len() > 0 {
            normals[3 * i + (j - 3)]
        } else if j == 4 {
            FLOAT_ONE_BITS
        } else {
            0u32
        }
    } else {
        if texcoords.len() > 0 {
            texcoords[2 * i + (j - 6)]
        } else {
            0u32
        }
    }
}

/// Whether every attribute array is long enough for every index.
pub open spec fn arrays_cover(
    indices: Seq<u32>,
    positions: Seq<u32>,
    normals: Seq<u32>,
    texcoords: Seq<u32>,
) -> bool {
    forall|k: int|
        0 <= k < indices.len() ==> {
            &&& 3 * (indices[k] as int) + 3 <= positions.len()
            &&& normals.len() > 0 ==> 3 * (indices[k] as int) + 3 <= normals.len()
            &&& texcoords.len() > 0 ==> 2 * (indices[k] as int) + 2 <= texcoords.len()
        }
}

/// Check that a loaded file yielded at least one model; an empty file is
/// the collaborator failure the loader surfaces before interleaving.
pub fn check_model_count(count: usize) -> (r: Result<(), AssetLoadError>)
    ensures
        count == 0 <==> r == Err::<(), AssetLoadError>(AssetLoadError::NoModels),
        count > 0 <==> r == Ok::<(), AssetLoadError>(()),
{
    if count == 0 {
        Err(AssetLoadError::NoModels)
    } else {
        Ok(())
    }
}

/// Interleave a model's indexed attribute arrays into the flat vertex
/// stream the GPU buffer expects: for each index, eight words.
pub fn build_interleaved(
    indices: &Vec<u32>,
    positions: &Vec<u32>,
    normals: &Vec<u32>,
    texcoords: &Vec<u32>,
) -> (r: Result<Vec<u32>, AssetLoadError>)
    requires
        indices@.len() < 0x1000_0000,
        positions@.len() < 0x2000_0000,
        normals@.len() < 0x2000_0000,
        texcoords@.len() < 0x2000_0000,
    ensures
        arrays_cover(indices@, positions@, normals@, texcoords@) ==> {
            &&& r is Ok
            &&& r->Ok_0@.len() == (VERTEX_STRIDE as int) * indices@.len()
            &&& forall|k: int, j: int|
                0 <= k < indices@.len() && 0 <= j < VERTEX_STRIDE as int ==> r->Ok_0@[8 * k + j]
                    == vertex_word(positions@, normals@, texcoords@, indices@[k] as int, j)
        },
        !arrays_cover(indices@, positions@, normals@, texcoords@) ==> r == Err::<
            Vec<u32>,
            AssetLoadError,
        >(AssetLoadError::IndexOutOfRange),
{
    let mut out: Vec<u32> = Vec::new();
    let mut k: usize = 0;
    while k < indices.len()
        invariant
            k <= indices@.len(),
            indices@.len() < 0x1000_0000,
            positions@.len() < 0x2000_0000,
            normals@.len() < 0x2000_0000,
            texcoords@.len() < 0x2000_0000,
            out@.len() == 8 * k,
            forall|k2: int|
                0 <= k2 < k ==> {
                    &&& 3 * (indices@[k2] as int) + 3 <= positions@.len()
                    &&& normals@.len() > 0 ==> 3 * (indices@[k2] as int) + 3 <= normals@.len()
                    &&& texcoords@.len() > 0 ==> 2 * (indices@[k2] as int) + 2 <= texcoords@.len()
                },
            forall|k2: int, j: int|
                0 <= k2 < k && 0 <= j < 8 ==> out@[8 * k2 + j] == vertex_word(
                    positions@,
                    normals@,
                    texcoords@,
                    indices@[k2] as int,
                    j,
                ),
        decreases indices@.len() - k,
    {
        let idx = indices[k] as usize;
        if idx >= 0x2000_0000 || 3 * idx + 3 > positions.len() {
            proof {
                assert(3 * (indices@[k as int] as int) + 3 > positions@.len());
                assert(!arrays_cover(indices@, positions@, normals@, texcoords@));
            }
            return Err(AssetLoadError::IndexOutOfRange);
        }
        if normals.len() > 0 && 3 * idx + 3 > normals.len() {
            proof {
                assert(normals@.len() > 0 && 3 * (indices@[k as int] as int) + 3
                    > normals@.len());
                assert(!arrays_cover(indices@, positions@, normals@, texcoords@));
            }
            return Err(AssetLoadError::IndexOutOfRange);
        }
        if texcoords.len() > 0 && 2 * idx + 2 > texcoords.len() {
            proof {
                assert(texcoords@.len() > 0 && 2 * (indices@[k as int] as int) + 2
                    > texcoords@.len());
                assert(!arrays_cover(indices@, positions@, normals@, texcoords@));
            }
            return Err(AssetLoadError::IndexOutOfRange);
        }
        out.push(positions[3 * idx]);
        out.push(positions[3 * idx + 1]);
        out.push(positions[3 * idx + 2]);
        if normals.len() > 0 {
            out.push(normals[3 * idx]);
            out.push(normals[3 * idx + 1]);
            out.push(normals[3 * idx + 2]);
        } else {
            out.push(0);
            out.push(FLOAT_ONE_BITS);
            out.push(0);
        }
        if texcoords.len() > 0 {
            out.push(texcoords[2 * idx]);
            out.push(texcoords[2 * idx + 1]);
        } else {
            out.push(0);
            out.push(0);
        }
        k = k + 1;
    }
    Ok(out)
}

} // verus!
