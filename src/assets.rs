use vstd::prelude::*;

verus! {

/// Where a material's diffuse texture comes from.
#[derive(Clone, Copy, Debug, PartialEq, Eq, Structural)]
pub enum TextureSource {
    /// The built-in 1x1 solid white texture.
    DefaultWhite,
    /// The asset file named by the material.
    File,
}

/// A material without a texture name uses the default white texture;
/// otherwise the named file is loaded.
pub fn texture_source(file_name: &str) -> (r: TextureSource)
    ensures
        r == TextureSource::DefaultWhite <==> file_name@.len() == 0,
        r == TextureSource::File <==> file_name@.len() > 0,
{
    if file_name.is_empty() {
        TextureSource::DefaultWhite
    } else {
        TextureSource::File
    }
}

/// Width and height of the default texture.
pub const DEFAULT_TEXTURE_SIZE: u32 = 1;

/// The RGBA8 pixels of the default texture: one opaque white pixel.
pub fn default_white_pixels() -> (r: Vec<u8>)
    ensures
        r@ == seq![255u8, 255u8, 255u8, 255u8],
{
    vec![255u8, 255u8, 255u8, 255u8]
}

/// The number of vertices assembled from flat attribute arrays: three
/// floats per position, two per texture coordinate and three per normal.
/// A missing attribute array is filled with zeros for every position;
/// otherwise the shortest array decides.
pub open spec fn vertex_count_of(positions_len: nat, texcoords_len: nat, normals_len: nat) -> nat {
    let p = positions_len / 3;
    let t = if texcoords_len > 0 {
        texcoords_len / 2
    } else {
        p
    };
    let n = if normals_len > 0 {
        normals_len / 3
    } else {
        p
    };
    let pt = if p < t {
        p
    } else {
        t
    };
    if pt < n {
        pt
    } else {
        n
    }
}

pub fn vertex_count(positions_len: usize, texcoords_len: usize, normals_len: usize) -> (r: usize)
    ensures
        r == vertex_count_of(positions_len as nat, texcoords_len as nat, normals_len as nat),
{
    let p = positions_len / 3;
    let t = if texcoords_len > 0 {
        texcoords_len / 2
    } else {
        p
    };
    let n = if normals_len > 0 {
        normals_len / 3
    } else {
        p
    };
    let pt = if p < t {
        p
    } else {
        t
    };
    if pt < n {
        pt
    } else {
        n
    }
}

/// Why a mesh's indices cannot be used.
#[derive(Clone, Copy, Debug, PartialEq, Eq, Structural)]
pub enum MeshError {
    /// The index at `position` names no vertex.
    IndexOutOfRange { position: usize, index: u32 },
    /// The mesh has more vertices than 16-bit indices can address.
    TooManyVertices { vertex_count: usize },
}

/// Number of vertices that 16-bit indices can address.
pub const MAX_VERTICES: usize = 65536;

/// Every index names one of `vertex_count` vertices.
pub open spec fn indices_in_range(indices: Seq<u32>, vertex_count: nat) -> bool {
    forall|k: int| 0 <= k < indices.len() ==> indices[k] < vertex_count
}

/// The first index that names no vertex.
pub open spec fn first_out_of_range(indices: Seq<u32>, vertex_count: nat, k: int) -> bool {
    &&& 0 <= k < indices.len()
    &&& indices[k] >= vertex_count
    &&& indices_in_range(indices.subrange(0, k), vertex_count)
}

/// Narrows a mesh's indices to 16 bits. Fails if the mesh has more
/// vertices than 16 bits address, or else at the first index that names no
/// vertex.
pub fn mesh_indices(indices: &Vec<u32>, vertex_count: usize) -> (r: Result<Vec<u16>, MeshError>)
    ensures
        r matches Err(MeshError::TooManyVertices { vertex_count: c }) ==> c == vertex_count
            && vertex_count > MAX_VERTICES,
        r matches Err(MeshError::IndexOutOfRange { position, index }) ==> vertex_count
            <= MAX_VERTICES && first_out_of_range(indices@, vertex_count as nat, position as int)
            && index == indices@[position as int],
        r is Ok <==> vertex_count <= MAX_VERTICES && indices_in_range(indices@, vertex_count as nat),
        r matches Ok(v) ==> v@.len() == indices@.len() && forall|k: int|
            0 <= k < v@.len() ==> v@[k] as u32 == indices@[k],
{
    if vertex_count > MAX_VERTICES {
        return Err(MeshError::TooManyVertices { vertex_count });
    }
    let mut out: Vec<u16> = Vec::new();
    let mut i: usize = 0;
    while i < indices.len()
        invariant
            vertex_count <= MAX_VERTICES,
            0 <= i <= indices@.len(),
            out@.len() == i,
            indices_in_range(indices@.subrange(0, i as int), vertex_count as nat),
            forall|k: int| 0 <= k < i ==> out@[k] as u32 == indices@[k],
        decreases indices@.len() - i,
    {
        let index = indices[i];
        if index as usize >= vertex_count {
            return Err(MeshError::IndexOutOfRange { position: i, index });
        }
        out.push(index as u16);
        proof {
            let s = indices@.subrange(0, i + 1);
            assert forall|k: int| 0 <= k < s.len() implies s[k] < vertex_count by {
                if k < i {
                    assert(s[k] == indices@.subrange(0, i as int)[k]);
                }
            }
        }
        i = i + 1;
    }
    assert(indices@.subrange(0, indices@.len() as int) =~= indices@);
    Ok(out)
}

} // verus!
