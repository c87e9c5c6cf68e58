//! Assembly of a cube-map texture from six face images.
//!
//! The embedding decodes the images; this module fixes which files the
//! faces come from, checks that the six decoded faces agree in size, and
//! lays out the per-layer writes of the upload.

use vstd::prelude::*;
use vstd::string::StringExecFns;

verus! {

/// A cube-map texture: the texture object, its cube view and its sampler,
/// by handle.
#[derive(Clone, Copy, Debug, PartialEq, Eq, Structural)]
pub struct CubeTexture {
    pub texture: u64,
    pub view: u64,
    pub sampler: u64,
}

/// Why a set of decoded faces cannot be assembled into a cube map.
#[derive(Clone, Copy, Debug, PartialEq, Eq, Structural)]
pub enum CubeTextureError {
    /// Not exactly six faces were supplied.
    WrongFaceCount,
    /// The faces do not all share one width and height.
    DimensionMismatch,
}

/// One face's upload: which array layer it fills and the row layout of
/// its pixel data, four bytes per pixel.
#[derive(Clone, Copy, Debug, PartialEq, Eq, Structural)]
pub struct FaceWrite {
    pub layer: u32,
    pub bytes_per_row: u64,
    pub rows: u32,
}

/// A checked upload layout: the texture extent (six layers deep) and the
/// six per-layer writes.
pub struct CubeUploadPlan {
    pub width: u32,
    pub height: u32,
    pub writes: Vec<FaceWrite>,
}

/// The fixed file name of each cube face, positive and negative along
/// each axis.
pub open spec fn spec_face_file_name(i: int) -> Seq<char> {
    if i == 0 {
        "px.png"@
    } else if i == 1 {
        "nx.png"@
    } else if i == 2 {
        "py.png"@
    } else if i == 3 {
        "ny.png"@
    } else if i == 4 {
        "pz.png"@
    } else {
        "nz.png"@
    }
}

/// Joins a directory and a file name with a single separator.
fn join_path(directory: &str, file: &str) -> (r: String)
    ensures
        r@ == directory@ + "/"@ + file@,
{
    let mut s = directory.to_owned();
    s.append("/");
    s.append(file);
    s
}

/// The six file paths a cube map is loaded from, in face order.
pub fn cube_face_paths(directory: &str) -> (v: Vec<String>)
    ensures
        v@.len() == 6,
        forall|i: int| 0 <= i < 6 ==> (#[trigger] v@[i])@ == directory@ + "/"@
            + spec_face_file_name(i),
{
    let mut v: Vec<String> = Vec::new();
    v.push(join_path(directory, "px.png"));
    v.push(join_path(directory, "nx.png"));
    v.push(join_path(directory, "py.png"));
    v.push(join_path(directory, "ny.png"));
    v.push(join_path(directory, "pz.png"));
    v.push(join_path(directory, "nz.png"));
    v
}

/// The write every face of a checked plan performs: its own layer, four
/// bytes per pixel per row, one row per line of the face.
pub open spec fn spec_face_write(i: int, width: u32, height: u32) -> FaceWrite {
    FaceWrite { layer: i as u32, bytes_per_row: (4 * (width as u64)) as u64, rows: height }
}

/// Checks six decoded faces and lays out their upload: accepted exactly
/// when there are six and they all share the first face's size.
pub fn plan_cube_upload(dims: &Vec<(u32, u32)>) -> (r: Result<CubeUploadPlan, CubeTextureError>)
    ensures
        (r is Ok) <==> (dims@.len() == 6 && (forall|i: int|
            0 <= i < 6 ==> #[trigger] dims@[i] == dims@[0])),
        r matches Ok(plan) ==> {
            &&& plan.width == dims@[0].0
            &&& plan.height == dims@[0].1
            &&& plan.writes@.len() == 6
            &&& forall|i: int|
                0 <= i < 6 ==> #[trigger] plan.writes@[i] == spec_face_write(
                    i,
                    dims@[0].0,
                    dims@[0].1,
                )
        },
        r matches Err(e) ==> (e == CubeTextureError::WrongFaceCount <==> dims@.len() != 6),
{
    if dims.len() != 6 {
        return Err(CubeTextureError::WrongFaceCount);
    }
    let width = dims[0].0;
    let height = dims[0].1;
    let mut i: usize = 1;
    while i < 6
        invariant
            dims@.len() == 6,
            1 <= i <= 6,
            width == dims@[0].0,
            height == dims@[0].1,
            forall|j: int| 0 <= j < i ==> #[trigger] dims@[j] == dims@[0],
        decreases 6 - i,
    {
        if dims[i].0 != width || dims[i].1 != height {
            return Err(CubeTextureError::DimensionMismatch);
        }
        proof {
            assert(dims@[i as int] == dims@[0]);
        }
        i = i + 1;
    }
    let mut writes: Vec<FaceWrite> = Vec::new();
    let mut layer: u32 = 0;
    while layer < 6
        invariant
            layer <= 6,
            writes@.len() == layer,
            forall|j: int|
                0 <= j < layer ==> #[trigger] writes@[j] == spec_face_write(j, width, height),
        decreases 6 - layer,
    {
        writes.push(
            FaceWrite { layer, bytes_per_row: 4 * (width as u64), rows: height },
        );
        layer = layer + 1;
    }
    Ok(CubeUploadPlan { width, height, writes })
}

} // verus!
