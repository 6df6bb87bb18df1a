use vstd::prelude::*;

verus! {

/// The most subdivisions a generated plane mesh may have.
pub const MAX_MESH_RES: u32 = 10;

/// The error returned when a mesh is asked for more subdivisions than
/// its limit allows.
#[derive(Clone, Copy, PartialEq, Eq, Structural, Debug)]
pub enum SubdivisionError {
    TooManySubdivisions { requested: u32, limit: u32 },
}

/// Checks a subdivision count against `limit`.
pub fn check_subdivisions(requested: u32, limit: u32) -> (r: Result<(), SubdivisionError>)
    ensures
        requested <= limit <==> r is Ok,
        requested > limit ==> r == Err::<(), SubdivisionError>(
            SubdivisionError::TooManySubdivisions { requested, limit },
        ),
{
    if requested > limit {
        Err(SubdivisionError::TooManySubdivisions { requested, limit })
    } else {
        Ok(())
    }
}

/// Checks the subdivision count of a plane mesh against [`MAX_MESH_RES`].
pub fn num_tris_ok(resolution: u32) -> (r: Result<(), SubdivisionError>)
    ensures
        resolution <= MAX_MESH_RES <==> r is Ok,
        resolution > MAX_MESH_RES ==> r == Err::<(), SubdivisionError>(
            SubdivisionError::TooManySubdivisions { requested: resolution, limit: MAX_MESH_RES },
        ),
{
    check_subdivisions(resolution, MAX_MESH_RES)
}

} // verus!
