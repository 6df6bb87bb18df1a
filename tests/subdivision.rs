use earth::{check_subdivisions, num_tris_ok, SubdivisionError, MAX_MESH_RES};

#[test]
fn resolution_outside_boundary() {
    let result = num_tris_ok(MAX_MESH_RES + 1);

    let expected_error = SubdivisionError::TooManySubdivisions {
        requested: MAX_MESH_RES + 1,
        limit: MAX_MESH_RES,
    };

    let resultant_error = result.unwrap_err();

    assert_eq!(expected_error, resultant_error)
}

#[test]
fn resolution_inside_boundary() {
    let result = num_tris_ok(MAX_MESH_RES);
    assert!(result.is_ok())
}

#[test]
fn subdivision_limit_values() {
    assert_eq!(MAX_MESH_RES, 10);
    assert_eq!(check_subdivisions(0, 10), Ok(()));
    assert_eq!(
        check_subdivisions(12, 10),
        Err(SubdivisionError::TooManySubdivisions { requested: 12, limit: 10 })
    );
}
