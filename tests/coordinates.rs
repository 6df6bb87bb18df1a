use earth::text::{parse_dimension, ArgumentParseError, DimensionParseError};
use earth::{CubeCoordinatesInvalid, FractionalAxial, GridVec};

fn cube(v: GridVec) -> (i32, i32, i32) {
    (v.cube_x(), v.cube_y(), v.cube_z())
}

#[test]
fn new_accepts_zero_sum() {
    for (x, y, z) in [(0, 0, 0), (1, -1, 0), (5, -7, 2), (-3, 0, 3), (i32::MAX, i32::MIN + 1, 0)] {
        let v = GridVec::new(x, y, z).expect("zero-sum coordinates are valid");
        assert_eq!(cube(v), (x, y, z));
        let (q, r) = v.axial();
        assert_eq!((q, r), (x, y));
        assert_eq!(GridVec::from_axial((q, r)), v);
    }
}

#[test]
fn new_rejects_nonzero_sum() {
    for (x, y, z) in [(1, 0, 0), (0, 0, -1), (2, 2, 2), (i32::MAX, i32::MAX, 2), (i32::MIN, 0, 0)] {
        assert_eq!(GridVec::new(x, y, z), Err(CubeCoordinatesInvalid));
    }
    assert_eq!(CubeCoordinatesInvalid.message(), "grid components did not sum to 0");
}

#[test]
fn from_axial_fills_third_component() {
    assert_eq!(cube(GridVec::from_axial((4, -9))), (4, -9, 5));
    assert_eq!(cube(GridVec::from_axial((0, 0))), (0, 0, 0));
}

#[test]
fn directions_cancel() {
    let c = GridVec::new(3, -5, 2).unwrap();
    assert_eq!(c.add(GridVec::north()).add(GridVec::south()), c);
    let all = vec![
        GridVec::north(),
        GridVec::south(),
        GridVec::northeast(),
        GridVec::southeast(),
        GridVec::northwest(),
        GridVec::southwest(),
    ];
    assert_eq!(GridVec::sum(&all), GridVec::zero());
    assert_eq!(c.add(GridVec::sum(&all)), c);
}

#[test]
fn direction_values() {
    assert_eq!(cube(GridVec::north()), (0, 1, -1));
    assert_eq!(cube(GridVec::south()), (0, -1, 1));
    assert_eq!(cube(GridVec::northeast()), (1, 0, -1));
    assert_eq!(cube(GridVec::southeast()), (1, -1, 0));
    assert_eq!(cube(GridVec::northwest()), (-1, 1, 0));
    assert_eq!(cube(GridVec::southwest()), (-1, 0, 1));
    assert_eq!(cube(GridVec::zero()), (0, 0, 0));
}

#[test]
fn arithmetic() {
    let a = GridVec::new(2, -3, 1).unwrap();
    let b = GridVec::new(-1, 4, -3).unwrap();
    assert_eq!(cube(a.add(b)), (1, 1, -2));
    assert_eq!(cube(a.sub(b)), (3, -7, 4));
    assert_eq!(cube(a.mul(3)), (6, -9, 3));
    assert_eq!(cube(a.mul(-1)), (-2, 3, -1));
    assert_eq!(GridVec::sum(&Vec::new()), GridVec::zero());
    assert_eq!(cube(GridVec::sum(&vec![a, b, a])), (3, -2, -1));
}

#[test]
fn neighbors_in_order() {
    let c = GridVec::new(1, 1, -2).unwrap();
    let n = c.neighbors();
    let expected = [
        GridVec::south(),
        GridVec::southeast(),
        GridVec::southwest(),
        GridVec::north(),
        GridVec::northeast(),
        GridVec::northwest(),
    ];
    for i in 0..6 {
        assert_eq!(n[i], c.add(expected[i]));
    }
}

fn fractional(below_half: bool, above_one: bool, q_below_r: bool) -> FractionalAxial {
    FractionalAxial {
        floor_q: 2,
        floor_r: 3,
        ceil_q: 3,
        ceil_r: 4,
        both_below_half: below_half,
        both_above_one: above_one,
        q_below_r,
    }
}

#[test]
fn hex_round_picks_rhombus_corner() {
    assert_eq!(cube(GridVec::hex_round(fractional(true, false, true))), (2, 3, -5));
    assert_eq!(cube(GridVec::hex_round(fractional(false, true, false))), (3, 4, -7));
    assert_eq!(cube(GridVec::hex_round(fractional(false, false, true))), (2, 4, -6));
    assert_eq!(cube(GridVec::hex_round(fractional(false, false, false))), (3, 3, -6));
}

#[test]
fn parse_dimension_values() {
    assert_eq!(parse_dimension("3ne").map(cube), Ok((3, 0, -3)));
    assert_eq!(parse_dimension("-2s").map(cube), Ok((0, 2, -2)));
    assert_eq!(parse_dimension("+4nw").map(cube), Ok((-4, 4, 0)));
    assert_eq!(parse_dimension("0n").map(cube), Ok((0, 0, 0)));
    assert_eq!(parse_dimension("1sw").map(cube), Ok((-1, 0, 1)));
    assert_eq!(parse_dimension("7se").map(cube), Ok((7, -7, 0)));
    assert_eq!(parse_dimension("2147483647n").map(cube), Ok((0, i32::MAX, -i32::MAX)));
}

#[test]
fn parse_dimension_errors() {
    assert_eq!(parse_dimension("5x"), Err(DimensionParseError::NoDirection));
    assert_eq!(parse_dimension(""), Err(DimensionParseError::NoDirection));
    assert_eq!(parse_dimension("5N"), Err(DimensionParseError::InvalidDirection("N".to_string())));
    assert_eq!(parse_dimension("5ew"), Err(DimensionParseError::InvalidDirection("ew".to_string())));
    assert_eq!(parse_dimension("5nn"), Err(DimensionParseError::InvalidDirection("nn".to_string())));
    assert_eq!(parse_dimension("abn"), Err(DimensionParseError::InvalidMagnitude("ab".to_string())));
    assert_eq!(parse_dimension("sw"), Err(DimensionParseError::InvalidMagnitude("".to_string())));
    assert_eq!(parse_dimension("-n"), Err(DimensionParseError::InvalidMagnitude("-".to_string())));
    assert_eq!(
        parse_dimension("2147483648n"),
        Err(DimensionParseError::InvalidMagnitude("2147483648".to_string()))
    );
    assert_eq!(
        parse_dimension("-2147483648n"),
        Err(DimensionParseError::InvalidMagnitude("-2147483648".to_string()))
    );
}

#[test]
fn grid_vector_from_arguments() {
    assert_eq!(GridVec::try_from_args(&vec![]), Err(ArgumentParseError::TooFewArguments));
    assert_eq!(GridVec::try_from_args(&vec!["2n"]).map(cube), Ok((0, 2, -2)));
    assert_eq!(GridVec::try_from_args(&vec!["2n", "1se"]).map(cube), Ok((1, 1, -2)));
    assert_eq!(GridVec::try_from_args(&vec!["2n", "1se", "junk"]).map(cube), Ok((1, 1, -2)));
    assert_eq!(
        GridVec::try_from_args(&vec!["2n", "x"]),
        Err(ArgumentParseError::MalformedDimension(DimensionParseError::NoDirection))
    );
    assert_eq!(
        GridVec::try_from_args(&vec!["qn", "x"]),
        Err(ArgumentParseError::MalformedDimension(DimensionParseError::InvalidMagnitude("q".to_string())))
    );
    assert_eq!(GridVec::try_from_args(&vec!["2147483647n", "1n"]), Err(ArgumentParseError::OutOfRange));
}
