use vstd::prelude::*;

verus! {

/// The smallest value a cube component may take.
pub const COMPONENT_MIN: i32 = -2147483648;

/// The largest value a cube component may take.
pub const COMPONENT_MAX: i32 = 2147483647;

/// Cube coordinates, as integers: the model of a [`GridVec`].
pub type Cube = (int, int, int);

/// True when `c` lies on the hex plane.
pub open spec fn on_plane(c: Cube) -> bool {
    c.0 + c.1 + c.2 == 0
}

/// True when every component of `c` fits an `i32`.
pub open spec fn fits_i32(c: Cube) -> bool {
    COMPONENT_MIN <= c.0 <= COMPONENT_MAX && COMPONENT_MIN <= c.1 <= COMPONENT_MAX
        && COMPONENT_MIN <= c.2 <= COMPONENT_MAX
}

pub open spec fn cube_add(a: Cube, b: Cube) -> Cube {
    (a.0 + b.0, a.1 + b.1, a.2 + b.2)
}

pub open spec fn cube_sub(a: Cube, b: Cube) -> Cube {
    (a.0 - b.0, a.1 - b.1, a.2 - b.2)
}

pub open spec fn cube_scale(a: Cube, k: int) -> Cube {
    (a.0 * k, a.1 * k, a.2 * k)
}

/// The cube coordinate whose axial part is `(q, r)`.
pub open spec fn cube_from_axial(q: int, r: int) -> Cube {
    (q, r, -q - r)
}

pub open spec fn north_cube() -> Cube {
    (0, 1, -1)
}

pub open spec fn south_cube() -> Cube {
    (0, -1, 1)
}

pub open spec fn northeast_cube() -> Cube {
    (1, 0, -1)
}

pub open spec fn southeast_cube() -> Cube {
    (1, -1, 0)
}

pub open spec fn northwest_cube() -> Cube {
    (-1, 1, 0)
}

pub open spec fn southwest_cube() -> Cube {
    (-1, 0, 1)
}

/// The six unit directions, in the order in which [`GridVec::neighbors`]
/// lists the neighbors.
pub open spec fn direction_cubes() -> Seq<Cube> {
    seq![south_cube(), southeast_cube(), southwest_cube(), north_cube(), northeast_cube(), northwest_cube()]
}

/// The sum of a sequence of cube coordinates, folded from the left.
pub open spec fn cube_sum(s: Seq<Cube>) -> Cube
    decreases s.len(),
{
    if s.len() == 0 {
        (0, 0, 0)
    } else {
        cube_add(cube_sum(s.drop_last()), s.last())
    }
}

/// True when every partial sum of `s` fits an `i32`.
pub open spec fn partial_sums_fit(s: Seq<Cube>) -> bool {
    forall|i: int| 0 <= i <= s.len() ==> #[trigger] fits_i32(cube_sum(s.take(i)))
}

/// What rounding needs to know of a fractional axial position `(q, r)`.
///
/// `floor_q`, `floor_r`, `ceil_q` and `ceil_r` are the componentwise floor
/// and ceiling of the position. The three flags compare its fractional parts after the skew
/// that adds to each the other's fractional part times one half: whether
/// both are below one half, whether both are above one, and whether the
/// first is below the second.
#[derive(Clone, Copy, PartialEq, Eq, Structural, Debug)]
pub struct FractionalAxial {
    pub floor_q: i32,
    pub floor_r: i32,
    pub ceil_q: i32,
    pub ceil_r: i32,
    pub both_below_half: bool,
    pub both_above_one: bool,
    pub q_below_r: bool,
}

/// The axial corner of the unit rhombus around `f` that rounding selects.
pub open spec fn rounded_axial(f: FractionalAxial) -> (int, int) {
    if f.both_below_half {
        (f.floor_q as int, f.floor_r as int)
    } else if f.both_above_one {
        (f.ceil_q as int, f.ceil_r as int)
    } else if f.q_below_r {
        (f.floor_q as int, f.ceil_r as int)
    } else {
        (f.ceil_q as int, f.floor_r as int)
    }
}

/// Adding north then south gives back the cell one started from.
pub proof fn lemma_north_south_cancel(c: Cube)
    ensures
        cube_add(cube_add(c, north_cube()), south_cube()) == c,
{
}

/// The six unit directions sum to zero, so adding them all to a cell
/// gives back that cell.
pub proof fn lemma_directions_cancel(c: Cube)
    ensures
        cube_sum(direction_cubes()) == (0int, 0int, 0int),
        cube_add(c, cube_sum(direction_cubes())) == c,
{
    reveal_with_fuel(cube_sum, 7);
    let d = direction_cubes();
    assert(d.drop_last().drop_last().drop_last().drop_last().drop_last().drop_last().len() == 0);
}

/// A cube coordinate on the hex plane is recovered from its axial part.
pub proof fn lemma_axial_round_trip(x: int, y: int, z: int)
    requires
        x + y + z == 0,
    ensures
        cube_from_axial(x, y) == (x, y, z),
{
}

/// A cell of the hex grid, in cube coordinates.
///
/// The three components always sum to zero: the cube coordinates name
/// the plane `x + y + z = 0` of three-dimensional integer space, and
/// each point of that plane is one hex cell. Addition and scaling keep a
/// vector on that plane, so they need no check at run time.
#[derive(Clone, Copy, PartialEq, Eq, Structural, Hash, Debug)]
pub struct GridVec {
    x: i32,
    y: i32,
    z: i32,
}

/// The error returned when three components do not sum to zero.
#[derive(Clone, Copy, PartialEq, Eq, Structural, Debug)]
pub struct CubeCoordinatesInvalid;

impl CubeCoordinatesInvalid {
    pub fn message(&self) -> (r: &'static str)
        ensures
            r@ == "grid components did not sum to 0"@,
    {
        "grid components did not sum to 0"
    }
}

impl View for GridVec {
    type V = Cube;

    closed spec fn view(&self) -> Cube {
        (self.x as int, self.y as int, self.z as int)
    }
}

impl GridVec {
    #[verifier::type_invariant]
    spec fn on_hex_plane(self) -> bool {
        self.x + self.y + self.z == 0
    }

    /// Two grid vectors are equal exactly when their cube coordinates are.
    pub proof fn lemma_view_injective(a: GridVec, b: GridVec)
        ensures
            a@ == b@ <==> a == b,
    {
    }

    /// Builds a grid vector from its cube coordinates, which must sum to zero.
    pub fn new(cube_x: i32, cube_y: i32, cube_z: i32) -> (r: Result<GridVec, CubeCoordinatesInvalid>)
        ensures
            cube_x + cube_y + cube_z == 0 <==> r is Ok,
            r matches Ok(v) ==> v@ == (cube_x as int, cube_y as int, cube_z as int),
    {
        let sum: i64 = cube_x as i64 + cube_y as i64 + cube_z as i64;
        if sum != 0 {
            Err(CubeCoordinatesInvalid)
        } else {
            Ok(GridVec { x: cube_x, y: cube_y, z: cube_z })
        }
    }

    /// The additive identity.
    pub fn zero() -> (r: GridVec)
        ensures
            r@ == (0int, 0int, 0int),
    {
        GridVec { x: 0, y: 0, z: 0 }
    }

    /// The neighbor on the positive y world axis.
    pub fn north() -> (r: GridVec)
        ensures
            r@ == north_cube(),
    {
        GridVec { x: 0, y: 1, z: -1 }
    }

    /// The neighbor on the negative y world axis.
    pub fn south() -> (r: GridVec)
        ensures
            r@ == south_cube(),
    {
        GridVec { x: 0, y: -1, z: 1 }
    }

    /// The neighbor towards positive x and positive y.
    pub fn northeast() -> (r: GridVec)
        ensures
            r@ == northeast_cube(),
    {
        GridVec { x: 1, y: 0, z: -1 }
    }

    /// The neighbor towards positive x and negative y.
    pub fn southeast() -> (r: GridVec)
        ensures
            r@ == southeast_cube(),
    {
        GridVec { x: 1, y: -1, z: 0 }
    }

    /// The neighbor towards negative x and positive y.
    pub fn northwest() -> (r: GridVec)
        ensures
            r@ == northwest_cube(),
    {
        GridVec { x: -1, y: 1, z: 0 }
    }

    /// The neighbor towards negative x and negative y.
    pub fn southwest() -> (r: GridVec)
        ensures
            r@ == southwest_cube(),
    {
        GridVec { x: -1, y: 0, z: 1 }
    }

    /// The first cube component.
    pub fn cube_x(&self) -> (r: i32)
        ensures
            r as int == self@.0,
    {
        self.x
    }

    /// The second cube component.
    pub fn cube_y(&self) -> (r: i32)
        ensures
            r as int == self@.1,
    {
        self.y
    }

    /// The third cube component.
    pub fn cube_z(&self) -> (r: i32)
        ensures
            r as int == self@.2,
    {
        self.z
    }

    /// The axial coordinates: the first two cube components, which
    /// determine the third.
    pub fn axial(&self) -> (r: (i32, i32))
        ensures
            r.0 as int == self@.0,
            r.1 as int == self@.1,
            on_plane(self@),
            fits_i32(self@),
    {
        proof {
            use_type_invariant(&self);
        }
        (self.x, self.y)
    }

    /// Extends an axial coordinate `(q, r)` to the cube coordinate `(q, r, -q-r)`.
    pub fn from_axial(vec: (i32, i32)) -> (r: GridVec)
        requires
            COMPONENT_MIN <= -vec.0 - vec.1 <= COMPONENT_MAX,
        ensures
            r@ == cube_from_axial(vec.0 as int, vec.1 as int),
    {
        let z: i32 = (-(vec.0 as i64) - vec.1 as i64) as i32;
        GridVec { x: vec.0, y: vec.1, z }
    }

    /// Rounds a fractional axial position to the cell that contains it.
    ///
    /// Both skewed fractional parts below one half select the floor, both
    /// above one the ceiling; otherwise the smaller of the two is rounded
    /// down and the other up. On a boundary this picks, of the four nearest
    /// cells, one of the two that are closest to each other.
    pub fn hex_round(f: FractionalAxial) -> (r: GridVec)
        requires
            COMPONENT_MIN <= -rounded_axial(f).0 - rounded_axial(f).1 <= COMPONENT_MAX,
        ensures
            r@ == cube_from_axial(rounded_axial(f).0, rounded_axial(f).1),
    {
        let axial = if f.both_below_half {
            (f.floor_q, f.floor_r)
        } else if f.both_above_one {
            (f.ceil_q, f.ceil_r)
        } else if f.q_below_r {
            (f.floor_q, f.ceil_r)
        } else {
            (f.ceil_q, f.floor_r)
        };
        GridVec::from_axial(axial)
    }

    /// Componentwise sum of two grid vectors.
    pub fn add(self, rhs: GridVec) -> (r: GridVec)
        requires
            fits_i32(cube_add(self@, rhs@)),
        ensures
            r@ == cube_add(self@, rhs@),
    {
        proof {
            use_type_invariant(&self);
            use_type_invariant(&rhs);
        }
        GridVec { x: self.x + rhs.x, y: self.y + rhs.y, z: self.z + rhs.z }
    }

    /// Componentwise difference of two grid vectors.
    pub fn sub(self, rhs: GridVec) -> (r: GridVec)
        requires
            fits_i32(cube_sub(self@, rhs@)),
        ensures
            r@ == cube_sub(self@, rhs@),
    {
        proof {
            use_type_invariant(&self);
            use_type_invariant(&rhs);
        }
        GridVec { x: self.x - rhs.x, y: self.y - rhs.y, z: self.z - rhs.z }
    }

    /// Scales a grid vector by an integer.
    pub fn mul(self, rhs: i32) -> (r: GridVec)
        requires
            fits_i32(cube_scale(self@, rhs as int)),
        ensures
            r@ == cube_scale(self@, rhs as int),
    {
        proof {
            use_type_invariant(&self);
            assert((self.x * rhs) + (self.y * rhs) + (self.z * rhs) == (self.x + self.y + self.z) * rhs)
                by (nonlinear_arith);
        }
        GridVec { x: self.x * rhs, y: self.y * rhs, z: self.z * rhs }
    }

    /// The six neighbors of this cell: south, southeast, southwest, north,
    /// northeast and northwest, in that order.
    pub fn neighbors(self) -> (r: [GridVec; 6])
        requires
            forall|i: int| 0 <= i < 6 ==> #[trigger] fits_i32(cube_add(self@, direction_cubes()[i])),
        ensures
            forall|i: int| 0 <= i < 6 ==> #[trigger] r@[i]@ == cube_add(self@, direction_cubes()[i]),
    {
        assert(fits_i32(cube_add(self@, direction_cubes()[0])));
        assert(fits_i32(cube_add(self@, direction_cubes()[1])));
        assert(fits_i32(cube_add(self@, direction_cubes()[2])));
        assert(fits_i32(cube_add(self@, direction_cubes()[3])));
        assert(fits_i32(cube_add(self@, direction_cubes()[4])));
        assert(fits_i32(cube_add(self@, direction_cubes()[5])));
        let r = [
            self.add(GridVec::south()),
            self.add(GridVec::southeast()),
            self.add(GridVec::southwest()),
            self.add(GridVec::north()),
            self.add(GridVec::northeast()),
            self.add(GridVec::northwest()),
        ];
        assert forall|i: int| 0 <= i < 6 implies #[trigger] r@[i]@ == cube_add(self@, direction_cubes()[i]) by {
        }
        r
    }

    /// The sum of all vectors in `vecs`, folded from the zero vector.
    pub fn sum(vecs: &Vec<GridVec>) -> (r: GridVec)
        requires
            partial_sums_fit(vecs@.map_values(|v: GridVec| v@)),
        ensures
            r@ == cube_sum(vecs@.map_values(|v: GridVec| v@)),
    {
        let ghost cubes = vecs@.map_values(|v: GridVec| v@);
        let mut acc = GridVec::zero();
        let mut i: usize = 0;
        while i < vecs.len()
            invariant
                i <= vecs@.len(),
                cubes == vecs@.map_values(|v: GridVec| v@),
                partial_sums_fit(cubes),
                acc@ == cube_sum(cubes.take(i as int)),
            decreases vecs@.len() - i,
        {
            assert(cubes.take(i as int + 1).drop_last() == cubes.take(i as int));
            assert(fits_i32(cube_sum(cubes.take(i as int + 1))));
            acc = acc.add(vecs[i]);
            i = i + 1;
        }
        assert(cubes.take(i as int) == cubes);
        acc
    }
}

} // verus!
