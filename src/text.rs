use vstd::prelude::*;
use vstd::string::*;
use crate::hex::{
    cube_add, cube_scale, fits_i32, north_cube, northeast_cube, northwest_cube, south_cube, southeast_cube,
    southwest_cube, Cube, GridVec,
};

verus! {

/// Why one dimension of a grid vector could not be read.
#[derive(Clone, PartialEq, Eq, Debug)]
pub enum DimensionParseError {
    /// No letter n, s, e or w (in either case) was found.
    NoDirection,
    /// The text from the first direction letter on is not a direction code.
    InvalidDirection(String),
    /// The text before the direction is not an `i32`, or its multiple of
    /// the direction does not fit `i32` components.
    InvalidMagnitude(String),
}

/// Why a grid vector could not be read from its arguments.
#[derive(Clone, PartialEq, Eq, Debug)]
pub enum ArgumentParseError {
    /// No argument was given.
    TooFewArguments,
    /// One of the dimensions is malformed.
    MalformedDimension(DimensionParseError),
    /// The two dimensions sum to a vector whose components do not fit an `i32`.
    OutOfRange,
}

/// The largest value of an `i32`.
pub const INT_MAX: i64 = 2147483647;

/// The magnitude of the smallest value of an `i32`.
pub const NEG_INT_MAX: i64 = 2147483648;

pub open spec fn is_direction_letter(c: char) -> bool {
    c == 'n' || c == 's' || c == 'e' || c == 'w' || c == 'N' || c == 'S' || c == 'E' || c == 'W'
}

/// The index of the first direction letter of `s` at or after `i`.
pub open spec fn first_direction_from(s: Seq<char>, i: int) -> Option<int>
    decreases s.len() - i,
{
    if i < 0 || i >= s.len() {
        None
    } else if is_direction_letter(s[i]) {
        Some(i)
    } else {
        first_direction_from(s, i + 1)
    }
}

/// The unit vector that a direction code names.
pub open spec fn direction_of(code: Seq<char>) -> Option<Cube> {
    if code == seq!['n'] {
        Some(north_cube())
    } else if code == seq!['n', 'w'] {
        Some(northwest_cube())
    } else if code == seq!['n', 'e'] {
        Some(northeast_cube())
    } else if code == seq!['s'] {
        Some(south_cube())
    } else if code == seq!['s', 'w'] {
        Some(southwest_cube())
    } else if code == seq!['s', 'e'] {
        Some(southeast_cube())
    } else {
        None
    }
}

pub open spec fn is_digit_char(c: char) -> bool {
    '0' <= c && c <= '9'
}

/// The value of a string of decimal digits, most significant first.
pub open spec fn digit_chars_value(s: Seq<char>) -> nat
    decreases s.len(),
{
    if s.len() == 0 {
        0
    } else {
        digit_chars_value(s.drop_last()) * 10 + ((s.last() as int) - ('0' as int)) as nat
    }
}

/// Whether `s` starts with a minus sign, and the digits after any sign.
pub open spec fn split_sign(s: Seq<char>) -> (bool, Seq<char>) {
    if s.len() > 0 && s[0] == '-' {
        (true, s.drop_first())
    } else if s.len() > 0 && s[0] == '+' {
        (false, s.drop_first())
    } else {
        (false, s)
    }
}

/// The `i32` that `s` writes: an optional sign and one or more digits,
/// whose signed value fits an `i32`.
pub open spec fn magnitude_of(s: Seq<char>) -> Option<int> {
    let (negative, body) = split_sign(s);
    if body.len() > 0 && (forall|i: int| 0 <= i < body.len() ==> is_digit_char(#[trigger] body[i]))
        && digit_chars_value(body) <= (if negative { NEG_INT_MAX } else { INT_MAX }) {
        Some(if negative { -digit_chars_value(body) } else { digit_chars_value(body) as int })
    } else {
        None
    }
}

/// What reading the dimension `d` gives: the vector, or the error.
pub open spec fn dimension_parsed(d: Seq<char>, r: Result<GridVec, DimensionParseError>) -> bool {
    match first_direction_from(d, 0) {
        None => r == Err::<GridVec, DimensionParseError>(DimensionParseError::NoDirection),
        Some(i) => {
            let code = d.subrange(i, d.len() as int);
            let mag = d.subrange(0, i);
            match direction_of(code) {
                None => r matches Err(DimensionParseError::InvalidDirection(s)) && s@ == code,
                Some(unit) => match magnitude_of(mag) {
                    Some(m) if fits_i32(cube_scale(unit, m)) => r matches Ok(v) && v@ == cube_scale(unit, m),
                    _ => r matches Err(DimensionParseError::InvalidMagnitude(s)) && s@ == mag,
                },
            }
        },
    }
}

/// The index of the first direction letter of `s`.
fn find_direction(s: &str) -> (r: Option<usize>)
    ensures
        r is None ==> first_direction_from(s@, 0) is None,
        r matches Some(i) ==> first_direction_from(s@, 0) == Some(i as int) && i < s@.len(),
{
    let n = s.unicode_len();
    let mut i: usize = 0;
    while i < n
        invariant
            n == s@.len(),
            i <= n,
            first_direction_from(s@, 0) == first_direction_from(s@, i as int),
        decreases n - i,
    {
        let c = s.get_char(i);
        if c == 'n' || c == 's' || c == 'e' || c == 'w' || c == 'N' || c == 'S' || c == 'E' || c == 'W' {
            return Some(i);
        }
        i = i + 1;
    }
    None
}

/// The unit vector that a direction code names.
fn direction_code(code: &str) -> (r: Option<GridVec>)
    ensures
        r is None ==> direction_of(code@) is None,
        r matches Some(v) ==> direction_of(code@) == Some(v@),
{
    let n = code.unicode_len();
    if n == 1 {
        let c = code.get_char(0);
        if c == 'n' {
            assert(code@ =~= seq!['n']);
            Some(GridVec::north())
        } else if c == 's' {
            assert(code@ =~= seq!['s']);
            Some(GridVec::south())
        } else {
            assert(code@ != seq!['n'] && code@ != seq!['s']) by {
                assert(seq!['n'][0] == 'n');
                assert(seq!['s'][0] == 's');
            }
            None
        }
    } else if n == 2 {
        let c0 = code.get_char(0);
        let c1 = code.get_char(1);
        let ghost pairs = seq![seq!['n', 'w'], seq!['n', 'e'], seq!['s', 'w'], seq!['s', 'e']];
        if c0 == 'n' && c1 == 'w' {
            assert(code@ =~= seq!['n', 'w']);
            Some(GridVec::northwest())
        } else if c0 == 'n' && c1 == 'e' {
            assert(code@ =~= seq!['n', 'e']);
            Some(GridVec::northeast())
        } else if c0 == 's' && c1 == 'w' {
            assert(code@ =~= seq!['s', 'w']);
            Some(GridVec::southwest())
        } else if c0 == 's' && c1 == 'e' {
            assert(code@ =~= seq!['s', 'e']);
            Some(GridVec::southeast())
        } else {
            assert(seq!['n', 'w'][0] == 'n' && seq!['n', 'w'][1] == 'w');
            assert(seq!['n', 'e'][0] == 'n' && seq!['n', 'e'][1] == 'e');
            assert(seq!['s', 'w'][0] == 's' && seq!['s', 'w'][1] == 'w');
            assert(seq!['s', 'e'][0] == 's' && seq!['s', 'e'][1] == 'e');
            assert(seq!['n'].len() == 1 && seq!['s'].len() == 1);
            None
        }
    } else {
        assert(seq!['n'].len() == 1 && seq!['s'].len() == 1);
        assert(seq!['n', 'w'].len() == 2 && seq!['n', 'e'].len() == 2);
        assert(seq!['s', 'w'].len() == 2 && seq!['s', 'e'].len() == 2);
        None
    }
}

/// Reads a signed decimal `i32`.
pub fn parse_i32(s: &str) -> (r: Option<i32>)
    ensures
        r is None ==> magnitude_of(s@) is None,
        r matches Some(m) ==> magnitude_of(s@) == Some(m as int),
{
    let n = s.unicode_len();
    let ghost split = split_sign(s@);
    let negative = n > 0 && s.get_char(0) == '-';
    let start: usize = if n > 0 && (s.get_char(0) == '-' || s.get_char(0) == '+') {
        1
    } else {
        0
    };
    let ghost body = split.1;
    assert(body =~= s@.subrange(start as int, n as int));
    assert(negative == split.0);
    if start >= n {
        return None;
    }
    let limit: i64 = if negative {
        NEG_INT_MAX
    } else {
        INT_MAX
    };
    let mut acc: i64 = 0;
    let mut too_large = false;
    let mut i: usize = start;
    while i < n
        invariant
            n == s@.len(),
            start <= i <= n,
            start < n,
            body =~= s@.subrange(start as int, n as int),
            body == split_sign(s@).1,
            negative == split_sign(s@).0,
            forall|j: int| 0 <= j < i - start ==> is_digit_char(#[trigger] body[j]),
            limit == (if negative { NEG_INT_MAX } else { INT_MAX }),
            too_large <==> digit_chars_value(body.take(i - start)) > limit,
            !too_large ==> acc == digit_chars_value(body.take(i - start)),
        decreases n - i,
    {
        let c = s.get_char(i);
        if !('0' <= c && c <= '9') {
            assert(body[i - start] == c);
            assert(!(forall|j: int| 0 <= j < body.len() ==> is_digit_char(#[trigger] body[j])));
            return None;
        }
        let ghost prefix = body.take(i - start + 1);
        assert(prefix.drop_last() =~= body.take(i - start));
        assert(prefix.last() == c);
        let d: i64 = (c as u32 - '0' as u32) as i64;
        assert(d == (c as int) - ('0' as int));
        if !too_large {
            if acc * 10 + d > limit {
                too_large = true;
            } else {
                acc = acc * 10 + d;
            }
        }
        i = i + 1;
    }
    assert(body.take(i - start) =~= body);
    if too_large {
        None
    } else if negative {
        Some((-acc) as i32)
    } else {
        Some(acc as i32)
    }
}

/// Reads one dimension, a magnitude followed by a direction code
/// (`3ne`, `-2s`), as that multiple of the direction's unit vector.
pub fn parse_dimension(dimension: &str) -> (r: Result<GridVec, DimensionParseError>)
    ensures
        dimension_parsed(dimension@, r),
        r is Ok <==> dimension_value(dimension@) is Some,
        r matches Ok(v) ==> dimension_value(dimension@) == Some(v@),
{
    let split = match find_direction(dimension) {
        Some(i) => i,
        None => return Err(DimensionParseError::NoDirection),
    };
    let n = dimension.unicode_len();
    let mag = dimension.substring_char(0, split);
    let code = dimension.substring_char(split, n);
    let unit = match direction_code(code) {
        Some(u) => u,
        None => return Err(DimensionParseError::InvalidDirection(String::from_str(code))),
    };
    let m = match parse_i32(mag) {
        Some(m) => m,
        None => return Err(DimensionParseError::InvalidMagnitude(String::from_str(mag))),
    };
    // Every unit direction has a component of -1, so only `i32::MIN`
    // overflows when scaled.
    if m == i32::MIN {
        proof {
            assert(!fits_i32(cube_scale(unit@, m as int))) by (nonlinear_arith)
                requires
                    m == -NEG_INT_MAX,
                    unit@.0 == -1 || unit@.1 == -1 || unit@.2 == -1,
            ;
        }
        return Err(DimensionParseError::InvalidMagnitude(String::from_str(mag)));
    }
    proof {
        assert(fits_i32(cube_scale(unit@, m as int))) by (nonlinear_arith)
            requires
                -INT_MAX <= m <= INT_MAX,
                -1 <= unit@.0 <= 1,
                -1 <= unit@.1 <= 1,
                -1 <= unit@.2 <= 1,
        ;
    }
    Ok(unit.mul(m))
}

/// The vector that the dimension `d` writes, if it is well formed.
pub open spec fn dimension_value(d: Seq<char>) -> Option<Cube> {
    match first_direction_from(d, 0) {
        None => None,
        Some(i) => match direction_of(d.subrange(i, d.len() as int)) {
            None => None,
            Some(unit) => match magnitude_of(d.subrange(0, i)) {
                Some(m) if fits_i32(cube_scale(unit, m)) => Some(cube_scale(unit, m)),
                _ => None,
            },
        },
    }
}

/// The vector that `args` write, if they are well formed and their sum fits.
pub open spec fn args_value(args: Seq<Seq<char>>) -> Option<Cube> {
    if args.len() == 0 {
        None
    } else {
        match dimension_value(args[0]) {
            None => None,
            Some(a) => if args.len() == 1 {
                Some(a)
            } else {
                match dimension_value(args[1]) {
                    Some(b) if fits_i32(cube_add(a, b)) => Some(cube_add(a, b)),
                    _ => None,
                }
            },
        }
    }
}

/// What reading a grid vector from `args` gives.
pub open spec fn args_parsed(args: Seq<Seq<char>>, r: Result<GridVec, ArgumentParseError>) -> bool {
    if args.len() == 0 {
        r == Err::<GridVec, ArgumentParseError>(ArgumentParseError::TooFewArguments)
    } else {
        match dimension_value(args[0]) {
            None => r matches Err(ArgumentParseError::MalformedDimension(e)) && dimension_parsed(
                args[0],
                Err(e),
            ),
            Some(a) => if args.len() == 1 {
                r matches Ok(v) && v@ == a
            } else {
                match dimension_value(args[1]) {
                    None => r matches Err(ArgumentParseError::MalformedDimension(e)) && dimension_parsed(
                        args[1],
                        Err(e),
                    ),
                    Some(b) => if fits_i32(cube_add(a, b)) {
                        r matches Ok(v) && v@ == cube_add(a, b)
                    } else {
                        r == Err::<GridVec, ArgumentParseError>(ArgumentParseError::OutOfRange)
                    },
                }
            },
        }
    }
}

/// The character sequences of a list of arguments.
pub open spec fn arg_chars(args: Seq<&str>) -> Seq<Seq<char>> {
    args.map_values(|a: &str| a@)
}

impl GridVec {
    /// Reads a grid vector from one or two dimensions (`["2n", "-1se"]`),
    /// summing them; a missing second dimension counts as zero. Arguments
    /// after the second are not read.
    pub fn try_from_args(args: &Vec<&str>) -> (r: Result<GridVec, ArgumentParseError>)
        ensures
            args_parsed(arg_chars(args@), r),
            r is Ok <==> args_value(arg_chars(args@)) is Some,
            r matches Ok(v) ==> args_value(arg_chars(args@)) == Some(v@),
    {
        let ghost chars = arg_chars(args@);
        if args.len() == 0 {
            return Err(ArgumentParseError::TooFewArguments);
        }
        assert(chars[0] == args@[0]@);
        let a = match parse_dimension(args[0]) {
            Ok(a) => a,
            Err(e) => return Err(ArgumentParseError::MalformedDimension(e)),
        };
        if args.len() == 1 {
            return Ok(a);
        }
        assert(chars[1] == args@[1]@);
        let b = match parse_dimension(args[1]) {
            Ok(b) => b,
            Err(e) => return Err(ArgumentParseError::MalformedDimension(e)),
        };
        let (ax, ay) = a.axial();
        let (bx, by) = b.axial();
        let sx: i64 = ax as i64 + bx as i64;
        let sy: i64 = ay as i64 + by as i64;
        let sz: i64 = -sx - sy;
        if sx < i32::MIN as i64 || sx > i32::MAX as i64 || sy < i32::MIN as i64 || sy > i32::MAX as i64
            || sz < i32::MIN as i64 || sz > i32::MAX as i64 {
            return Err(ArgumentParseError::OutOfRange);
        }
        Ok(a.add(b))
    }
}

} // verus!
