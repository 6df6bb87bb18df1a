use vstd::prelude::*;

verus! {

/// The error returned when seed text is not the decimal form of a `u64`.
#[derive(Clone, Copy, PartialEq, Eq, Structural, Debug)]
pub struct SeedParseError;

impl SeedParseError {
    pub fn message(&self) -> (r: &'static str)
        ensures
            r@ == "seed text is not a decimal u64"@,
    {
        "seed text is not a decimal u64"
    }
}

/// The ASCII code of `'0'`.
pub const ZERO_DIGIT: u8 = 48;

/// The ASCII code of `'+'`.
pub const PLUS_SIGN: u8 = 43;

pub open spec fn is_digit(b: u8) -> bool {
    ZERO_DIGIT <= b <= ZERO_DIGIT + 9
}

/// The value of a string of decimal digits, most significant first.
pub open spec fn digits_value(s: Seq<u8>) -> nat
    decreases s.len(),
{
    if s.len() == 0 {
        0
    } else {
        digits_value(s.drop_last()) * 10 + (s.last() - ZERO_DIGIT) as nat
    }
}

/// The shortest decimal form of `n`, without sign.
pub open spec fn decimal_digits(n: nat) -> Seq<u8>
    decreases n,
{
    if n < 10 {
        seq![(ZERO_DIGIT + n) as u8]
    } else {
        decimal_digits(n / 10).push((ZERO_DIGIT + n % 10) as u8)
    }
}

/// The digits of seed text: the text without one leading `'+'`.
pub open spec fn unsigned_body(s: Seq<u8>) -> Seq<u8> {
    if s.len() > 0 && s[0] == PLUS_SIGN {
        s.drop_first()
    } else {
        s
    }
}

/// The seed that `s` writes: an optional `'+'`, then one or more decimal
/// digits whose value fits a `u64`.
pub open spec fn seed_from_text(s: Seq<u8>) -> Option<u64> {
    let body = unsigned_body(s);
    if body.len() > 0 && (forall|i: int| 0 <= i < body.len() ==> is_digit(#[trigger] body[i]))
        && digits_value(body) <= u64::MAX {
        Some(digits_value(body) as u64)
    } else {
        None
    }
}

/// Appends the decimal digits of `n` to `out`.
fn push_decimal(n: u64, out: &mut Vec<u8>)
    ensures
        final(out)@ == old(out)@ + decimal_digits(n as nat),
    decreases n,
{
    if n >= 10 {
        push_decimal(n / 10, out);
    }
    out.push(ZERO_DIGIT + (n % 10) as u8);
    proof {
        if n < 10 {
            assert(decimal_digits(n as nat) == seq![(ZERO_DIGIT + n) as u8]);
        } else {
            assert(decimal_digits(n as nat) == decimal_digits((n / 10) as nat).push(
                (ZERO_DIGIT + n % 10) as u8,
            ));
        }
        assert(final(out)@ =~= old(out)@ + decimal_digits(n as nat));
    }
}

/// The text that records a seed: its decimal digits, with no sign and no
/// line break.
pub fn seed_text(seed: u64) -> (r: Vec<u8>)
    ensures
        r@ == decimal_digits(seed as nat),
{
    let mut out: Vec<u8> = Vec::new();
    push_decimal(seed, &mut out);
    proof {
        assert(out@ =~= decimal_digits(seed as nat));
    }
    out
}

/// Reads a seed from text written by [`seed_text`], or by hand.
pub fn parse_seed(text: &[u8]) -> (r: Result<u64, SeedParseError>)
    ensures
        r matches Ok(v) ==> seed_from_text(text@) == Some(v),
        r is Err ==> seed_from_text(text@) is None,
{
    let start: usize = if text.len() > 0 && text[0] == PLUS_SIGN {
        1
    } else {
        0
    };
    let ghost body = unsigned_body(text@);
    assert(body =~= text@.subrange(start as int, text@.len() as int));
    if start >= text.len() {
        return Err(SeedParseError);
    }
    let mut acc: u64 = 0;
    let mut overflowed = false;
    let mut i: usize = start;
    while i < text.len()
        invariant
            start <= i <= text@.len(),
            start < text@.len(),
            body =~= text@.subrange(start as int, text@.len() as int),
            body == unsigned_body(text@),
            forall|j: int| 0 <= j < i - start ==> is_digit(#[trigger] body[j]),
            overflowed <==> digits_value(body.take(i - start)) > u64::MAX,
            !overflowed ==> acc == digits_value(body.take(i - start)),
        decreases text@.len() - i,
    {
        let b = text[i];
        if b < ZERO_DIGIT || b > ZERO_DIGIT + 9 {
            assert(body[i - start] == b);
            assert(!is_digit(body[i - start]));
            assert(!(forall|j: int| 0 <= j < body.len() ==> is_digit(#[trigger] body[j])));
            assert(body == unsigned_body(text@));
            return Err(SeedParseError);
        }
        let ghost prefix = body.take(i - start + 1);
        assert(prefix.drop_last() =~= body.take(i - start));
        assert(prefix.last() == b);
        assert(digits_value(prefix) == digits_value(body.take(i - start)) * 10 + (b - ZERO_DIGIT) as nat);
        if !overflowed {
            let d: u64 = (b - ZERO_DIGIT) as u64;
            if acc > (u64::MAX - d) / 10 {
                overflowed = true;
                assert(acc * 10 + d > u64::MAX) by (nonlinear_arith)
                    requires
                        acc > (u64::MAX - d) / 10,
                        d <= 9,
                ;
            } else {
                assert(acc * 10 + d <= u64::MAX) by (nonlinear_arith)
                    requires
                        acc <= (u64::MAX - d) / 10,
                        d <= 9,
                ;
                acc = acc * 10 + d;
            }
        } else {
            assert(digits_value(prefix) >= digits_value(body.take(i - start)));
        }
        i = i + 1;
    }
    assert(body.take(i - start) =~= body);
    if overflowed {
        Err(SeedParseError)
    } else {
        Ok(acc)
    }
}

/// The decimal digits of `n` are digits, and read back as `n`.
proof fn lemma_decimal_digits_value(n: nat)
    ensures
        decimal_digits(n).len() > 0,
        decimal_digits(n)[0] != PLUS_SIGN,
        forall|i: int| 0 <= i < decimal_digits(n).len() ==> is_digit(#[trigger] decimal_digits(n)[i]),
        digits_value(decimal_digits(n)) == n,
    decreases n,
{
    let s = decimal_digits(n);
    if n >= 10 {
        lemma_decimal_digits_value(n / 10);
        let t = decimal_digits(n / 10);
        assert(s.drop_last() =~= t);
        assert(forall|i: int| 0 <= i < t.len() ==> s[i] == t[i]);
        assert(s.last() == (ZERO_DIGIT + n % 10) as u8);
        assert((s.last() - ZERO_DIGIT) as nat == n % 10);
        assert(n == (n / 10) * 10 + n % 10);
        assert(digits_value(s) == digits_value(t) * 10 + (s.last() - ZERO_DIGIT) as nat);
    } else {
        assert(s.drop_last() =~= Seq::<u8>::empty());
        assert(s.last() == (ZERO_DIGIT + n) as u8);
        assert(digits_value(s) == digits_value(s.drop_last()) * 10 + (s.last() - ZERO_DIGIT) as nat);
        assert(digits_value(Seq::<u8>::empty()) == 0);
    }
}

/// Saving a seed and loading the saved text gives back the same seed.
pub proof fn lemma_seed_round_trip(seed: u64)
    ensures
        seed_from_text(decimal_digits(seed as nat)) == Some(seed),
{
    lemma_decimal_digits_value(seed as nat);
}

} // verus!
