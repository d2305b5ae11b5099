//! Layout unit values and the parser for their textual form.
//!
//! A unit is written as `auto`, or as a decimal number followed by a
//! suffix: `%` (percentage), `s` (stretch), or a length — `px` and the
//! absolute units `in`, `cm`, `mm`, `q`, `pt`, `pc`, each converted to
//! pixels by its fixed ratio. Numeric values are held in fixed point, in
//! millionths: up to nine integer digits and up to six fraction digits.
use vstd::prelude::*;
use crate::SCALE;

verus! {

/// A layout unit for a size or position, with numeric values in millionths.
#[derive(Clone, Copy, PartialEq, Eq, Structural, Debug)]
pub enum Units {
    /// Let layout decide.
    Auto,
    /// A length in pixels.
    Pixels(i64),
    /// A percentage of the parent's size.
    Percentage(i64),
    /// A share of the free space.
    Stretch(i64),
}

/// A stylesheet that failed to re-parse: the position of the first
/// declaration that is not a well-formed unit.
#[derive(Clone, Copy, PartialEq, Eq, Structural, Debug)]
pub struct StyleError {
    pub index: usize,
}

/// ASCII decimal digit.
pub open spec fn is_digit(b: u8) -> bool {
    48 <= b <= 57
}

/// Whether every byte in `[a, b)` is a decimal digit.
pub open spec fn all_digits_range(s: Seq<u8>, a: int, b: int) -> bool {
    forall|i: int| a <= i < b ==> is_digit(#[trigger] s[i])
}

/// The value of the decimal digits in `[a, b)`.
pub open spec fn digits_val_range(s: Seq<u8>, a: int, b: int) -> int
    decreases b - a,
{
    if a >= b {
        0
    } else {
        digits_val_range(s, a, b - 1) * 10 + (s[b - 1] - 48)
    }
}

/// Ten to the `n`.
pub open spec fn pow10(n: int) -> int
    decreases n,
{
    if n <= 0 {
        1
    } else {
        10 * pow10(n - 1)
    }
}

/// `n` digits encode a value below ten to the `n`.
pub proof fn lemma_digits_val_range_bound(s: Seq<u8>, a: int, b: int)
    requires
        all_digits_range(s, a, b),
    ensures
        0 <= digits_val_range(s, a, b) < pow10(b - a),
    decreases b - a,
{
    if a < b {
        lemma_digits_val_range_bound(s, a, b - 1);
    }
}

/// Powers of ten are positive.
pub proof fn lemma_pow10_pos(m: int)
    ensures
        pow10(m) >= 1,
    decreases (if m <= 0 {
        0int
    } else {
        m
    }),
{
    if m > 0 {
        lemma_pow10_pos(m - 1);
    }
}

/// Powers of ten grow with the exponent.
pub proof fn lemma_pow10_monotone(m: int, n: int)
    requires
        m <= n,
    ensures
        1 <= pow10(m) <= pow10(n),
    decreases n - m,
{
    lemma_pow10_pos(m);
    if m < n {
        lemma_pow10_monotone(m, n - 1);
        lemma_pow10_pos(n - 1);
    }
}

/// The concrete powers of ten the parser works with.
pub proof fn lemma_pow10_values()
    ensures
        pow10(0) == 1,
        pow10(1) == 10,
        pow10(2) == 100,
        pow10(3) == 1000,
        pow10(4) == 10000,
        pow10(5) == 100000,
        pow10(6) == 1000000,
        pow10(7) == 10000000,
        pow10(8) == 100000000,
        pow10(9) == 1000000000,
{
    assert(pow10(0) == 1);
    assert(pow10(1) == 10);
    assert(pow10(2) == 100);
    assert(pow10(3) == 1000);
    assert(pow10(4) == 10000);
    assert(pow10(5) == 100000);
    assert(pow10(6) == 1000000);
    assert(pow10(7) == 10000000);
    assert(pow10(8) == 100000000);
    assert(pow10(9) == 1000000000);
}

/// The first position in `[a, b)` holding a dot, or `b` if there is none.
pub open spec fn first_dot_from(s: Seq<u8>, a: int, b: int) -> int
    decreases b - a,
{
    if a >= b {
        b
    } else if s[a] == 46 {
        a
    } else {
        first_dot_from(s, a + 1, b)
    }
}

/// The first position at or after `a` whose byte is neither a digit nor a
/// dot, or the length if all are.
pub open spec fn num_end_from(s: Seq<u8>, a: int) -> int
    decreases s.len() - a,
{
    if a < 0 || a >= s.len() {
        a
    } else if is_digit(s[a]) || s[a] == 46 {
        num_end_from(s, a + 1)
    } else {
        a
    }
}

/// The fixed-point value, in millionths, of the decimal number written in
/// `[a, b)`: up to nine integer digits, optionally followed by a dot and one
/// to six fraction digits. `None` when the range is not of that form.
pub open spec fn number_val_range(s: Seq<u8>, a: int, b: int) -> Option<int> {
    let d = first_dot_from(s, a, b);
    if d == b {
        if 1 <= b - a <= 9 && all_digits_range(s, a, b) {
            Option::Some(digits_val_range(s, a, b) * SCALE)
        } else {
            Option::None
        }
    } else {
        if 1 <= d - a <= 9 && all_digits_range(s, a, d) && 1 <= b - d - 1 <= 6 && all_digits_range(
            s,
            d + 1,
            b,
        ) {
            Option::Some(
                digits_val_range(s, a, d) * SCALE + digits_val_range(s, d + 1, b) * pow10(
                    6 - (b - d - 1),
                ),
            )
        } else {
            Option::None
        }
    }
}

/// Whether `s` spells `auto`.
pub open spec fn is_auto(s: Seq<u8>) -> bool {
    s.len() == 4 && s[0] == 97 && s[1] == 117 && s[2] == 116 && s[3] == 111
}

/// A magnitude with the sign of the written number put back on.
pub open spec fn signed_val(neg: bool, x: int) -> int {
    if neg {
        -x
    } else {
        x
    }
}

/// What a unit token parses to: `auto`, or an optional minus sign, a
/// decimal number, and a suffix. `px`, `%` and `s` carry the value as
/// written; the absolute-length suffixes convert to pixels by their fixed
/// ratios — an inch is 96 pixels, a point 96/72, a pica 16, and the metric
/// lengths go through the 2.54 cm inch (a `q` is a quarter millimetre) —
/// truncating the result. `None` when the token is not of that form.
pub open spec fn parse_unit_spec(s: Seq<u8>) -> Option<Units> {
    if is_auto(s) {
        Option::Some(Units::Auto)
    } else {
        let neg = s.len() > 0 && s[0] == 45;
        let a: int = if neg {
            1
        } else {
            0
        };
        let ne = num_end_from(s, a);
        match number_val_range(s, a, ne) {
            Option::None => Option::None,
            Option::Some(v0) => {
                if s.len() == ne + 2 && s[ne] == 112 && s[ne + 1] == 120 {
                    Option::Some(Units::Pixels(signed_val(neg, v0) as i64))
                } else if s.len() == ne + 2 && s[ne] == 105 && s[ne + 1] == 110 {
                    Option::Some(Units::Pixels(signed_val(neg, v0 * 96) as i64))
                } else if s.len() == ne + 2 && s[ne] == 99 && s[ne + 1] == 109 {
                    Option::Some(Units::Pixels(signed_val(neg, (v0 * 4800) / 127) as i64))
                } else if s.len() == ne + 2 && s[ne] == 109 && s[ne + 1] == 109 {
                    Option::Some(Units::Pixels(signed_val(neg, (v0 * 480) / 127) as i64))
                } else if s.len() == ne + 2 && s[ne] == 112 && s[ne + 1] == 116 {
                    Option::Some(Units::Pixels(signed_val(neg, (v0 * 4) / 3) as i64))
                } else if s.len() == ne + 2 && s[ne] == 112 && s[ne + 1] == 99 {
                    Option::Some(Units::Pixels(signed_val(neg, v0 * 16) as i64))
                } else if s.len() == ne + 1 && s[ne] == 113 {
                    Option::Some(Units::Pixels(signed_val(neg, (v0 * 120) / 127) as i64))
                } else if s.len() == ne + 1 && s[ne] == 37 {
                    Option::Some(Units::Percentage(signed_val(neg, v0) as i64))
                } else if s.len() == ne + 1 && s[ne] == 115 {
                    Option::Some(Units::Stretch(signed_val(neg, v0) as i64))
                } else {
                    Option::None
                }
            },
        }
    }
}

/// Ten to the `n`, executable.
fn pow10_exec(n: u32) -> (r: i64)
    requires
        n <= 6,
    ensures
        r == pow10(n as int),
{
    let mut r: i64 = 1;
    let mut i: u32 = 0;
    while i < n
        invariant
            i <= n <= 6,
            r == pow10(i as int),
        decreases n - i,
    {
        proof {
            lemma_pow10_monotone(i as int, 6);
            lemma_pow10_values();
        }
        r = r * 10;
        i = i + 1;
    }
    r
}

/// Reads the decimal digits in `[a, b)`.
fn read_digits(tok: &Vec<u8>, a: usize, b: usize) -> (r: i64)
    requires
        a <= b <= tok@.len(),
        b - a <= 9,
        all_digits_range(tok@, a as int, b as int),
    ensures
        r == digits_val_range(tok@, a as int, b as int),
{
    let mut acc: i64 = 0;
    let mut i: usize = a;
    while i < b
        invariant
            a <= i <= b <= tok@.len(),
            b - a <= 9,
            all_digits_range(tok@, a as int, b as int),
            acc == digits_val_range(tok@, a as int, i as int),
        decreases b - i,
    {
        proof {
            lemma_digits_val_range_bound(tok@, a as int, i as int);
            lemma_pow10_monotone(i as int - a, 8);
            lemma_pow10_values();
        }
        acc = acc * 10 + ((tok[i] - 48) as i64);
        i = i + 1;
    }
    acc
}

/// Parses one unit token; `None` when it is not a well-formed unit.
pub fn parse_unit(tok: &Vec<u8>) -> (r: Option<Units>)
    ensures
        r == parse_unit_spec(tok@),
{
    let n = tok.len();
    if n == 4 && tok[0] == 97 && tok[1] == 117 && tok[2] == 116 && tok[3] == 111 {
        return Option::Some(Units::Auto);
    }
    let a: usize = if n > 0 && tok[0] == 45 {
        1
    } else {
        0
    };
    // Scan the numeric part.
    let mut ne: usize = a;
    while ne < n && ((48 <= tok[ne] && tok[ne] <= 57) || tok[ne] == 46)
        invariant
            a <= ne <= n == tok@.len(),
            num_end_from(tok@, a as int) == num_end_from(tok@, ne as int),
        decreases n - ne,
    {
        ne = ne + 1;
    }
    proof {
        assert(num_end_from(tok@, a as int) == ne);
    }
    // Find the dot within it.
    let mut d: usize = a;
    while d < ne && tok[d] != 46
        invariant
            a <= d <= ne <= tok@.len(),
            first_dot_from(tok@, a as int, ne as int) == first_dot_from(tok@, d as int, ne as int),
        decreases ne - d,
    {
        d = d + 1;
    }
    proof {
        assert(first_dot_from(tok@, a as int, ne as int) == d);
    }
    // Check digits and widths.
    let int_end: usize = d;
    if int_end - a < 1 || int_end - a > 9 {
        return Option::None;
    }
    let mut i: usize = a;
    while i < int_end && 48 <= tok[i] && tok[i] <= 57
        invariant
            a <= i <= int_end <= tok@.len(),
            all_digits_range(tok@, a as int, i as int),
        decreases int_end - i,
    {
        i = i + 1;
    }
    if i < int_end {
        proof {
            assert(!is_digit(tok@[i as int]));
        }
        return Option::None;
    }
    let v0: i64;
    if d == ne {
        proof {
            lemma_digits_val_range_bound(tok@, a as int, d as int);
            lemma_pow10_monotone(d as int - a, 9);
            lemma_pow10_values();
        }
        v0 = read_digits(tok, a, d) * 1_000_000;
    } else {
        let fa = d + 1;
        if ne - fa < 1 || ne - fa > 6 {
            return Option::None;
        }
        let mut j: usize = fa;
        while j < ne && 48 <= tok[j] && tok[j] <= 57
            invariant
                fa <= j <= ne <= tok@.len(),
                all_digits_range(tok@, fa as int, j as int),
            decreases ne - j,
        {
            j = j + 1;
        }
        if j < ne {
            proof {
                assert(!is_digit(tok@[j as int]));
            }
            return Option::None;
        }
        proof {
            lemma_digits_val_range_bound(tok@, a as int, d as int);
            lemma_pow10_monotone(d as int - a, 9);
            lemma_digits_val_range_bound(tok@, fa as int, ne as int);
            lemma_pow10_monotone((ne - fa) as int, 6);
            lemma_pow10_monotone(6 - ((ne - fa) as int), 5);
            lemma_pow10_values();
        }
        let whole = read_digits(tok, a, d);
        let frac = read_digits(tok, fa, ne);
        let mul = pow10_exec((6 - (ne - fa)) as u32);
        proof {
            assert(0 <= frac * mul < 1_000_000_000_000i64) by (nonlinear_arith)
                requires
                    0 <= frac < 1_000_000,
                    0 <= mul <= 100_000,
            ;
        }
        v0 = whole * 1_000_000 + frac * mul;
    }
    proof {
        assert(0 <= v0 < 1_001_000_000_000_000i64);
    }
    let converted: Option<Units>;
    if n == ne + 2 && tok[ne] == 112 && tok[ne + 1] == 120 {
        converted = Option::Some(Units::Pixels(v0));
    } else if n == ne + 2 && tok[ne] == 105 && tok[ne + 1] == 110 {
        converted = Option::Some(Units::Pixels(v0 * 96));
    } else if n == ne + 2 && tok[ne] == 99 && tok[ne + 1] == 109 {
        converted = Option::Some(Units::Pixels((((v0 as u64) * 4800) / 127) as i64));
    } else if n == ne + 2 && tok[ne] == 109 && tok[ne + 1] == 109 {
        converted = Option::Some(Units::Pixels((((v0 as u64) * 480) / 127) as i64));
    } else if n == ne + 2 && tok[ne] == 112 && tok[ne + 1] == 116 {
        converted = Option::Some(Units::Pixels((((v0 as u64) * 4) / 3) as i64));
    } else if n == ne + 2 && tok[ne] == 112 && tok[ne + 1] == 99 {
        converted = Option::Some(Units::Pixels(v0 * 16));
    } else if n == ne + 1 && tok[ne] == 113 {
        converted = Option::Some(Units::Pixels((((v0 as u64) * 120) / 127) as i64));
    } else if n == ne + 1 && tok[ne] == 37 {
        converted = Option::Some(Units::Percentage(v0));
    } else if n == ne + 1 && tok[ne] == 115 {
        converted = Option::Some(Units::Stretch(v0));
    } else {
        converted = Option::None;
    }
    let neg = a == 1;
    match converted {
        Option::Some(Units::Pixels(x)) => Option::Some(
            Units::Pixels(
                if neg {
                    -x
                } else {
                    x
                },
            ),
        ),
        Option::Some(Units::Percentage(x)) => Option::Some(
            Units::Percentage(
                if neg {
                    -x
                } else {
                    x
                },
            ),
        ),
        Option::Some(Units::Stretch(x)) => Option::Some(
            Units::Stretch(
                if neg {
                    -x
                } else {
                    x
                },
            ),
        ),
        Option::Some(Units::Auto) => Option::Some(Units::Auto),
        Option::None => Option::None,
    }
}

/// The longest parsed prefix of the declarations, stopping at the first one
/// that is not a well-formed unit. This mirrors how a list of units is read
/// from a style value: values are taken while they parse.
pub open spec fn units_prefix_spec(ds: Seq<Vec<u8>>, i: int) -> Seq<Units>
    decreases ds.len() - i,
    when 0 <= i
{
    if i >= ds.len() {
        Seq::empty()
    } else {
        match parse_unit_spec(ds[i]@) {
            Option::Some(u) => seq![u] + units_prefix_spec(ds, i + 1int),
            Option::None => Seq::empty(),
        }
    }
}

/// Parses declarations until the first failure; never fails itself.
pub fn parse_units(decls: &Vec<Vec<u8>>) -> (r: Vec<Units>)
    ensures
        r@ == units_prefix_spec(decls@, 0),
{
    let mut acc: Vec<Units> = Vec::new();
    let n = decls.len();
    let mut i: usize = 0;
    while i < n
        invariant_except_break
            i <= n == decls@.len(),
            units_prefix_spec(decls@, 0) == acc@ + units_prefix_spec(decls@, i as int),
        ensures
            acc@ == units_prefix_spec(decls@, 0),
        decreases n - i,
    {
        match parse_unit(&decls[i]) {
            Option::Some(u) => {
                let ghost acc0 = acc@;
                acc.push(u);
                proof {
                    assert(acc@ + units_prefix_spec(decls@, i as int + 1) =~= acc0
                        + units_prefix_spec(decls@, i as int));
                }
            },
            Option::None => {
                proof {
                    assert(acc@ =~= acc@ + units_prefix_spec(decls@, i as int));
                }
                break ;
            },
        }
        i = i + 1;
    }
    proof {
        if i == n {
            assert(acc@ =~= acc@ + units_prefix_spec(decls@, n as int));
        }
    }
    acc
}

/// Parses a whole stylesheet: every declaration must be a well-formed unit,
/// and the first one that is not is reported.
pub fn parse_stylesheet(decls: &Vec<Vec<u8>>) -> (r: Result<Vec<Units>, StyleError>)
    ensures
        match r {
            Result::Ok(us) => us@.len() == decls@.len() && forall|j: int|
                0 <= j < decls@.len() ==> parse_unit_spec(decls@[j]@) == Option::Some(us@[j]),
            Result::Err(e) => e.index < decls@.len() && parse_unit_spec(decls@[e.index as int]@)
                is None,
        },
{
    let mut acc: Vec<Units> = Vec::new();
    let n = decls.len();
    let mut i: usize = 0;
    while i < n
        invariant
            i <= n == decls@.len(),
            acc@.len() == i,
            forall|j: int|
                0 <= j < i ==> parse_unit_spec(decls@[j]@) == Option::Some(acc@[j]),
        decreases n - i,
    {
        match parse_unit(&decls[i]) {
            Option::Some(u) => {
                acc.push(u);
            },
            Option::None => {
                return Result::Err(StyleError { index: i });
            },
        }
        i = i + 1;
    }
    Result::Ok(acc)
}

} // verus!
