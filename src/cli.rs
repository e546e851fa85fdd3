//! Parsing of command-line values.

use vstd::prelude::*;
use vstd::string::StrSliceExecFns;

verus! {

pub open spec fn spec_is_digit(c: char) -> bool {
    '0' <= c && c <= '9'
}

/// The number written by the decimal digits `s`.
pub open spec fn spec_digits_value(s: Seq<char>) -> nat
    decreases s.len(),
{
    if s.len() == 0 {
        0
    } else {
        spec_digits_value(s.drop_last()) * 10 + (s.last() as u32 - '0' as u32) as nat
    }
}

/// What `str::parse::<u32>` accepts: an optional `+`, then one or more decimal
/// digits whose value fits in `u32`.
pub open spec fn spec_parse_u32(s: Seq<char>) -> Option<u32> {
    spec_parse_digits(if s.len() > 1 && s[0] == '+' { s.skip(1) } else { s })
}

/// One or more decimal digits whose value fits in `u32`.
pub open spec fn spec_parse_digits(digits: Seq<char>) -> Option<u32> {
    if digits.len() > 0 && (forall|i: int| 0 <= i < digits.len() ==> spec_is_digit(#[trigger] digits[i]))
        && spec_digits_value(digits) <= u32::MAX {
        Some(spec_digits_value(digits) as u32)
    } else {
        None
    }
}

proof fn lemma_digits_value_grows(s: Seq<char>, k: int)
    requires
        0 <= k <= s.len(),
        forall|i: int| 0 <= i < s.len() ==> spec_is_digit(#[trigger] s[i]),
    ensures
        spec_digits_value(s.take(k)) <= spec_digits_value(s),
    decreases s.len() - k,
{
    if k < s.len() {
        lemma_digits_value_grows(s, k + 1);
        assert(s.take(k + 1).drop_last() =~= s.take(k));
    } else {
        assert(s.take(k) =~= s);
    }
}

/// The characters `from..to` of `s` read as a `u32`, as `str::parse` reads them.
fn parse_u32(s: &str, from: usize, to: usize) -> (r: Option<u32>)
    requires
        from <= to <= s@.len(),
    ensures
        r == spec_parse_u32(s@.subrange(from as int, to as int)),
{
    let ghost whole = s@.subrange(from as int, to as int);
    let mut start = from;
    if to - from > 1 && s.get_char(from) == '+' {
        start = from + 1;
    }
    let ghost digits = s@.subrange(start as int, to as int);
    assert(digits =~= if whole.len() > 1 && whole[0] == '+' { whole.skip(1) } else { whole });
    if start == to {
        return None;
    }
    let mut value: u64 = 0;
    let mut i = start;
    while i < to
        invariant
            from <= start <= i <= to <= s@.len(),
            digits == s@.subrange(start as int, to as int),
            whole == s@.subrange(from as int, to as int),
            digits == (if whole.len() > 1 && whole[0] == '+' { whole.skip(1) } else { whole }),
            forall|j: int| 0 <= j < i - start ==> spec_is_digit(#[trigger] digits[j]),
            value == spec_digits_value(digits.take(i - start)),
            value <= u32::MAX,
        decreases to - i,
    {
        let c = s.get_char(i);
        assert(digits[i - start] == c);
        if !('0' <= c && c <= '9') {
            assert(!spec_is_digit(digits[i - start]));
            assert(!(forall|j: int| 0 <= j < digits.len() ==> spec_is_digit(#[trigger] digits[j])));
            assert(spec_parse_digits(digits) is None);
            return None;
        }
        assert(digits.take(i - start + 1).drop_last() =~= digits.take(i - start));
        assert(digits.take(i - start + 1).last() == c);
        value = value * 10 + (c as u32 - '0' as u32) as u64;
        i = i + 1;
        if value > u32::MAX as u64 {
            proof {
                assert(value == spec_digits_value(digits.take(i - start)));
                if forall|j: int| 0 <= j < digits.len() ==> spec_is_digit(#[trigger] digits[j]) {
                    lemma_digits_value_grows(digits, i - start);
                }
                assert(spec_parse_digits(digits) is None);
            }
            return None;
        }
    }
    assert(digits.take(to - start) =~= digits);
    Some(value as u32)
}

/// What a `WIDTHxHEIGHT` value means: exactly one `x`, a `u32` on each side
/// (as `str::parse` reads it), neither of them zero.
pub open spec fn spec_parse_dimensions(s: Seq<char>) -> Option<(u32, u32)> {
    let x = choose|i: int| 0 <= i < s.len() && s[i] == 'x';
    if spec_count_x(s) != 1 {
        None
    } else {
        match (spec_parse_u32(s.take(x)), spec_parse_u32(s.skip(x + 1))) {
            (Some(w), Some(h)) => if w != 0 && h != 0 { Some((w, h)) } else { None },
            _ => None,
        }
    }
}

/// How many times `x` occurs in `s`.
pub open spec fn spec_count_x(s: Seq<char>) -> nat
    decreases s.len(),
{
    if s.len() == 0 {
        0
    } else {
        spec_count_x(s.drop_last()) + if s.last() == 'x' { 1nat } else { 0nat }
    }
}

proof fn lemma_count_x_single(s: Seq<char>, k: int)
    requires
        0 <= k < s.len(),
        s[k] == 'x',
        forall|j: int| 0 <= j < s.len() && j != k ==> s[j] != 'x',
    ensures
        spec_count_x(s) == 1,
    decreases s.len(),
{
    if k < s.len() - 1 {
        lemma_count_x_single(s.drop_last(), k);
    } else {
        lemma_count_x_none(s.drop_last());
    }
}

proof fn lemma_count_x_none(s: Seq<char>)
    requires
        forall|j: int| 0 <= j < s.len() ==> s[j] != 'x',
    ensures
        spec_count_x(s) == 0,
    decreases s.len(),
{
    if s.len() > 0 {
        lemma_count_x_none(s.drop_last());
    }
}

proof fn lemma_count_x_two(s: Seq<char>, a: int, b: int)
    requires
        0 <= a < b < s.len(),
        s[a] == 'x',
        s[b] == 'x',
    ensures
        spec_count_x(s) >= 2,
    decreases s.len(),
{
    if b < s.len() - 1 {
        lemma_count_x_two(s.drop_last(), a, b);
    } else {
        lemma_count_x_one(s.drop_last(), a);
    }
}

proof fn lemma_count_x_one(s: Seq<char>, a: int)
    requires
        0 <= a < s.len(),
        s[a] == 'x',
    ensures
        spec_count_x(s) >= 1,
    decreases s.len(),
{
    if a < s.len() - 1 {
        lemma_count_x_one(s.drop_last(), a);
    }
}

/// Parses `WIDTHxHEIGHT`, as in `1920x1080`.
pub fn parse_dimensions(s: &str) -> (r: Result<(u32, u32), String>)
    ensures
        r matches Ok(d) ==> spec_parse_dimensions(s@) == Some(d),
        r is Err ==> spec_parse_dimensions(s@) is None,
        spec_count_x(s@) != 1 ==> (r matches Err(m)
            && m@ == "Dimensions must be in format 'WIDTHxHEIGHT' (e.g., '1920x1080')"@),
{
    let n = s.unicode_len();
    let mut found: Option<usize> = None;
    let mut i: usize = 0;
    while i < n
        invariant
            n == s@.len(),
            i <= n,
            found matches Some(k) ==> k < i && s@[k as int] == 'x'
                && forall|j: int| 0 <= j < i && j != k ==> s@[j] != 'x',
            found is None ==> forall|j: int| 0 <= j < i ==> s@[j] != 'x',
        decreases n - i,
    {
        if s.get_char(i) == 'x' {
            match found {
                Some(k) => {
                    proof { lemma_count_x_two(s@, k as int, i as int); }
                    return Err("Dimensions must be in format 'WIDTHxHEIGHT' (e.g., '1920x1080')".to_owned());
                },
                None => {
                    found = Some(i);
                },
            }
        }
        i = i + 1;
    }
    let x = match found {
        None => {
            proof { lemma_count_x_none(s@); }
            return Err("Dimensions must be in format 'WIDTHxHEIGHT' (e.g., '1920x1080')".to_owned());
        },
        Some(k) => k,
    };
    proof {
        lemma_count_x_single(s@, x as int);
        let c = choose|i: int| 0 <= i < s@.len() && s@[i] == 'x';
        assert(c == x);
        assert(s@.subrange(0, x as int) =~= s@.take(x as int));
        assert(s@.subrange(x + 1, n as int) =~= s@.skip(x + 1));
    }
    let width = match parse_u32(s, 0, x) {
        Some(w) => w,
        None => return Err("Invalid width value".to_owned()),
    };
    let height = match parse_u32(s, x + 1, n) {
        Some(h) => h,
        None => return Err("Invalid height value".to_owned()),
    };
    if width == 0 || height == 0 {
        return Err("Width and height must be greater than 0".to_owned());
    }
    Ok((width, height))
}

} // verus!
