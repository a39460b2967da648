//! The window-size argument: `WxH`, two decimal integers separated by
//! one `x`.

use vstd::prelude::*;

verus! {

/// A window size in pixels: width and height.
#[derive(Clone, Copy, Debug, PartialEq, Eq, Structural)]
pub struct Size(pub i32, pub i32);

/// Why a size string was rejected.
#[derive(Clone, Copy, Debug, PartialEq, Eq, Structural)]
pub enum SizeError {
    /// The part before the `x` is not an integer in range.
    BadWidth,
    /// There is no `x`, so no height part.
    MissingHeight,
    /// The part after the `x` is not an integer in range.
    BadHeight,
    /// A second `x` starts an unexpected third part.
    TrailingPart,
}

/// True for a decimal digit.
pub open spec fn is_digit(c: char) -> bool {
    48 <= c as u32 <= 57
}

/// The value of a decimal digit.
pub open spec fn digit_val(c: char) -> int {
    c as u32 - 48
}

/// True when every character is a decimal digit.
pub open spec fn all_digits(s: Seq<char>) -> bool {
    forall|i: int| 0 <= i < s.len() ==> is_digit(#[trigger] s[i])
}

/// The value of a digit string, most significant first.
pub open spec fn digits_val(s: Seq<char>) -> int
    decreases s.len(),
{
    if s.len() == 0 {
        0
    } else {
        digits_val(s.drop_last()) * 10 + digit_val(s.last())
    }
}

/// The integer a string denotes: an optional sign, then at least one
/// digit, and a value that fits an `i32`.
pub open spec fn int_spec(s: Seq<char>) -> Option<int> {
    if s.len() == 0 {
        None
    } else {
        let (sign, digits) = if s[0] == '+' {
            (1int, s.drop_first())
        } else if s[0] == '-' {
            (-1int, s.drop_first())
        } else {
            (1int, s)
        };
        if digits.len() == 0 || !all_digits(digits) {
            None
        } else {
            let v = sign * digits_val(digits);
            if -0x8000_0000 <= v <= 0x7fff_ffff {
                Some(v)
            } else {
                None
            }
        }
    }
}

/// The index of the first `x`, or the length if there is none.
pub open spec fn first_x(s: Seq<char>) -> int
    decreases s.len(),
{
    if s.len() == 0 {
        0
    } else if s[0] == 'x' {
        0
    } else {
        1 + first_x(s.drop_first())
    }
}

/// What parsing `WxH` yields: the width up to the first `x`, the
/// height after it, and nothing further.
pub open spec fn size_spec(s: Seq<char>) -> Result<Size, SizeError> {
    let i = first_x(s);
    match int_spec(s.take(i)) {
        None => Err(SizeError::BadWidth),
        Some(w) => if i == s.len() {
            Err(SizeError::MissingHeight)
        } else {
            let rest = s.skip(i + 1);
            let j = first_x(rest);
            match int_spec(rest.take(j)) {
                None => Err(SizeError::BadHeight),
                Some(h) => if j < rest.len() {
                    Err(SizeError::TrailingPart)
                } else {
                    Ok(Size(w as i32, h as i32))
                },
            }
        },
    }
}

/// `first_x` points at an `x` or past the end, and nothing before it
/// is an `x`.
proof fn lemma_first_x(s: Seq<char>)
    ensures
        0 <= first_x(s) <= s.len(),
        first_x(s) < s.len() ==> s[first_x(s)] == 'x',
        forall|i: int| 0 <= i < first_x(s) ==> s[i] != 'x',
    decreases s.len(),
{
    if s.len() == 0 {
    } else if s[0] == 'x' {
    } else {
        lemma_first_x(s.drop_first());
        assert forall|i: int| 0 <= i < first_x(s) implies s[i] != 'x' by {
            if i >= 1 {
                assert(s.drop_first()[i - 1] == s[i]);
            }
        }
    }
}

/// A digit string's value is not negative, and grows (weakly) with
/// each appended digit.
proof fn lemma_digits_val_bounds(s: Seq<char>)
    requires
        all_digits(s),
    ensures
        0 <= digits_val(s),
        s.len() > 0 ==> digits_val(s.drop_last()) <= digits_val(s),
    decreases s.len(),
{
    if s.len() == 0 {
    } else {
        assert(all_digits(s.drop_last()));
        lemma_digits_val_bounds(s.drop_last());
        assert(digits_val(s.drop_last()) * 10 >= digits_val(s.drop_last())) by (nonlinear_arith)
            requires
                digits_val(s.drop_last()) >= 0,
        ;
    }
}

/// A digit prefix never exceeds the whole string's value.
proof fn lemma_digits_prefix(s: Seq<char>, i: int)
    requires
        all_digits(s),
        0 <= i <= s.len(),
    ensures
        digits_val(s.take(i)) <= digits_val(s),
    decreases s.len() - i,
{
    if i == s.len() {
        assert(s.take(i) =~= s);
    } else {
        lemma_digits_prefix(s, i + 1);
        assert(s.take(i + 1).drop_last() =~= s.take(i));
        assert(all_digits(s.take(i + 1)));
        lemma_digits_val_bounds(s.take(i + 1));
    }
}

/// Reads the digit run `s[from..to]` as an integer, reporting `None`
/// on an empty run, a non-digit, or overflow past the `i32` range
/// (`limit` is the largest magnitude allowed: `2^31` for a negated
/// value, `2^31 - 1` otherwise).
fn parse_digits(s: &str, from: usize, to: usize, limit: i64) -> (r: Option<i64>)
    requires
        from <= to <= s@.len(),
        0 < limit <= 0x8000_0000,
    ensures
        match r {
            Some(v) => {
                &&& to > from
                &&& all_digits(s@.subrange(from as int, to as int))
                &&& v == digits_val(s@.subrange(from as int, to as int))
                &&& 0 <= v <= limit
            },
            None => to == from || !all_digits(s@.subrange(from as int, to as int)) || digits_val(
                s@.subrange(from as int, to as int),
            ) > limit,
        },
{
    if to == from {
        return None;
    }
    let ghost digits = s@.subrange(from as int, to as int);
    let mut acc: i64 = 0;
    let mut i: usize = from;
    while i < to
        invariant
            from <= i <= to <= s@.len(),
            digits == s@.subrange(from as int, to as int),
            0 < limit <= 0x8000_0000,
            all_digits(digits.take(i - from)),
            acc == digits_val(digits.take(i - from)),
            0 <= acc <= limit,
        decreases to - i,
    {
        let c: char = s.get_char(i);
        let code: u32 = c as u32;
        proof {
            assert(digits[i - from] == s@[i as int]);
        }
        if code < 48 || code > 57 {
            proof {
                assert(!is_digit(digits[i - from]));
            }
            return None;
        }
        let d: i64 = (code - 48) as i64;
        let next: i64 = acc * 10 + d;
        proof {
            assert(digits.take(i - from + 1).drop_last() =~= digits.take(i - from));
            assert(digits.take(i - from + 1).last() == digits[i - from]);
        }
        if next > limit {
            proof {
                assert(all_digits(digits.take(i - from + 1)));
                if all_digits(digits) {
                    lemma_digits_prefix(digits, i - from + 1);
                }
            }
            return None;
        }
        acc = next;
        i = i + 1;
    }
    proof {
        assert(digits.take(to - from) =~= digits);
    }
    Some(acc)
}

/// Reads one part (an optionally signed integer) between `from` and
/// `to`, matching [`int_spec`] on that subrange.
fn parse_int(s: &str, from: usize, to: usize) -> (r: Option<i32>)
    requires
        from <= to <= s@.len(),
    ensures
        match r {
            Some(v) => int_spec(s@.subrange(from as int, to as int)) == Some(v as int),
            None => int_spec(s@.subrange(from as int, to as int)) is None,
        },
{
    let ghost part = s@.subrange(from as int, to as int);
    if to == from {
        return None;
    }
    let c0: char = s.get_char(from);
    let (neg, dstart): (bool, usize) = if c0 == '+' {
        (false, from + 1)
    } else if c0 == '-' {
        (true, from + 1)
    } else {
        (false, from)
    };
    let ghost digits = s@.subrange(dstart as int, to as int);
    proof {
        assert(part[0] == s@[from as int]);
        if dstart == from + 1 {
            assert(part.drop_first() =~= digits);
        } else {
            assert(part =~= digits);
        }
    }
    let limit: i64 = if neg {
        0x8000_0000
    } else {
        0x7fff_ffff
    };
    match parse_digits(s, dstart, to, limit) {
        Some(v) => {
            proof {
                lemma_digits_val_bounds(digits);
                assert(digits.len() > 0 && all_digits(digits));
                if part[0] == '+' {
                    assert(int_spec(part) == Some(1 * digits_val(digits)));
                } else if part[0] == '-' {
                    assert(int_spec(part) == Some(-1 * digits_val(digits)));
                } else {
                    assert(int_spec(part) == Some(1 * digits_val(digits)));
                }
            }
            if neg {
                Some((-v) as i32)
            } else {
                Some(v as i32)
            }
        },
        None => {
            proof {
                if digits.len() > 0 && all_digits(digits) {
                    lemma_digits_val_bounds(digits);
                }
            }
            None
        },
    }
}

/// Finds the first `x` at or after `from`, or the end of the string.
fn find_x(s: &str, from: usize) -> (r: usize)
    requires
        from <= s@.len(),
    ensures
        from <= r <= s@.len(),
        r - from == first_x(s@.skip(from as int)),
{
    let n: usize = s.unicode_len();
    let mut i: usize = from;
    while i < n
        invariant
            from <= i <= n == s@.len(),
            first_x(s@.skip(from as int)) == (i - from) + first_x(s@.skip(i as int)),
            forall|j: int| from <= j < i ==> s@[j] != 'x',
        decreases n - i,
    {
        let c: char = s.get_char(i);
        proof {
            assert(s@.skip(i as int)[0] == s@[i as int]);
            assert(s@.skip(i as int).drop_first() =~= s@.skip(i + 1));
        }
        if c == 'x' {
            proof {
                assert(first_x(s@.skip(i as int)) == 0);
            }
            return i;
        }
        i = i + 1;
    }
    proof {
        assert(s@.skip(n as int).len() == 0);
    }
    n
}

impl Size {
    /// Parses `WxH`: a width, one `x`, a height, nothing more.
    pub fn from_str(s: &str) -> (r: Result<Size, SizeError>)
        ensures
            r == size_spec(s@),
    {
        let n: usize = s.unicode_len();
        let i: usize = find_x(s, 0);
        proof {
            assert(s@.skip(0) =~= s@);
            assert(s@.subrange(0, i as int) =~= s@.take(i as int));
        }
        let w: i32 = match parse_int(s, 0, i) {
            Some(w) => w,
            None => {
                return Err(SizeError::BadWidth);
            },
        };
        if i == n {
            return Err(SizeError::MissingHeight);
        }
        let ghost rest = s@.skip(i + 1);
        let j: usize = find_x(s, i + 1);
        proof {
            assert(first_x(rest) == j - (i + 1));
            assert(s@.subrange(i + 1, j as int) =~= rest.take(j - (i + 1)));
        }
        let h: i32 = match parse_int(s, i + 1, j) {
            Some(h) => h,
            None => {
                return Err(SizeError::BadHeight);
            },
        };
        if j < n {
            return Err(SizeError::TrailingPart);
        }
        Ok(Size(w, h))
    }
}

} // verus!
