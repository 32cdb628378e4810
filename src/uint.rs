use vstd::prelude::*;
use vstd::slice::slice_subrange;
use crate::decimal::{decimal_at_most, parse_decimal};

verus! {

/// `<`
pub const LT: u8 = 60;

/// `>`
pub const GT: u8 = 62;

/// `=`
pub const EQ: u8 = 61;

/// `!`
pub const BANG: u8 = 33;

/// `-`, between the bounds of a range.
pub const DASH: u8 = 45;

/// How a numeric constraint compares a value against its arguments.
#[derive(Debug, Clone, Copy, PartialEq, Eq, Structural)]
pub enum UintMode {
    Equal,
    NotEqual,
    Less,
    LessEqual,
    Greater,
    GreaterEqual,
    /// Strictly between `arg1` and `arg2`.
    Range,
}

/// A numeric constraint on an unsigned value: a mode and one or two bounds.
#[derive(Debug, Clone, Copy, PartialEq, Eq, Structural)]
pub struct DetectUintData {
    pub mode: UintMode,
    pub arg1: u32,
    pub arg2: u32,
}

/// Whether `v` satisfies the constraint `c`.
pub open spec fn uint_holds(c: DetectUintData, v: int) -> bool {
    match c.mode {
        UintMode::Equal => v == c.arg1,
        UintMode::NotEqual => v != c.arg1,
        UintMode::Less => v < c.arg1,
        UintMode::LessEqual => v <= c.arg1,
        UintMode::Greater => v > c.arg1,
        UintMode::GreaterEqual => v >= c.arg1,
        UintMode::Range => c.arg1 < v < c.arg2,
    }
}

/// The first position at or after `i` where `s` holds `c`, or -1 if there is none.
pub open spec fn first_from(s: Seq<u8>, c: u8, i: int) -> int
    decreases s.len() - i,
{
    if i < 0 || i >= s.len() {
        -1
    } else if s[i] == c {
        i
    } else {
        first_from(s, c, i + 1)
    }
}

/// The first position of `c` in `s`, or -1 if there is none.
pub open spec fn first_index(s: Seq<u8>, c: u8) -> int {
    first_from(s, c, 0)
}

/// A constraint of the given mode whose bound is the decimal `s`.
pub open spec fn single_bound(mode: UintMode, s: Seq<u8>, limit: nat) -> Option<DetectUintData> {
    match decimal_at_most(s, limit) {
        Some(v) => Some(DetectUintData { mode, arg1: v as u32, arg2: 0 }),
        None => None,
    }
}

/// A range constraint `lo-hi`, which needs `lo < hi`.
pub open spec fn range_bounds(lo: Seq<u8>, hi: Seq<u8>, limit: nat) -> Option<DetectUintData> {
    match (decimal_at_most(lo, limit), decimal_at_most(hi, limit)) {
        (Some(a), Some(b)) => if a < b {
            Some(DetectUintData { mode: UintMode::Range, arg1: a as u32, arg2: b as u32 })
        } else {
            None
        },
        _ => None,
    }
}

/// The constraint that the text `s` denotes, with every bound at most `limit`:
/// `N`, `=N`, `!N`, `!=N`, `<N`, `<=N`, `>N`, `>=N`, or the open range `N-M`,
/// where `N` and `M` are plain decimal digits. The grammar is numeric only:
/// symbolic names (such as `success` or `bind_response`), hexadecimal, spaces
/// and `<>` ranges are refused.
pub open spec fn uint_spec(s: Seq<u8>, limit: nat) -> Option<DetectUintData> {
    if s.len() >= 2 && s[0] == LT && s[1] == EQ {
        single_bound(UintMode::LessEqual, s.skip(2), limit)
    } else if s.len() >= 2 && s[0] == GT && s[1] == EQ {
        single_bound(UintMode::GreaterEqual, s.skip(2), limit)
    } else if s.len() >= 2 && s[0] == BANG && s[1] == EQ {
        single_bound(UintMode::NotEqual, s.skip(2), limit)
    } else if s.len() >= 1 && s[0] == LT {
        single_bound(UintMode::Less, s.skip(1), limit)
    } else if s.len() >= 1 && s[0] == GT {
        single_bound(UintMode::Greater, s.skip(1), limit)
    } else if s.len() >= 1 && s[0] == BANG {
        single_bound(UintMode::NotEqual, s.skip(1), limit)
    } else if s.len() >= 1 && s[0] == EQ {
        single_bound(UintMode::Equal, s.skip(1), limit)
    } else if first_index(s, DASH) >= 0 {
        range_bounds(s.take(first_index(s, DASH)), s.skip(first_index(s, DASH) + 1), limit)
    } else {
        single_bound(UintMode::Equal, s, limit)
    }
}

/// The first position of `c` in `b`, if any.
pub fn find_byte(b: &[u8], c: u8) -> (r: Option<usize>)
    ensures
        r is None <==> first_index(b@, c) < 0,
        r is Some ==> r->0 == first_index(b@, c) && r->0 < b@.len(),
{
    let len = b.len();
    let mut i: usize = 0;
    while i < len
        invariant
            len == b@.len(),
            i <= len,
            first_index(b@, c) == first_from(b@, c, i as int),
        decreases len - i,
    {
        if b[i] == c {
            return Some(i);
        }
        i += 1;
    }
    None
}

fn single_bound_of(mode: UintMode, b: &[u8], limit: u64) -> (r: Option<DetectUintData>)
    requires
        limit <= u32::MAX,
    ensures
        r == single_bound(mode, b@, limit as nat),
{
    match parse_decimal(b, limit) {
        Some(v) => Some(DetectUintData { mode, arg1: v as u32, arg2: 0 }),
        None => None,
    }
}

/// Parses the text of a numeric constraint whose bounds are at most `limit`.
pub fn detect_parse_uint(b: &[u8], limit: u64) -> (r: Option<DetectUintData>)
    requires
        limit <= u32::MAX,
    ensures
        r == uint_spec(b@, limit as nat),
{
    let len = b.len();
    if len >= 2 && b[0] == LT && b[1] == EQ {
        single_bound_of(UintMode::LessEqual, slice_subrange(b, 2, len), limit)
    } else if len >= 2 && b[0] == GT && b[1] == EQ {
        single_bound_of(UintMode::GreaterEqual, slice_subrange(b, 2, len), limit)
    } else if len >= 2 && b[0] == BANG && b[1] == EQ {
        single_bound_of(UintMode::NotEqual, slice_subrange(b, 2, len), limit)
    } else if len >= 1 && b[0] == LT {
        single_bound_of(UintMode::Less, slice_subrange(b, 1, len), limit)
    } else if len >= 1 && b[0] == GT {
        single_bound_of(UintMode::Greater, slice_subrange(b, 1, len), limit)
    } else if len >= 1 && b[0] == BANG {
        single_bound_of(UintMode::NotEqual, slice_subrange(b, 1, len), limit)
    } else if len >= 1 && b[0] == EQ {
        single_bound_of(UintMode::Equal, slice_subrange(b, 1, len), limit)
    } else {
        match find_byte(b, DASH) {
            Some(p) => {
                let lo = parse_decimal(slice_subrange(b, 0, p), limit);
                let hi = parse_decimal(slice_subrange(b, p + 1, len), limit);
                match (lo, hi) {
                    (Some(x), Some(y)) => if x < y {
                        Some(DetectUintData { mode: UintMode::Range, arg1: x as u32, arg2: y as u32 })
                    } else {
                        None
                    },
                    _ => None,
                }
            },
            None => single_bound_of(UintMode::Equal, b, limit),
        }
    }
}

/// Whether `v` satisfies the constraint `c`.
pub fn detect_match_uint(c: &DetectUintData, v: u32) -> (r: bool)
    ensures
        r == uint_holds(*c, v as int),
{
    match c.mode {
        UintMode::Equal => v == c.arg1,
        UintMode::NotEqual => v != c.arg1,
        UintMode::Less => v < c.arg1,
        UintMode::LessEqual => v <= c.arg1,
        UintMode::Greater => v > c.arg1,
        UintMode::GreaterEqual => v >= c.arg1,
        UintMode::Range => c.arg1 < v && v < c.arg2,
    }
}

} // verus!
