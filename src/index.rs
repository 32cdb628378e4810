use vstd::prelude::*;
use vstd::slice::slice_subrange;
use crate::decimal::{decimal_at_most, parse_decimal};

verus! {

/// Which responses of a transaction a condition applies to.
#[derive(Debug, Clone, Copy, PartialEq, Eq, Structural)]
pub enum LdapIndex {
    /// At least one response satisfies the condition.
    Any,
    /// Every response to which the condition applies satisfies it.
    All,
    /// The response at this position; a negative position counts from the end.
    Index(i32),
}

/// The position that `i` addresses among `len` responses: `i` itself when it
/// is not negative, else counted back from the end (`-1` is the last one).
pub open spec fn resolve_index(len: nat, i: int) -> int {
    if i >= 0 {
        i
    } else {
        len + i
    }
}

/// Whether a condition holds over a transaction's responses, given the
/// outcome of the condition on each response in order (`None` where the
/// tested field does not apply to that response).
pub open spec fn evaluate_spec(outcomes: Seq<Option<bool>>, index: LdapIndex) -> bool {
    match index {
        LdapIndex::Any => exists|k: int| 0 <= k < outcomes.len() && outcomes[k] == Some(true),
        LdapIndex::All => forall|k: int| 0 <= k < outcomes.len() ==> outcomes[k] != Some(false),
        LdapIndex::Index(i) => {
            let k = resolve_index(outcomes.len(), i as int);
            0 <= k < outcomes.len() && outcomes[k] == Some(true)
        },
    }
}

/// Combines per-response outcomes according to `index`.
///
/// `Any` is true once some outcome is `Some(true)`; `All` is false once some
/// outcome is `Some(false)` and skips `None`; `Index` reads the one addressed
/// outcome, and is false out of range or where that outcome is `None`.
pub fn evaluate(outcomes: &[Option<bool>], index: LdapIndex) -> (r: bool)
    ensures
        r == evaluate_spec(outcomes@, index),
{
    let len = outcomes.len();
    match index {
        LdapIndex::Any => {
            let mut k: usize = 0;
            while k < len
                invariant
                    len == outcomes@.len(),
                    k <= len,
                    index is Any,
                    forall|j: int| 0 <= j < k ==> outcomes@[j] != Some(true),
                decreases len - k,
            {
                if let Some(true) = outcomes[k] {
                    assert(outcomes@[k as int] == Some(true));
                    return true;
                }
                k += 1;
            }
            false
        },
        LdapIndex::All => {
            let mut k: usize = 0;
            while k < len
                invariant
                    len == outcomes@.len(),
                    k <= len,
                    index is All,
                    forall|j: int| 0 <= j < k ==> outcomes@[j] != Some(false),
                decreases len - k,
            {
                if let Some(false) = outcomes[k] {
                    assert(outcomes@[k as int] == Some(false));
                    return false;
                }
                k += 1;
            }
            true
        },
        LdapIndex::Index(i) => {
            let pos: usize;
            if i >= 0 {
                pos = i as usize;
            } else {
                let back = (-(i as i64)) as usize;
                if back > len {
                    return false;
                }
                pos = len - back;
            }
            if pos >= len {
                return false;
            }
            match outcomes[pos] {
                Some(b) => b,
                None => false,
            }
        },
    }
}

/// `-`, the sign of a negative position.
pub const MINUS: u8 = 45;

/// `+`
pub const PLUS: u8 = 43;

/// The text `all`.
pub open spec fn word_all() -> Seq<u8> {
    seq![97u8, 108u8, 108u8]
}

/// The text `any`.
pub open spec fn word_any() -> Seq<u8> {
    seq![97u8, 110u8, 121u8]
}

/// `s` read as a base-10 `i32`: an optional sign, then at least one digit,
/// and a value within the range of `i32`.
pub open spec fn i32_spec(s: Seq<u8>) -> Option<int> {
    if s.len() > 0 && s[0] == MINUS {
        match decimal_at_most(s.skip(1), 0x8000_0000) {
            Some(v) => Some(-v),
            None => None,
        }
    } else {
        let digits = if s.len() > 0 && s[0] == PLUS {
            s.skip(1)
        } else {
            s
        };
        match decimal_at_most(digits, 0x7fff_ffff) {
            Some(v) => Some(v as int),
            None => None,
        }
    }
}

/// The selector that the text `s` denotes: `all`, `any`, or a base-10 `i32`.
pub open spec fn index_spec(s: Seq<u8>) -> Option<LdapIndex> {
    if s == word_all() {
        Some(LdapIndex::All)
    } else if s == word_any() {
        Some(LdapIndex::Any)
    } else {
        match i32_spec(s) {
            Some(v) => Some(LdapIndex::Index(v as i32)),
            None => None,
        }
    }
}

/// Reads `b` as a base-10 `i32`, with an optional leading sign.
pub fn parse_i32(b: &[u8]) -> (r: Option<i32>)
    ensures
        r is Some <==> i32_spec(b@) is Some,
        r is Some ==> r->0 == i32_spec(b@)->0,
{
    let len = b.len();
    if len > 0 && b[0] == MINUS {
        match parse_decimal(slice_subrange(b, 1, len), 0x8000_0000) {
            Some(v) => Some((-(v as i64)) as i32),
            None => None,
        }
    } else {
        let digits = if len > 0 && b[0] == PLUS {
            slice_subrange(b, 1, len)
        } else {
            b
        };
        match parse_decimal(digits, 0x7fff_ffff) {
            Some(v) => Some(v as i32),
            None => None,
        }
    }
}

/// Reads a selector: `all`, `any`, or a base-10 `i32` position.
pub fn parse_index(b: &[u8]) -> (r: Option<LdapIndex>)
    ensures
        r == index_spec(b@),
{
    if b.len() == 3 && b[0] == 97 && b[1] == 108 && b[2] == 108 {
        assert(b@ =~= word_all());
        Some(LdapIndex::All)
    } else if b.len() == 3 && b[0] == 97 && b[1] == 110 && b[2] == 121 {
        assert(b@ =~= word_any());
        Some(LdapIndex::Any)
    } else {
        assert(b@ != word_all() && b@ != word_any());
        match parse_i32(b) {
            Some(v) => Some(LdapIndex::Index(v)),
            None => None,
        }
    }
}

/// Over no responses, `Any` never holds and `All` always holds.
pub proof fn lemma_empty_responses()
    ensures
        !evaluate_spec(Seq::<Option<bool>>::empty(), LdapIndex::Any),
        evaluate_spec(Seq::<Option<bool>>::empty(), LdapIndex::All),
{
}

/// A negative index `-k` addresses the same response as `len - k`, and any
/// index that points before the first or past the last response never holds.
pub proof fn lemma_index_addressing(outcomes: Seq<Option<bool>>, i: i32)
    ensures
        i < 0 && 0 <= outcomes.len() + i ==> evaluate_spec(outcomes, LdapIndex::Index(i))
            == (outcomes[outcomes.len() + i] == Some(true)),
        (i >= outcomes.len() || outcomes.len() + i < 0) ==> !evaluate_spec(
            outcomes,
            LdapIndex::Index(i),
        ),
        0 <= i < outcomes.len() ==> evaluate_spec(outcomes, LdapIndex::Index(i)) == (outcomes[i as int]
            == Some(true)),
{
}

/// With `len` responses, `Index(-1)` and `Index(len - 1)` agree, while
/// `Index(len)` and `Index(-(len + 1))` never hold.
pub proof fn lemma_last_and_out_of_range(outcomes: Seq<Option<bool>>, len: i32)
    requires
        len == outcomes.len(),
        0 < len < i32::MAX,
    ensures
        evaluate_spec(outcomes, LdapIndex::Index(-1i32)) == evaluate_spec(
            outcomes,
            LdapIndex::Index((len - 1) as i32),
        ),
        !evaluate_spec(outcomes, LdapIndex::Index(len)),
        !evaluate_spec(outcomes, LdapIndex::Index((-len - 1) as i32)),
{
}

} // verus!
