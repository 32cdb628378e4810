use vstd::prelude::*;

verus! {

/// An ASCII decimal digit.
pub open spec fn is_digit(b: u8) -> bool {
    48 <= b <= 57
}

pub open spec fn all_digits(s: Seq<u8>) -> bool {
    forall|i: int| 0 <= i < s.len() ==> is_digit(#[trigger] s[i])
}

/// The value of a string of decimal digits, most significant first.
pub open spec fn decimal_value(s: Seq<u8>) -> nat
    decreases s.len(),
{
    if s.len() == 0 {
        0
    } else {
        10 * decimal_value(s.drop_last()) + (s.last() - 48) as nat
    }
}

/// `s` read as a non-empty string of decimal digits whose value is at most `limit`.
pub open spec fn decimal_at_most(s: Seq<u8>, limit: nat) -> Option<nat> {
    if s.len() > 0 && all_digits(s) && decimal_value(s) <= limit {
        Some(decimal_value(s))
    } else {
        None
    }
}

/// A prefix of a digit string never has a greater value than the whole.
pub proof fn lemma_prefix_value_le(s: Seq<u8>, k: int)
    requires
        all_digits(s),
        0 <= k <= s.len(),
    ensures
        decimal_value(s.take(k)) <= decimal_value(s),
    decreases s.len(),
{
    if k < s.len() {
        assert(s.drop_last().take(k) =~= s.take(k));
        lemma_prefix_value_le(s.drop_last(), k);
    } else {
        assert(s.take(k) =~= s);
    }
}

/// Reads `b` as a non-empty string of decimal digits of value at most `limit`.
pub fn parse_decimal(b: &[u8], limit: u64) -> (r: Option<u64>)
    requires
        limit <= 0x1_0000_0000,
    ensures
        r is Some <==> decimal_at_most(b@, limit as nat) is Some,
        r is Some ==> r->0 == decimal_at_most(b@, limit as nat)->0,
{
    let len = b.len();
    if len == 0 {
        return None;
    }
    let mut acc: u64 = 0;
    let mut i: usize = 0;
    while i < len
        invariant
            len == b@.len(),
            i <= len,
            limit <= 0x1_0000_0000,
            acc <= limit,
            all_digits(b@.take(i as int)),
            acc == decimal_value(b@.take(i as int)),
        decreases len - i,
    {
        let c = b[i];
        if c < 48 || c > 57 {
            assert(!all_digits(b@));
            return None;
        }
        let next = acc * 10 + (c - 48) as u64;
        assert(b@.take(i + 1).drop_last() =~= b@.take(i as int));
        if next > limit {
            proof {
                if all_digits(b@) {
                    lemma_prefix_value_le(b@, i + 1);
                }
            }
            return None;
        }
        acc = next;
        i += 1;
    }
    assert(b@.take(len as int) =~= b@);
    Some(acc)
}

} // verus!
