//! The numeric identifiers carried in a response: texts of decimal digits,
//! read into `i32` values, rejecting anything else.

use vstd::prelude::*;
use vstd::string::StrSliceExecFns;

verus! {

/// A decimal digit.
pub open spec fn is_digit(c: char) -> bool {
    48 <= c as u32 && c as u32 <= 57
}

/// The value of one digit.
pub open spec fn digit_val(c: char) -> int {
    c as u32 - 48
}

/// The texts accepted as identifiers: one or more decimal digits.
pub open spec fn is_id_text(s: Seq<char>) -> bool {
    s.len() > 0 && (forall|i: int| 0 <= i < s.len() ==> is_digit(#[trigger] s[i]))
}

/// The value of a digit text, most significant digit first.
pub open spec fn id_text_val(s: Seq<char>) -> int
    decreases s.len(),
{
    if s.len() == 0 {
        0
    } else {
        id_text_val(s.drop_last()) * 10 + digit_val(s.last())
    }
}

/// The identifier a text denotes: defined exactly when the text is a digit
/// text whose value fits the identifier type.
pub open spec fn id_of_text(s: Seq<char>) -> Option<i32> {
    if is_id_text(s) && id_text_val(s) <= i32::MAX as int {
        Some(id_text_val(s) as i32)
    } else {
        None
    }
}

proof fn lemma_id_text_val_nonneg(s: Seq<char>)
    requires
        forall|i: int| 0 <= i < s.len() ==> is_digit(#[trigger] s[i]),
    ensures
        id_text_val(s) >= 0,
    decreases s.len(),
{
    if s.len() > 0 {
        lemma_id_text_val_nonneg(s.drop_last());
    }
}

proof fn lemma_id_text_val_prefix_le(s: Seq<char>, i: int)
    requires
        0 <= i <= s.len(),
        forall|j: int| 0 <= j < s.len() ==> is_digit(#[trigger] s[j]),
    ensures
        id_text_val(s.take(i)) <= id_text_val(s),
    decreases s.len() - i,
{
    if i < s.len() {
        assert(s.take(i + 1).drop_last() =~= s.take(i));
        assert(s.take(i + 1).last() == s[i]);
        lemma_id_text_val_nonneg(s.take(i));
        lemma_id_text_val_prefix_le(s, i + 1);
    } else {
        assert(s.take(i) =~= s);
    }
}

/// Reads a response entry as an identifier: the whole text must be decimal
/// digits and its value must fit, else the entry is rejected.
pub fn parse_id(s: &str) -> (r: Option<i32>)
    ensures
        r == id_of_text(s@),
{
    let n = s.unicode_len();
    if n == 0 {
        return None;
    }
    let mut acc: u64 = 0;
    let mut i: usize = 0;
    while i < n
        invariant
            0 < n == s@.len(),
            0 <= i <= n,
            forall|j: int| 0 <= j < i ==> is_digit(#[trigger] s@[j]),
            acc as int == id_text_val(s@.take(i as int)),
            acc <= i32::MAX as u64,
        decreases n - i,
    {
        let c = s.get_char(i);
        let cv = c as u32;
        if cv < 48 || cv > 57 {
            proof {
                assert(!is_digit(s@[i as int]));
            }
            return None;
        }
        let d = (cv - 48) as u64;
        let next: u64 = acc * 10 + d;
        proof {
            assert(s@.take(i as int + 1).drop_last() =~= s@.take(i as int));
            assert(s@.take(i as int + 1).last() == s@[i as int]);
        }
        if next > i32::MAX as u64 {
            proof {
                if is_id_text(s@) {
                    lemma_id_text_val_prefix_le(s@, i as int + 1);
                }
            }
            return None;
        }
        acc = next;
        i += 1;
    }
    proof {
        assert(s@.take(n as int) =~= s@);
    }
    Some(acc as i32)
}

} // verus!
