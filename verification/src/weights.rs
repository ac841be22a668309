//! Weight input handling: a decimal token parser with silent fallback. An
//! unparseable weight input is not an error — the documented default for that
//! weight is substituted and the query goes on.

use vstd::prelude::*;
use vstd::string::StrSliceExecFns;

use crate::model::Weights;

verus! {

/// A decimal digit.
pub open spec fn is_digit(c: char) -> bool {
    48 <= c as u32 <= 57
}

/// A decimal digit's numeric value.
pub open spec fn digit_value(c: char) -> int {
    c as u32 - 48
}

/// Every character is a decimal digit.
pub open spec fn all_digits(s: Seq<char>) -> bool {
    forall|i: int| 0 <= i < s.len() ==> is_digit(#[trigger] s[i])
}

/// The numeric value of a digit string, most significant digit first.
pub open spec fn digits_value(s: Seq<char>) -> int
    decreases s.len(),
{
    if s.len() == 0 {
        0
    } else {
        digits_value(s.drop_last()) * 10 + digit_value(s.last())
    }
}

/// The digit part of a weight token: everything after one optional leading
/// plus sign.
pub open spec fn digits_of(s: Seq<char>) -> Seq<char> {
    if s.len() > 0 && s[0] == '+' {
        s.drop_first()
    } else {
        s
    }
}

/// A well-formed non-negative weight token: an optional plus sign, then at
/// least one decimal digit.
pub open spec fn is_weight_token(s: Seq<char>) -> bool {
    digits_of(s).len() > 0 && all_digits(digits_of(s))
}

/// What parsing a weight input yields: the token's numeric value where the
/// input is a well-formed token whose value fits the score type, the given
/// default otherwise.
pub open spec fn spec_parse_weight(s: Seq<char>, default: i32) -> i32 {
    if is_weight_token(s) && digits_value(digits_of(s)) <= i32::MAX {
        digits_value(digits_of(s)) as i32
    } else {
        default
    }
}

/// A digit string's value is non-negative.
proof fn lemma_digits_value_nonneg(s: Seq<char>)
    requires
        all_digits(s),
    ensures
        0 <= digits_value(s),
    decreases s.len(),
{
    if s.len() > 0 {
        assert(all_digits(s.drop_last()));
        lemma_digits_value_nonneg(s.drop_last());
    }
}

/// A digit string's value is at least the value of any of its prefixes:
/// appending digits never decreases the value.
proof fn lemma_digits_value_prefix_le(s: Seq<char>, k: int)
    requires
        all_digits(s),
        0 <= k <= s.len(),
    ensures
        digits_value(s.subrange(0, k)) <= digits_value(s),
    decreases s.len(),
{
    if k == s.len() {
        assert(s.subrange(0, k) =~= s);
    } else {
        assert(all_digits(s.drop_last()));
        assert(s.subrange(0, k) =~= s.drop_last().subrange(0, k));
        lemma_digits_value_prefix_le(s.drop_last(), k);
        lemma_digits_value_nonneg(s.drop_last());
    }
}

/// Parses one weight input. A well-formed token — an optional plus sign and
/// at least one decimal digit — whose value fits the score type yields that
/// value; anything else (empty, signs, stray characters, overflow) yields the
/// given default, and never a failure.
pub fn parse_weight(s: &str, default: i32) -> (w: i32)
    ensures
        w == spec_parse_weight(s@, default),
{
    let ghost d = digits_of(s@);
    let n = s.unicode_len();
    let start: usize = if n > 0 && s.get_char(0) == '+' {
        1
    } else {
        0
    };
    proof {
        assert(d.len() == n - start);
    }
    if start >= n {
        return default;
    }
    let mut acc: u64 = 0;
    let mut i: usize = start;
    while i < n
        invariant
            d == digits_of(s@),
            n == s@.len(),
            start <= i <= n,
            start <= 1,
            d.len() == n - start,
            forall|k: int| 0 <= k < i - start ==> is_digit(#[trigger] d[k]),
            acc as int == digits_value(d.subrange(0, i - start)),
            acc <= 0x7fff_ffff,
        decreases n - i,
    {
        let c = s.get_char(i);
        proof {
            assert(d[i - start] == s@[i as int]);
        }
        let code = c as u32;
        if code < 48 || code > 57 {
            proof {
                assert(!is_digit(d[i - start]));
            }
            return default;
        }
        let ghost prev = (i - start) as int;
        acc = acc * 10 + ((code - 48) as u64);
        i = i + 1;
        proof {
            assert(d.subrange(0, prev + 1).drop_last() =~= d.subrange(0, prev));
            assert(d.subrange(0, prev + 1).last() == d[prev]);
            assert(acc as int == digits_value(d.subrange(0, prev + 1)));
        }
        if acc > 0x7fff_ffff {
            proof {
                if is_weight_token(s@) {
                    lemma_digits_value_prefix_le(d, i - start);
                }
            }
            return default;
        }
    }
    proof {
        assert(d.subrange(0, d.len() as int) =~= d);
        assert(is_weight_token(s@));
    }
    acc as i32
}

/// The documented default weights: SLA 5, budget 3, volume 2, workload 1,
/// observability 4.
pub fn default_weights() -> (w: Weights)
    ensures
        w == (Weights { sla_w: 5, budget_w: 3, volume_w: 2, workload_w: 1, observability_w: 4 }),
{
    Weights { sla_w: 5, budget_w: 3, volume_w: 2, workload_w: 1, observability_w: 4 }
}

} // verus!
