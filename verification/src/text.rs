//! Decimal text: rendering an unsigned number as its decimal digits and
//! reading it back. The control endpoint answers a subscription request
//! with the push port as a decimal string, and the subscribing client
//! parses that string; the two directions round-trip exactly.

use vstd::prelude::*;
use vstd::string::StringExecFns;
use vstd::string::StrSliceExecFns;

verus! {

pub open spec fn is_digit(c: char) -> bool {
    '0' <= c && c <= '9'
}

pub open spec fn all_digits(s: Seq<char>) -> bool {
    forall|i: int| 0 <= i < s.len() ==> is_digit(#[trigger] s[i])
}

pub open spec fn digit_val(c: char) -> nat {
    (c as nat - '0' as nat) as nat
}

/// The numeric value of a digit string, most significant digit first.
pub open spec fn dec_value(s: Seq<char>) -> nat
    decreases s.len(),
{
    if s.len() == 0 {
        0
    } else {
        dec_value(s.drop_last()) * 10 + digit_val(s.last())
    }
}

pub open spec fn digit_char(d: nat) -> char {
    if d == 0 {
        '0'
    } else if d == 1 {
        '1'
    } else if d == 2 {
        '2'
    } else if d == 3 {
        '3'
    } else if d == 4 {
        '4'
    } else if d == 5 {
        '5'
    } else if d == 6 {
        '6'
    } else if d == 7 {
        '7'
    } else if d == 8 {
        '8'
    } else {
        '9'
    }
}

/// The decimal rendering of `n`: no sign, no leading zero except for the
/// number zero itself.
pub open spec fn spec_dec(n: nat) -> Seq<char>
    decreases n,
{
    if n < 10 {
        seq![digit_char(n)]
    } else {
        spec_dec(n / 10).push(digit_char(n % 10))
    }
}

fn digit_str(d: u64) -> (r: &'static str)
    requires
        d < 10,
    ensures
        r@ == seq![digit_char(d as nat)],
{
    let r: &'static str = match d {
        0 => "0",
        1 => "1",
        2 => "2",
        3 => "3",
        4 => "4",
        5 => "5",
        6 => "6",
        7 => "7",
        8 => "8",
        _ => "9",
    };
    proof {
        reveal_strlit("0");
        reveal_strlit("1");
        reveal_strlit("2");
        reveal_strlit("3");
        reveal_strlit("4");
        reveal_strlit("5");
        reveal_strlit("6");
        reveal_strlit("7");
        reveal_strlit("8");
        reveal_strlit("9");
        assert(r@ =~= seq![digit_char(d as nat)]);
    }
    r
}

/// Render `n` in decimal.
pub fn u64_to_string(n: u64) -> (r: String)
    ensures
        r@ == spec_dec(n as nat),
    decreases n,
{
    if n < 10 {
        String::from_str(digit_str(n))
    } else {
        let mut s = u64_to_string(n / 10);
        s.append(digit_str(n % 10));
        proof {
            assert(s@ =~= spec_dec(n as nat));
        }
        s
    }
}

/// A longer digit string never has the smaller value: reading more digits
/// multiplies what was read so far.
proof fn lemma_dec_value_take_monotone(s: Seq<char>, i: int)
    requires
        0 <= i <= s.len(),
    ensures
        dec_value(s) >= dec_value(s.take(i)),
    decreases s.len() - i,
{
    if i == s.len() {
        assert(s.take(i) =~= s);
    } else {
        lemma_dec_value_take_monotone(s, i + 1);
        assert(s.take(i + 1).drop_last() =~= s.take(i));
        assert(dec_value(s.take(i + 1)) == dec_value(s.take(i)) * 10 + digit_val(
            s.take(i + 1).last(),
        ));
    }
}

/// Read a decimal string as a `u16`. Succeeds exactly on a non-empty
/// all-digit string whose value fits; anything else is refused.
pub fn parse_u16(s: &str) -> (r: Option<u16>)
    ensures
        match r {
            Some(v) => s@.len() > 0 && all_digits(s@) && dec_value(s@) == v,
            None => s@.len() == 0 || !all_digits(s@) || dec_value(s@) > u16::MAX,
        },
{
    let len = s.unicode_len();
    if len == 0 {
        return None;
    }
    let mut i: usize = 0;
    while i < len
        invariant
            len == s@.len(),
            0 <= i <= len,
            forall|k: int| 0 <= k < i ==> is_digit(#[trigger] s@[k]),
        decreases len - i,
    {
        let c = s.get_char(i);
        if !(c >= '0' && c <= '9') {
            return None;
        }
        i = i + 1;
    }
    let mut acc: u64 = 0;
    let mut i: usize = 0;
    while i < len
        invariant
            len == s@.len(),
            0 <= i <= len,
            all_digits(s@),
            acc == dec_value(s@.take(i as int)),
            acc <= u16::MAX,
        decreases len - i,
    {
        let c = s.get_char(i);
        let d: u64 = (c as u32 as u64) - 48;
        let next = acc * 10 + d;
        proof {
            assert(s@.take(i + 1).drop_last() =~= s@.take(i as int));
            assert(s@.take(i + 1).last() == s@[i as int]);
            assert(d == digit_val(s@[i as int]));
        }
        if next > 65535 {
            proof {
                lemma_dec_value_take_monotone(s@, i + 1);
            }
            return None;
        }
        acc = next;
        i = i + 1;
    }
    proof {
        assert(s@.take(len as int) =~= s@);
    }
    Some(acc as u16)
}

pub open spec fn is_space(c: char) -> bool {
    c == ' ' || c == '\t' || c == '\r' || c == '\n'
}

pub open spec fn count_leading_spaces(s: Seq<char>) -> int
    decreases s.len(),
{
    if s.len() == 0 {
        0
    } else if is_space(s[0]) {
        1 + count_leading_spaces(s.drop_first())
    } else {
        0
    }
}

pub open spec fn count_trailing_spaces(s: Seq<char>) -> int
    decreases s.len(),
{
    if s.len() == 0 {
        0
    } else if is_space(s.last()) {
        1 + count_trailing_spaces(s.drop_last())
    } else {
        0
    }
}

/// What trimming leaves: the text without its leading and trailing
/// whitespace; nothing when whitespace is all there is.
pub open spec fn trim_spec(s: Seq<char>) -> Seq<char> {
    let a = count_leading_spaces(s);
    let b = count_trailing_spaces(s);
    if a + b >= s.len() {
        Seq::empty()
    } else {
        s.subrange(a, s.len() - b)
    }
}

proof fn lemma_count_leading(s: Seq<char>, i: int)
    requires
        0 <= i <= s.len(),
        forall|k: int| 0 <= k < i ==> is_space(#[trigger] s[k]),
        i == s.len() || !is_space(s[i]),
    ensures
        count_leading_spaces(s) == i,
    decreases s.len(),
{
    if s.len() == 0 {
    } else if is_space(s[0]) {
        assert(i >= 1);
        lemma_count_leading(s.drop_first(), i - 1);
    } else {
        assert(i == 0);
    }
}

proof fn lemma_count_trailing(s: Seq<char>, j: int)
    requires
        0 <= j <= s.len(),
        forall|k: int| j <= k < s.len() ==> is_space(#[trigger] s[k]),
        j == 0 || !is_space(s[j - 1]),
    ensures
        count_trailing_spaces(s) == s.len() - j,
    decreases s.len(),
{
    if j == s.len() {
        if s.len() > 0 {
            assert(!is_space(s.last()));
        }
    } else {
        assert(is_space(s.last()));
        lemma_count_trailing(s.drop_last(), j);
    }
}

proof fn lemma_count_trailing_bounds(s: Seq<char>)
    ensures
        0 <= count_trailing_spaces(s) <= s.len(),
    decreases s.len(),
{
    if s.len() > 0 && is_space(s.last()) {
        lemma_count_trailing_bounds(s.drop_last());
    }
}

fn is_space_char(c: char) -> (r: bool)
    ensures
        r == is_space(c),
{
    c == ' ' || c == '\t' || c == '\r' || c == '\n'
}

/// The text without its leading and trailing whitespace.
pub fn trim_spaces(s: &str) -> (r: &str)
    ensures
        r@ == trim_spec(s@),
{
    let len = s.unicode_len();
    let mut lo: usize = 0;
    while lo < len && is_space_char(s.get_char(lo))
        invariant
            len == s@.len(),
            0 <= lo <= len,
            forall|k: int| 0 <= k < lo ==> is_space(#[trigger] s@[k]),
        decreases len - lo,
    {
        lo = lo + 1;
    }
    if lo == len {
        proof {
            lemma_count_leading(s@, len as int);
            lemma_count_trailing_bounds(s@);
        }
        return s.substring_char(len, len);
    }
    let mut hi: usize = len;
    while hi > lo && is_space_char(s.get_char(hi - 1))
        invariant
            len == s@.len(),
            lo <= hi <= len,
            lo < len,
            !is_space(s@[lo as int]),
            forall|k: int| hi <= k < len ==> is_space(#[trigger] s@[k]),
        decreases hi,
    {
        hi = hi - 1;
    }
    proof {
        lemma_count_leading(s@, lo as int);
        assert(hi > lo);
        assert(!is_space(s@[hi - 1]));
        lemma_count_trailing(s@, hi as int);
    }
    s.substring_char(lo, hi)
}

/// Whether two pieces of text hold the same characters.
pub fn str_eq(a: &str, b: &str) -> (r: bool)
    ensures
        r == (a@ == b@),
{
    let sa = a.to_owned();
    let sb = b.to_owned();
    sa == sb
}

/// Decimal text round-trips: the rendering of `n` is a non-empty digit
/// string that reads back as `n`. So the port number a subscription reply
/// carries is recovered exactly by the subscribing side.
pub proof fn lemma_dec_round_trip(n: nat)
    ensures
        spec_dec(n).len() >= 1,
        all_digits(spec_dec(n)),
        dec_value(spec_dec(n)) == n,
    decreases n,
{
    if n < 10 {
        let s = seq![digit_char(n)];
        assert(s.len() == 1);
        assert(s.last() == digit_char(n));
        assert(s.drop_last() =~= Seq::<char>::empty());
        assert(dec_value(Seq::<char>::empty()) == 0);
        assert(dec_value(s) == dec_value(s.drop_last()) * 10 + digit_val(s.last()));
        assert(dec_value(s) == digit_val(digit_char(n)));
        assert(digit_val(digit_char(n)) == n) by {
            if n == 0 {
            } else if n == 1 {
            } else if n == 2 {
            } else if n == 3 {
            } else if n == 4 {
            } else if n == 5 {
            } else if n == 6 {
            } else if n == 7 {
            } else if n == 8 {
            } else {
            }
        }
    } else {
        lemma_dec_round_trip(n / 10);
        let s = spec_dec(n);
        assert(s.drop_last() =~= spec_dec(n / 10));
        assert(digit_val(digit_char(n % 10)) == n % 10) by {
            let d = n % 10;
            if d == 0 {
            } else if d == 1 {
            } else if d == 2 {
            } else if d == 3 {
            } else if d == 4 {
            } else if d == 5 {
            } else if d == 6 {
            } else if d == 7 {
            } else if d == 8 {
            } else {
            }
        }
        assert(dec_value(s) == (n / 10) * 10 + n % 10);
        assert((n / 10) * 10 + n % 10 == n) by (nonlinear_arith);
        assert forall|i: int| 0 <= i < s.len() implies is_digit(#[trigger] s[i]) by {
            if i < s.len() - 1 {
                assert(s[i] == spec_dec(n / 10)[i]);
            } else {
                assert(s[i] == digit_char(n % 10));
            }
        }
    }
}

} // verus!
