//! Decimal rendering and parsing used by the resolver (quality hints) and
//! the composer (`content-length` and diagnostic header values).

use vstd::prelude::*;
use vstd::string::StringExecFns;

verus! {

/// The decimal digit character for `d` (meaningful for `d < 10`).
pub open spec fn digit_char(d: nat) -> char {
    if d == 0 {
        '0'
    } else if d == 1 {
        '1'
    } else if d == 2 {
        '2'
    } else if d == 3 {
        '3'
    } else if d == 4 {
        '4'
    } else if d == 5 {
        '5'
    } else if d == 6 {
        '6'
    } else if d == 7 {
        '7'
    } else if d == 8 {
        '8'
    } else {
        '9'
    }
}

/// The decimal representation of `n`, most significant digit first, with no
/// leading zeros (zero is rendered as a single `'0'`).
pub open spec fn decimal_chars(n: nat) -> Seq<char>
    decreases n,
{
    if n < 10 {
        seq![digit_char(n)]
    } else {
        decimal_chars(n / 10) + seq![digit_char(n % 10)]
    }
}

fn digit_str(d: u64) -> (s: &'static str)
    requires
        d < 10,
    ensures
        s@ == seq![digit_char(d as nat)],
{
    proof {
        reveal_strlit("0");
        reveal_strlit("1");
        reveal_strlit("2");
        reveal_strlit("3");
        reveal_strlit("4");
        reveal_strlit("5");
        reveal_strlit("6");
        reveal_strlit("7");
        reveal_strlit("8");
        reveal_strlit("9");
        assert("0"@ =~= seq![digit_char(0)]);
        assert("1"@ =~= seq![digit_char(1)]);
        assert("2"@ =~= seq![digit_char(2)]);
        assert("3"@ =~= seq![digit_char(3)]);
        assert("4"@ =~= seq![digit_char(4)]);
        assert("5"@ =~= seq![digit_char(5)]);
        assert("6"@ =~= seq![digit_char(6)]);
        assert("7"@ =~= seq![digit_char(7)]);
        assert("8"@ =~= seq![digit_char(8)]);
        assert("9"@ =~= seq![digit_char(9)]);
    }
    if d == 0 {
        "0"
    } else if d == 1 {
        "1"
    } else if d == 2 {
        "2"
    } else if d == 3 {
        "3"
    } else if d == 4 {
        "4"
    } else if d == 5 {
        "5"
    } else if d == 6 {
        "6"
    } else if d == 7 {
        "7"
    } else if d == 8 {
        "8"
    } else {
        "9"
    }
}

/// Renders `n` in decimal, exactly as [`decimal_chars`] specifies.
pub fn u64_to_decimal(n: u64) -> (s: String)
    ensures
        s@ == decimal_chars(n as nat),
    decreases n,
{
    if n < 10 {
        digit_str(n).to_owned()
    } else {
        let mut s = u64_to_decimal(n / 10);
        s.append(digit_str(n % 10));
        proof {
            assert(s@ =~= decimal_chars(n as nat));
        }
        s
    }
}

/// Whether `b` is the code of an ASCII decimal digit.
pub open spec fn is_digit_byte(b: u8) -> bool {
    '0' as u8 <= b && b <= '9' as u8
}

/// Whether every byte of `s` is an ASCII decimal digit.
pub open spec fn all_digit_bytes(s: Seq<u8>) -> bool {
    forall|i: int| 0 <= i < s.len() ==> is_digit_byte(#[trigger] s[i])
}

/// The numeric value of a sequence of ASCII digit bytes (most significant
/// first); meaningful when [`all_digit_bytes`] holds.
pub open spec fn dec_value(s: Seq<u8>) -> nat
    decreases s.len(),
{
    if s.len() == 0 {
        0
    } else {
        dec_value(s.drop_last()) * 10 + (s.last() - ('0' as u8)) as nat
    }
}

/// Whether `s` is a plain unsigned decimal numeral in 32-bit range:
/// nonempty, digits only, value at most `u32::MAX`.
pub open spec fn is_u32_decimal(s: Seq<u8>) -> bool {
    s.len() > 0 && all_digit_bytes(s) && dec_value(s) <= u32::MAX
}

/// The bytes a character sequence maps to one-for-one (meaningful for
/// ASCII characters).
pub open spec fn digit_bytes_of(s: Seq<char>) -> Seq<u8> {
    s.map_values(|c: char| c as u8)
}

/// Every character of a decimal rendering is a decimal digit, and a
/// rendering is never empty.
pub proof fn lemma_decimal_chars_are_digits(n: nat)
    ensures
        decimal_chars(n).len() >= 1,
        forall|i: int|
            0 <= i < decimal_chars(n).len() ==> '0' <= #[trigger] decimal_chars(n)[i] <= '9',
    decreases n,
{
    if n >= 10 {
        lemma_decimal_chars_are_digits(n / 10);
        assert(forall|i: int|
            0 <= i < decimal_chars(n / 10).len() ==> decimal_chars(n)[i] == decimal_chars(n / 10)[i]);
    }
}

/// Reading a decimal rendering's digits back yields the rendered number:
/// the encoding is faithful.
pub proof fn lemma_decimal_value_roundtrip(n: nat)
    ensures
        all_digit_bytes(digit_bytes_of(decimal_chars(n))),
        dec_value(digit_bytes_of(decimal_chars(n))) == n,
    decreases n,
{
    if n < 10 {
        let single = seq![digit_char(n) as u8];
        assert(digit_bytes_of(decimal_chars(n)) =~= single);
        assert(single.drop_last() =~= Seq::<u8>::empty());
        assert(single.last() == digit_char(n) as u8);
        assert(digit_char(n) as u8 == '0' as u8 + n);
        assert(dec_value(Seq::<u8>::empty()) == 0);
        assert(dec_value(single) == n);
    } else {
        lemma_decimal_value_roundtrip(n / 10);
        let head = digit_bytes_of(decimal_chars(n / 10));
        let whole = digit_bytes_of(decimal_chars(n));
        assert(whole =~= head + seq![digit_char(n % 10) as u8]);
        assert(whole.drop_last() =~= head);
        assert(whole.last() == digit_char(n % 10) as u8);
        assert(digit_char(n % 10) as u8 == '0' as u8 + n % 10);
        assert(dec_value(whole) == dec_value(head) * 10 + n % 10);
        vstd::arithmetic::div_mod::lemma_fundamental_div_mod(n as int, 10);
    }
}

proof fn lemma_dec_value_prefix_le(s: Seq<u8>, i: int)
    requires
        0 <= i <= s.len(),
    ensures
        dec_value(s.take(i)) <= dec_value(s),
    decreases s.len() - i,
{
    if i < s.len() {
        assert(s.take(i + 1).drop_last() =~= s.take(i));
        assert(s.take(i + 1).last() == s[i]);
        assert(dec_value(s.take(i)) <= dec_value(s.take(i)) * 10);
        lemma_dec_value_prefix_le(s, i + 1);
    } else {
        assert(s.take(i) =~= s);
    }
}

/// Parses `s` as a plain unsigned 32-bit decimal numeral. Returns the
/// value exactly when `s` is nonempty, digits only, and within `u32`
/// range; everything else fails.
pub fn parse_u32_decimal(s: &[u8]) -> (r: Option<u32>)
    ensures
        is_u32_decimal(s@) ==> r == Some((dec_value(s@) as u32)),
        !is_u32_decimal(s@) ==> r is None,
{
    if s.len() == 0 {
        return None;
    }
    let mut acc: u64 = 0;
    let mut i: usize = 0;
    while i < s.len()
        invariant
            0 <= i <= s@.len(),
            s@.len() > 0,
            all_digit_bytes(s@.take(i as int)),
            acc == dec_value(s@.take(i as int)),
            acc <= u32::MAX,
        decreases s@.len() - i,
    {
        let b = s[i];
        if b < '0' as u8 || b > '9' as u8 {
            assert(!is_digit_byte(s@[i as int]));
            return None;
        }
        let d: u64 = (b - '0' as u8) as u64;
        let next: u64 = acc * 10 + d;
        proof {
            assert(s@.take(i + 1).drop_last() =~= s@.take(i as int));
            assert(s@.take(i + 1).last() == s@[i as int]);
            assert(next == dec_value(s@.take(i + 1)));
        }
        if next > u32::MAX as u64 {
            proof {
                lemma_dec_value_prefix_le(s@, i + 1);
            }
            return None;
        }
        acc = next;
        i = i + 1;
    }
    proof {
        assert(s@.take(i as int) =~= s@);
    }
    Some(acc as u32)
}

} // verus!
