//! Character-level helpers shared by the range parser and the URL builders:
//! decimal parsing and formatting, and exact string comparison.

use vstd::prelude::*;

verus! {

/// A decimal digit, `'0'` through `'9'`.
pub open spec fn is_digit(c: char) -> bool {
    48 <= c as u32 <= 57
}

/// The numeric value of a decimal digit.
pub open spec fn digit_val(c: char) -> nat {
    (c as u32 - 48) as nat
}

/// Every character of `s` is a decimal digit.
pub open spec fn all_digits(s: Seq<char>) -> bool {
    forall|i: int| 0 <= i < s.len() ==> is_digit(#[trigger] s[i])
}

/// The number denoted by a sequence of decimal digits, most significant first.
pub open spec fn digits_val(s: Seq<char>) -> nat
    decreases s.len(),
{
    if s.len() == 0 {
        0
    } else {
        digits_val(s.drop_last()) * 10 + digit_val(s.last())
    }
}

/// `s` is a non-empty, all-digit numeral whose value fits in a `u64`.
pub open spec fn parses_to_u64(s: Seq<char>) -> bool {
    s.len() > 0 && all_digits(s) && digits_val(s) <= u64::MAX
}

/// The value of a numeral never shrinks when more digits follow.
proof fn lemma_digits_val_prefix_le(s: Seq<char>, i: int, j: int)
    requires
        0 <= i <= j <= s.len(),
    ensures
        digits_val(s.subrange(0, i)) <= digits_val(s.subrange(0, j)),
    decreases j - i,
{
    if i < j {
        lemma_digits_val_prefix_le(s, i, j - 1);
        assert(s.subrange(0, j).drop_last() =~= s.subrange(0, j - 1));
    }
}

/// Parse a decimal numeral, rejecting empty or non-digit input and values
/// over `u64::MAX`, exactly as `parses_to_u64` describes.
pub fn parse_u64(s: &str) -> (r: Option<u64>)
    ensures
        parses_to_u64(s@) ==> r == Some(digits_val(s@) as u64),
        !parses_to_u64(s@) ==> r is None,
{
    let n: usize = s.unicode_len();
    if n == 0 {
        return None;
    }
    let mut val: u64 = 0;
    let mut i: usize = 0;
    while i < n
        invariant
            0 <= i <= n,
            n == s@.len(),
            all_digits(s@.subrange(0, i as int)),
            val == digits_val(s@.subrange(0, i as int)),
        decreases n - i,
    {
        let c = s.get_char(i);
        let u: u32 = c as u32;
        if !(48 <= u && u <= 57) {
            assert(!is_digit(s@[i as int]));
            return None;
        }
        let d: u64 = (u - 48) as u64;
        proof {
            assert(s@.subrange(0, i + 1).drop_last() =~= s@.subrange(0, i as int));
            assert(s@.subrange(0, i + 1).last() == s@[i as int]);
        }
        if val > (u64::MAX - d) / 10 {
            proof {
                assert(digits_val(s@.subrange(0, i + 1)) > u64::MAX) by (nonlinear_arith)
                    requires
                        digits_val(s@.subrange(0, i + 1)) == digits_val(
                            s@.subrange(0, i as int),
                        ) * 10 + digit_val(s@[i as int]),
                        val == digits_val(s@.subrange(0, i as int)),
                        digit_val(s@[i as int]) == d,
                        d <= 9,
                        val > (u64::MAX - d) / 10,
                ;
                lemma_digits_val_prefix_le(s@, i + 1, n as int);
                assert(s@.subrange(0, n as int) =~= s@);
            }
            return None;
        }
        proof {
            assert(val * 10 + d <= u64::MAX) by (nonlinear_arith)
                requires
                    d <= 9,
                    val <= (u64::MAX - d) / 10,
            ;
        }
        val = val * 10 + d;
        i = i + 1;
    }
    proof {
        assert(s@.subrange(0, n as int) =~= s@);
    }
    Some(val)
}

/// The digit character for a value below ten.
pub open spec fn digit_char(d: nat) -> char {
    ((48 + d) as u8) as char
}

/// The decimal numeral of `n`, most significant digit first, with no sign
/// and no leading zeros (`0` itself is the single character `'0'`).
pub open spec fn dec_of(n: nat) -> Seq<char>
    decreases n,
{
    if n < 10 {
        seq![digit_char(n)]
    } else {
        dec_of(n / 10).push(digit_char(n % 10))
    }
}

/// Each byte read as the character with the same code point.
pub open spec fn chars_of_bytes(s: Seq<u8>) -> Seq<char> {
    s.map_values(|b: u8| b as char)
}

/// Relies on `String::from_utf8`: a vector of bytes below 128 is valid
/// UTF-8, and the returned string holds exactly those bytes, one character
/// per byte.
#[verifier::external_body]
fn ascii_bytes_to_string(v: Vec<u8>) -> (r: String)
    requires
        forall|i: int| 0 <= i < v@.len() ==> #[trigger] v@[i] < 128,
    ensures
        r@ == chars_of_bytes(v@),
{
    match String::from_utf8(v) {
        Ok(s) => s,
        Err(_) => String::new(),
    }
}

/// Format `n` in decimal, as `dec_of` describes.
pub fn dec_u64(n: u64) -> (r: String)
    ensures
        r@ == dec_of(n as nat),
{
    let mut rd: Vec<u8> = Vec::new();
    let mut m: u64 = n;
    loop
        invariant_except_break
            dec_of(n as nat) =~= dec_of(m as nat) + chars_of_bytes(rd@).reverse(),
            forall|i: int| 0 <= i < rd@.len() ==> #[trigger] rd@[i] < 128,
        ensures
            dec_of(n as nat) =~= chars_of_bytes(rd@).reverse(),
            forall|i: int| 0 <= i < rd@.len() ==> #[trigger] rd@[i] < 128,
        decreases m,
    {
        let d: u8 = (m % 10) as u8;
        let ghost rd_pre = rd@;
        rd.push(48 + d);
        proof {
            assert(chars_of_bytes(rd@).reverse() =~= seq![digit_char((m % 10) as nat)]
                + chars_of_bytes(rd_pre).reverse());
        }
        if m < 10 {
            proof {
                assert(dec_of(m as nat) =~= seq![digit_char((m % 10) as nat)]);
                assert(dec_of(n as nat) =~= chars_of_bytes(rd@).reverse());
            }
            break;
        }
        proof {
            assert(dec_of(m as nat) =~= dec_of((m / 10) as nat) + seq![
                digit_char((m % 10) as nat),
            ]);
            assert(dec_of(n as nat) =~= dec_of((m / 10) as nat) + chars_of_bytes(rd@).reverse());
        }
        m = m / 10;
    }
    let len: usize = rd.len();
    let mut out: Vec<u8> = Vec::new();
    let mut k: usize = 0;
    while k < len
        invariant
            0 <= k <= len,
            len == rd@.len(),
            out@ =~= rd@.reverse().subrange(0, k as int),
            forall|i: int| 0 <= i < rd@.len() ==> #[trigger] rd@[i] < 128,
        decreases len - k,
    {
        out.push(rd[len - 1 - k]);
        proof {
            assert(out@ =~= rd@.reverse().subrange(0, k + 1));
        }
        k = k + 1;
    }
    proof {
        assert(out@ =~= rd@.reverse());
        assert(chars_of_bytes(rd@.reverse()) =~= chars_of_bytes(rd@).reverse());
        assert(forall|i: int| 0 <= i < out@.len() ==> #[trigger] out@[i] < 128);
    }
    ascii_bytes_to_string(out)
}

/// The two strings hold the same characters.
pub fn str_eq(a: &str, b: &str) -> (r: bool)
    ensures
        r == (a@ == b@),
{
    let n: usize = a.unicode_len();
    let m: usize = b.unicode_len();
    if n != m {
        return false;
    }
    let mut i: usize = 0;
    while i < n
        invariant
            0 <= i <= n,
            n == a@.len(),
            n == b@.len(),
            forall|j: int| 0 <= j < i ==> a@[j] == b@[j],
        decreases n - i,
    {
        if a.get_char(i) != b.get_char(i) {
            return false;
        }
        i = i + 1;
    }
    proof {
        assert(a@ =~= b@);
    }
    true
}

/// `p` is a prefix of `s`.
pub open spec fn has_prefix(s: Seq<char>, p: Seq<char>) -> bool {
    s.len() >= p.len() && s.subrange(0, p.len() as int) == p
}

/// Whether `s` begins with `p`, as `has_prefix` describes.
pub fn str_has_prefix(s: &str, p: &str) -> (r: bool)
    ensures
        r == has_prefix(s@, p@),
{
    let n: usize = s.unicode_len();
    let m: usize = p.unicode_len();
    if n < m {
        return false;
    }
    let mut i: usize = 0;
    while i < m
        invariant
            0 <= i <= m,
            m <= n,
            n == s@.len(),
            m == p@.len(),
            forall|j: int| 0 <= j < i ==> s@[j] == p@[j],
        decreases m - i,
    {
        if s.get_char(i) != p.get_char(i) {
            proof {
                assert(s@.subrange(0, m as int)[i as int] != p@[i as int]);
            }
            return false;
        }
        i = i + 1;
    }
    proof {
        assert(s@.subrange(0, m as int) =~= p@);
    }
    true
}

/// An ASCII whitespace character: space, tab, line feed or carriage return.
pub open spec fn is_space(c: char) -> bool {
    c == ' ' || c == '\t' || c == '\n' || c == '\r'
}

/// `s` holds nothing but whitespace (an empty string is blank).
pub open spec fn is_blank(s: Seq<char>) -> bool {
    forall|i: int| 0 <= i < s.len() ==> is_space(#[trigger] s[i])
}

/// Whether `s` is blank, as `is_blank` describes.
pub fn str_is_blank(s: &str) -> (r: bool)
    ensures
        r == is_blank(s@),
{
    let n: usize = s.unicode_len();
    let mut i: usize = 0;
    while i < n
        invariant
            0 <= i <= n,
            n == s@.len(),
            forall|j: int| 0 <= j < i ==> is_space(#[trigger] s@[j]),
        decreases n - i,
    {
        let c = s.get_char(i);
        if !(c == ' ' || c == '\t' || c == '\n' || c == '\r') {
            return false;
        }
        i = i + 1;
    }
    true
}

} // verus!
