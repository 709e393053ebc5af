//! Text helpers shared by the panels: decimal and hexadecimal rendering
//! with padding, a decimal parser with the rules of `str::parse::<u32>`,
//! and string comparison.

use vstd::prelude::*;

verus! {

/// The digit character of `d` in bases up to 16, lower-case for 10..15.
pub open spec fn digit_char(d: nat) -> char {
    if d < 10 {
        (48 + d) as char
    } else {
        (87 + d) as char
    }
}

/// The digits of `n` in base `base`, most significant first, without
/// leading zeros ("0" for zero).
pub open spec fn spec_digits(n: nat, base: nat) -> Seq<char>
    decreases n,
{
    if base < 2 || n < base {
        seq![digit_char(n)]
    } else {
        proof {
            assert(n / base < n) by (nonlinear_arith) requires n >= base, base >= 2;
        }
        spec_digits(n / base, base).push(digit_char(n % base))
    }
}

/// Decimal rendering of `n`, as `format!("{}", n)` writes it.
pub open spec fn spec_dec(n: nat) -> Seq<char> {
    spec_digits(n, 10)
}

/// Lower-case hexadecimal rendering of `n`, as `format!("{:x}", n)` writes it.
pub open spec fn spec_hex(n: nat) -> Seq<char> {
    spec_digits(n, 16)
}

/// `s` right-aligned in a field of `width` characters, filled with `fill`
/// on the left; longer text is kept whole.
pub open spec fn pad_left(s: Seq<char>, width: nat, fill: char) -> Seq<char> {
    if s.len() >= width {
        s
    } else {
        Seq::new((width - s.len()) as nat, |i: int| fill) + s
    }
}

/// `s` left-aligned in a field of `width` characters, filled with spaces
/// on the right; longer text is kept whole.
pub open spec fn pad_right(s: Seq<char>, width: nat) -> Seq<char> {
    if s.len() >= width {
        s
    } else {
        s + Seq::new((width - s.len()) as nat, |i: int| ' ')
    }
}

/// Appends one character to a string.
/// Calls `String::push`, which std documents as appending the character
/// to the end of the string.
#[verifier::external_body]
pub(crate) fn push_char(s: &mut String, c: char)
    ensures
        final(s)@ == old(s)@.push(c),
{
    s.push(c);
}

/// The character of one digit.
pub fn digit_to_char(d: u8) -> (c: char)
    requires
        d < 16,
    ensures
        c == digit_char(d as nat),
{
    if d < 10 {
        (48 + d) as char
    } else {
        (87 + d) as char
    }
}

/// The number of digits of `n` in base `base`.
pub fn digit_count(n: u64, base: u64) -> (r: usize)
    requires
        base == 10 || base == 16,
    ensures
        r == spec_digits(n as nat, base as nat).len(),
        1 <= r <= 64,
    decreases n,
{
    if n < base {
        1
    } else {
        let r = digit_count(n / base, base);
        proof {
            assert(n / base < n) by (nonlinear_arith) requires n >= base, base >= 2;
            if r >= 64 {
                lemma_digits_len_bound(n as nat, base as nat);
            }
        }
        r + 1
    }
}

proof fn lemma_digits_len_bound(n: nat, base: nat)
    requires
        base >= 2,
        n <= u64::MAX,
    ensures
        spec_digits(n, base).len() <= 64,
{
    vstd::arithmetic::power2::lemma2_to64();
    lemma_digits_len_pow2(n, base, 64);
}

/// If `n < 2^k` then `n` has at most `k` digits in any base of two or more.
proof fn lemma_digits_len_pow2(n: nat, base: nat, k: nat)
    requires
        base >= 2,
        k >= 1,
        n < vstd::arithmetic::power2::pow2(k),
    ensures
        spec_digits(n, base).len() <= k,
    decreases k,
{
    if n >= base {
        vstd::arithmetic::power2::lemma_pow2_unfold(k);
        vstd::arithmetic::div_mod::lemma_div_is_ordered_by_denominator(n as int, 2, base as int);
        let p = vstd::arithmetic::power2::pow2((k - 1) as nat);
        assert(n / 2 < p) by (nonlinear_arith) requires n < 2 * p;
        if k == 1 {
            vstd::arithmetic::power2::lemma2_to64();
        } else {
            lemma_digits_len_pow2(n / base, base, (k - 1) as nat);
        }
    }
}

/// Appends the digits of `n` in base `base` to `out`.
pub fn push_digits(out: &mut String, n: u64, base: u64)
    requires
        base == 10 || base == 16,
    ensures
        final(out)@ == old(out)@ + spec_digits(n as nat, base as nat),
    decreases n,
{
    if n < base {
        push_char(out, digit_to_char(n as u8));
    } else {
        proof {
            assert(n / base < n) by (nonlinear_arith) requires n >= base, base >= 2;
        }
        push_digits(out, n / base, base);
        let d: u64 = n % base;
        push_char(out, digit_to_char(d as u8));
        proof {
            assert(final(out)@ =~= old(out)@ + spec_digits(n as nat, base as nat));
        }
    }
}

/// Appends `count` copies of `fill` to `out`.
pub fn push_fill(out: &mut String, fill: char, count: usize)
    ensures
        final(out)@ == old(out)@ + Seq::new(count as nat, |i: int| fill),
{
    let mut i: usize = 0;
    while i < count
        invariant
            i <= count,
            out@ == old(out)@ + Seq::new(i as nat, |j: int| fill),
        decreases count - i,
    {
        push_char(out, fill);
        i = i + 1;
        assert(out@ =~= old(out)@ + Seq::new(i as nat, |j: int| fill));
    }
}

/// Appends `n` in base `base`, right-aligned in `width` characters with
/// `fill` on the left, as `format!("{:0width$x}", n)` and the like write it.
pub fn push_padded(out: &mut String, n: u64, base: u64, width: usize, fill: char)
    requires
        base == 10 || base == 16,
    ensures
        final(out)@ == old(out)@ + pad_left(spec_digits(n as nat, base as nat), width as nat, fill),
{
    let len = digit_count(n, base);
    if len < width {
        push_fill(out, fill, width - len);
    }
    push_digits(out, n, base);
    proof {
        let d = spec_digits(n as nat, base as nat);
        if len < width {
            assert(final(out)@ =~= old(out)@ + (Seq::new((width - len) as nat, |i: int| fill) + d));
        } else {
            assert(final(out)@ =~= old(out)@ + d);
        }
    }
}

/// The text of `n` in base `base`, right-aligned in `width` characters.
pub fn format_padded(n: u64, base: u64, width: usize, fill: char) -> (r: String)
    requires
        base == 10 || base == 16,
    ensures
        r@ == pad_left(spec_digits(n as nat, base as nat), width as nat, fill),
{
    let mut out = String::new();
    push_padded(&mut out, n, base, width, fill);
    assert(out@ =~= pad_left(spec_digits(n as nat, base as nat), width as nat, fill));
    out
}

/// Appends a string slice to `out`.
pub fn push_str(out: &mut String, s: &str)
    ensures
        final(out)@ == old(out)@ + s@,
{
    out.append(s);
}

/// Whether two strings hold the same characters.
pub fn str_eq(a: &str, b: &str) -> (r: bool)
    ensures
        r == (a@ == b@),
{
    let n = a.unicode_len();
    if n != b.unicode_len() {
        return false;
    }
    let mut i: usize = 0;
    while i < n
        invariant
            n == a@.len(),
            n == b@.len(),
            i <= n,
            forall|j: int| 0 <= j < i ==> a@[j] == b@[j],
        decreases n - i,
    {
        if a.get_char(i) != b.get_char(i) {
            return false;
        }
        i = i + 1;
    }
    assert(a@ =~= b@);
    true
}

/// Whether `c` is one of the ASCII digits `0`..`9`.
pub open spec fn is_digit(c: char) -> bool {
    48 <= c as u32 <= 57
}

/// The value of a digit character.
pub open spec fn digit_value(c: char) -> nat {
    (c as u32 - 48) as nat
}

/// The number written by a string of decimal digits.
pub open spec fn decimal_value(s: Seq<char>) -> nat
    decreases s.len(),
{
    if s.len() == 0 {
        0
    } else {
        decimal_value(s.drop_last()) * 10 + digit_value(s.last())
    }
}

/// The digits part of an unsigned number: one leading `+` is allowed.
pub open spec fn unsigned_body(s: Seq<char>) -> Seq<char> {
    if s.len() > 0 && s[0] == '+' {
        s.drop_first()
    } else {
        s
    }
}

/// What `str::parse::<u32>` gives, as an `Option`: the value of an
/// optional `+` followed by one or more decimal digits, when it fits in a
/// `u32`; `None` for anything else.
pub open spec fn spec_parse_u32(s: Seq<char>) -> Option<u32> {
    let b = unsigned_body(s);
    if b.len() > 0 && (forall|i: int| 0 <= i < b.len() ==> is_digit(#[trigger] b[i]))
        && decimal_value(b) <= u32::MAX {
        Some(decimal_value(b) as u32)
    } else {
        None
    }
}

proof fn lemma_decimal_value_prefix_monotone(s: Seq<char>, j: int)
    requires
        0 <= j <= s.len(),
    ensures
        decimal_value(s.take(j)) <= decimal_value(s),
    decreases s.len() - j,
{
    if j < s.len() {
        lemma_decimal_value_prefix_monotone(s, j + 1);
        assert(s.take(j + 1).drop_last() =~= s.take(j));
    } else {
        assert(s.take(j) =~= s);
    }
}

/// Parses an unsigned decimal number as `str::parse::<u32>` does.
pub fn parse_u32(s: &str) -> (r: Option<u32>)
    ensures
        r == spec_parse_u32(s@),
{
    let n = s.unicode_len();
    let mut start: usize = 0;
    if n > 0 && s.get_char(0) == '+' {
        start = 1;
    }
    let ghost body = unsigned_body(s@);
    assert(body =~= s@.subrange(start as int, n as int));
    if start >= n {
        return None;
    }
    let mut acc: u64 = 0;
    let mut i: usize = start;
    while i < n
        invariant
            n == s@.len(),
            start <= i <= n,
            body =~= s@.subrange(start as int, n as int),
            body == unsigned_body(s@),
            forall|j: int| 0 <= j < i - start ==> is_digit(#[trigger] body[j]),
            acc == decimal_value(body.take(i - start)),
            acc <= u32::MAX,
        decreases n - i,
    {
        let c = s.get_char(i);
        if !('0' <= c && c <= '9') {
            assert(!is_digit(body[i - start]));
            return None;
        }
        let d: u64 = (c as u32 - 48) as u64;
        let next: u64 = acc * 10 + d;
        proof {
            assert(body.take(i + 1 - start).drop_last() =~= body.take(i - start));
            assert(body.take(i + 1 - start).last() == c);
        }
        if next > 0xFFFF_FFFF {
            proof {
                lemma_decimal_value_prefix_monotone(body, i + 1 - start);
            }
            return None;
        }
        acc = next;
        i = i + 1;
    }
    assert(body.take(n - start) =~= body);
    Some(acc as u32)
}

proof fn lemma_dec_digits(n: nat)
    ensures
        spec_dec(n).len() > 0,
        forall|i: int| 0 <= i < spec_dec(n).len() ==> is_digit(#[trigger] spec_dec(n)[i]),
        decimal_value(spec_dec(n)) == n,
    decreases n,
{
    if n >= 10 {
        assert(n / 10 < n);
        lemma_dec_digits(n / 10);
        let p = spec_dec(n / 10);
        assert(spec_dec(n) == p.push(digit_char(n % 10)));
        assert(spec_dec(n).drop_last() =~= p);
        assert(n == (n / 10) * 10 + n % 10);
        assert(digit_value(digit_char(n % 10)) == n % 10);
        assert(spec_dec(n).last() == digit_char(n % 10));
        assert(decimal_value(spec_dec(n)) == decimal_value(p) * 10 + digit_value(digit_char(n % 10)));
    } else {
        assert(digit_value(digit_char(n)) == n);
        assert(spec_dec(n) == seq![digit_char(n)]);
        assert(seq![digit_char(n)].drop_last() =~= Seq::<char>::empty());
        assert(decimal_value(Seq::<char>::empty()) == 0);
        assert(decimal_value(spec_dec(n)) == decimal_value(Seq::<char>::empty()) * 10 + digit_value(digit_char(n)));
    }
}

/// Writing a `u32` in decimal and parsing the text gives the number back:
/// what the clock anchor stores is what it later reads.
pub proof fn lemma_parse_dec_round_trip(n: u32)
    ensures
        spec_parse_u32(spec_dec(n as nat)) == Some(n),
{
    lemma_dec_digits(n as nat);
    let d = spec_dec(n as nat);
    assert(is_digit(d[0]));
    assert(unsigned_body(d) == d);
}

} // verus!
