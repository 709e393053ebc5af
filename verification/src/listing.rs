//! The assembly listing: one line per assembled source line, with the
//! address, the emitted bytes in hex and the source text, plus the
//! right-aligned line-number gutter.

use vstd::prelude::*;
use crate::text::{digit_char, spec_digits, pad_left, pad_right, spec_hex, spec_dec, push_padded, push_char, push_fill, push_str, digit_count};

verus! {

/// One line of the assembler's listing.
pub struct ListingLine {
    /// Address of the first emitted byte.
    pub address: u32,
    /// The bytes this line emitted (none for labels, comments, directives).
    pub bytes: Vec<u8>,
    /// The source text of the line.
    pub source: String,
}

/// A byte as two lower-case hex digits (`{b:02x}`).
pub open spec fn hex_byte(b: u8) -> Seq<char> {
    pad_left(spec_hex(b as nat), 2, '0')
}

/// The bytes in hex, separated by single spaces, with no trailing space.
pub open spec fn hex_bytes(bs: Seq<u8>) -> Seq<char>
    decreases bs.len(),
{
    if bs.len() == 0 {
        Seq::empty()
    } else if bs.len() == 1 {
        hex_byte(bs[0])
    } else {
        hex_bytes(bs.drop_last()) + seq![' '] + hex_byte(bs.last())
    }
}

/// Width of the address and bytes columns together, where the source of
/// a line without bytes starts.
pub const SOURCE_COLUMN: usize = 22;

/// A listing line as text: lines without bytes show their source after 22
/// spaces; others show the address as six hex digits, two spaces, the
/// bytes padded to 14 characters, then the source.
pub open spec fn spec_format_listing_line(address: u32, bytes: Seq<u8>, source: Seq<char>) -> Seq<char> {
    if bytes.len() == 0 {
        Seq::new(22, |i: int| ' ') + source
    } else {
        pad_left(spec_hex(address as nat), 6, '0') + "  "@ + pad_right(hex_bytes(bytes), 14) + source
    }
}

fn push_hex_bytes(out: &mut String, bytes: &Vec<u8>)
    ensures
        final(out)@ == old(out)@ + hex_bytes(bytes@),
{
    let mut i: usize = 0;
    while i < bytes.len()
        invariant
            i <= bytes@.len(),
            out@ == old(out)@ + hex_bytes(bytes@.take(i as int)),
        decreases bytes@.len() - i,
    {
        let ghost before = out@;
        if i > 0 {
            push_char(out, ' ');
        }
        push_padded(out, bytes[i] as u64, 16, 2, '0');
        proof {
            let t = bytes@.take(i + 1);
            assert(t.drop_last() =~= bytes@.take(i as int));
            assert(t.last() == bytes@[i as int]);
            if i == 0 {
                assert(hex_bytes(bytes@.take(0)) =~= Seq::<char>::empty());
                assert(out@ =~= old(out)@ + hex_bytes(t));
            } else {
                assert(out@ =~= old(out)@ + hex_bytes(t));
            }
        }
        i = i + 1;
    }
    assert(bytes@.take(bytes@.len() as int) =~= bytes@);
}

/// Formats one listing line (`{:06x}  {:<14}{}` for lines with bytes).
pub fn format_listing_line(line: &ListingLine) -> (r: String)
    ensures
        r@ == spec_format_listing_line(line.address, line.bytes@, line.source@),
{
    let mut out = String::new();
    if line.bytes.len() == 0 {
        push_fill(&mut out, ' ', SOURCE_COLUMN);
        push_str(&mut out, line.source.as_str());
    } else {
        push_padded(&mut out, line.address as u64, 16, 6, '0');
        push_str(&mut out, "  ");
        let mut hex = String::new();
        push_hex_bytes(&mut hex, &line.bytes);
        let n = hex.unicode_len();
        push_str(&mut out, hex.as_str());
        if n < 14 {
            push_fill(&mut out, ' ', 14 - n);
        }
        push_str(&mut out, line.source.as_str());
    }
    assert(out@ =~= spec_format_listing_line(line.address, line.bytes@, line.source@));
    out
}

/// The gutter label of line `n` in a listing of `count` lines: the number
/// right-aligned to the width of `count`, then a newline.
pub open spec fn spec_line_number_label(n: nat, count: nat) -> Seq<char> {
    pad_left(spec_dec(n), spec_dec(count).len(), ' ') + seq!['\n']
}

/// Formats the gutter label of line `n` (`{:>width$}\n`, the width being
/// the number of digits of `count`).
pub fn line_number_label(n: usize, count: usize) -> (r: String)
    ensures
        r@ == spec_line_number_label(n as nat, count as nat),
{
    let width = digit_count(count as u64, 10);
    let mut out = String::new();
    push_padded(&mut out, n as u64, 10, width, ' ');
    push_char(&mut out, '\n');
    out
}

/// Whether line `n` (counted from 1) is the line an error points at.
pub fn is_error_line(error_line: Option<usize>, n: usize) -> (r: bool)
    ensures
        r == (error_line == Some(n)),
{
    match error_line {
        Some(e) => e == n,
        None => false,
    }
}

/// The coloured columns of a listing line with bytes, cut from its text
/// at fixed positions: characters 0..6, 6..8, 8..22, and the rest.
pub struct ListingColumns {
    /// The address column.
    pub address: String,
    /// The gap after the address.
    pub gap: String,
    /// The bytes column.
    pub hex: String,
    /// The source, when the line is longer than the first three columns.
    pub source: Option<String>,
}

/// Cuts a listing line that emitted bytes into its coloured columns.
pub fn listing_columns(line: &ListingLine) -> (c: ListingColumns)
    requires
        line.bytes@.len() > 0,
    ensures
        ({
            let f = spec_format_listing_line(line.address, line.bytes@, line.source@);
            &&& c.address@ == f.subrange(0, 6)
            &&& c.gap@ == f.subrange(6, 8)
            &&& c.hex@ == f.subrange(8, 22)
            &&& if f.len() > 22 {
                c.source matches Some(s) && s@ == f.subrange(22, f.len() as int)
            } else {
                c.source is None
            }
        }),
{
    let formatted = format_listing_line(line);
    let f = formatted.as_str();
    let n = f.unicode_len();
    proof {
        let a = pad_left(spec_hex(line.address as nat), 6, '0');
        let h = pad_right(hex_bytes(line.bytes@), 14);
        assert(a.len() >= 6);
        assert(h.len() >= 14);
        reveal_strlit("  ");
        assert(f@.len() >= 22);
    }
    let address = String::from_str(f.substring_char(0, 6));
    let gap = String::from_str(f.substring_char(6, 8));
    let hex = String::from_str(f.substring_char(8, 22));
    let source = if n > 22 {
        Some(String::from_str(f.substring_char(22, n)))
    } else {
        None
    };
    ListingColumns { address, gap, hex, source }
}

/// A byte is shown as its high hex digit then its low hex digit.
pub proof fn lemma_hex_byte_digits(b: u8)
    ensures
        hex_byte(b) == seq![digit_char((b / 16) as nat), digit_char((b % 16) as nat)],
{
    let n = b as nat;
    if n < 16 {
        assert(spec_digits(n, 16) == seq![digit_char(n)]);
        assert(digit_char(0) == '0');
        assert(hex_byte(b) =~= seq!['0', digit_char(n)]);
    } else {
        assert(n / 16 < 16);
        assert(spec_digits(n / 16, 16) == seq![digit_char(n / 16)]);
        assert(spec_digits(n, 16) == spec_digits(n / 16, 16).push(digit_char(n % 16)));
        assert(hex_byte(b) =~= seq![digit_char(n / 16), digit_char(n % 16)]);
    }
}

/// The bytes column lists the bytes in the order they were emitted, each
/// as two hex digits, separated by single spaces: `3 * n - 1` characters
/// for `n` bytes.
pub proof fn lemma_hex_bytes_layout(bs: Seq<u8>)
    requires
        bs.len() > 0,
    ensures
        hex_bytes(bs).len() == 3 * bs.len() - 1,
        forall|i: int| 0 <= i < bs.len() ==> #[trigger] hex_bytes(bs)[3 * i] == digit_char((bs[i] / 16) as nat)
            && hex_bytes(bs)[3 * i + 1] == digit_char((bs[i] % 16) as nat),
        forall|i: int| 0 <= i < bs.len() - 1 ==> #[trigger] hex_bytes(bs)[3 * i + 2] == ' ',
    decreases bs.len(),
{
    lemma_hex_byte_digits(bs.last());
    if bs.len() == 1 {
        lemma_hex_byte_digits(bs[0]);
    } else {
        let p = bs.drop_last();
        lemma_hex_bytes_layout(p);
        let h = hex_bytes(bs);
        let hp = hex_bytes(p);
        assert(h == hp + seq![' '] + hex_byte(bs.last()));
        assert forall|i: int| 0 <= i < bs.len() implies #[trigger] h[3 * i] == digit_char((bs[i] / 16) as nat)
            && h[3 * i + 1] == digit_char((bs[i] % 16) as nat) by {
            if i < p.len() {
                assert(hp[3 * i] == digit_char((p[i] / 16) as nat));
                assert(hp[3 * i + 1] == digit_char((p[i] % 16) as nat));
            }
        }
        assert forall|i: int| 0 <= i < bs.len() - 1 implies #[trigger] h[3 * i + 2] == ' ' by {
            if i < p.len() - 1 {
                assert(hp[3 * i + 2] == ' ');
            }
        }
    }
}

/// A listing line with bytes is the address as at least six hex digits,
/// two spaces, then from column `a + 2` the emitted bytes in order (two hex
/// digits each, one space apart), padded to 14 characters, then the source.
pub proof fn lemma_listing_line_layout(address: u32, bs: Seq<u8>, source: Seq<char>)
    requires
        bs.len() > 0,
    ensures
        ({
            let f = spec_format_listing_line(address, bs, source);
            let a = pad_left(spec_hex(address as nat), 6, '0');
            let c: int = a.len() as int + 2;
            &&& a.len() >= 6
            &&& f.subrange(0, a.len() as int) == a
            &&& f[a.len() as int] == ' ' && f[a.len() as int + 1] == ' '
            &&& forall|i: int| 0 <= i < bs.len() ==> #[trigger] f[c + 3 * i] == digit_char((bs[i] / 16) as nat)
                && f[c + 3 * i + 1] == digit_char((bs[i] % 16) as nat)
            &&& forall|i: int| 0 <= i < bs.len() - 1 ==> #[trigger] f[c + 3 * i + 2] == ' '
            &&& forall|j: int| c + 3 * bs.len() - 1 <= j < c + 14 ==> #[trigger] f[j] == ' '
            &&& f.subrange(f.len() - source.len(), f.len() as int) == source
            &&& f.len() == c + (if 3 * bs.len() - 1 >= 14 { 3 * bs.len() - 1 } else { 14 }) + source.len()
        }),
{
    lemma_hex_bytes_layout(bs);
    reveal_strlit("  ");
    let f = spec_format_listing_line(address, bs, source);
    let a = pad_left(spec_hex(address as nat), 6, '0');
    let h = hex_bytes(bs);
    let ph = pad_right(h, 14);
    let c: int = a.len() as int + 2;
    assert(f == a + "  "@ + ph + source);
    assert(f.subrange(0, a.len() as int) =~= a);
    assert forall|i: int| 0 <= i < bs.len() implies #[trigger] f[c + 3 * i] == digit_char((bs[i] / 16) as nat)
        && f[c + 3 * i + 1] == digit_char((bs[i] % 16) as nat) by {
        assert(h[3 * i] == digit_char((bs[i] / 16) as nat));
        assert(ph[3 * i] == h[3 * i] && ph[3 * i + 1] == h[3 * i + 1]);
    }
    assert forall|i: int| 0 <= i < bs.len() - 1 implies #[trigger] f[c + 3 * i + 2] == ' ' by {
        assert(h[3 * i + 2] == ' ');
        assert(ph[3 * i + 2] == h[3 * i + 2]);
    }
    assert forall|j: int| c + 3 * bs.len() - 1 <= j < c + 14 implies #[trigger] f[j] == ' ' by {
        assert(ph[j - c] == ' ');
    }
    assert(f.subrange(f.len() - source.len(), f.len() as int) =~= source);
}

} // verus!
