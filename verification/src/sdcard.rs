//! The SPI SD card: the built-in test image and the panel caption.

use vstd::prelude::*;
use crate::text::{spec_dec, push_digits, push_str, push_char};

verus! {

/// Bytes per SD card sector.
pub const SECTOR_SIZE: usize = 512;

/// Sectors in the built-in test image.
pub const TEST_IMAGE_SECTORS: usize = 8;

/// Byte `i` of the test image: the first 256 bytes of sector `k` count
/// up from `16 * k` (wrapping at 256), the other 256 bytes are `0xFF`.
pub open spec fn test_image_byte(i: int) -> u8 {
    let sector = i / 512;
    let offset = i % 512;
    if offset < 256 {
        ((sector * 16 + offset) % 256) as u8
    } else {
        0xFF
    }
}

/// 8-sector image with recognizable patterns: sector 0 = 0x00..0xFF then
/// 0xFF padding to 512. The `spi-sdcard` C demo reads sector 0 and prints
/// the first 16 bytes ("00 01 02 ... 0F").
pub fn default_sd_image() -> (img: Vec<u8>)
    ensures
        img@.len() == SECTOR_SIZE * TEST_IMAGE_SECTORS,
        forall|i: int| 0 <= i < img@.len() ==> img@[i] == test_image_byte(i),
        forall|k: int, o: int| 0 <= k < 8 && 0 <= o < 256 ==> #[trigger] img@[512 * k + o] == ((16 * k + o) % 256) as u8,
        forall|k: int, o: int| 0 <= k < 8 && 256 <= o < 512 ==> #[trigger] img@[512 * k + o] == 0xFF,
{
    let mut img: Vec<u8> = Vec::with_capacity(8 * 512);
    let mut sector: u16 = 0;
    while sector < 8
        invariant
            sector <= 8,
            img@.len() == sector * 512,
            forall|i: int| 0 <= i < img@.len() ==> img@[i] == test_image_byte(i),
        decreases 8 - sector,
    {
        let mut b: u16 = 0;
        while b < 256
            invariant
                sector < 8,
                b <= 256,
                img@.len() == sector * 512 + b,
                forall|i: int| 0 <= i < img@.len() ==> img@[i] == test_image_byte(i),
            decreases 256 - b,
        {
            let v: u16 = sector * 16 + b;
            img.push((v % 256) as u8);
            proof {
                let i: int = sector * 512 + b;
                assert(i / 512 == sector as int && i % 512 == b as int) by (nonlinear_arith)
                    requires i == sector * 512 + b, b < 256;
            }
            b = b + 1;
        }
        let target: usize = ((sector + 1) * 512) as usize;
        while img.len() < target
            invariant
                sector < 8,
                target == (sector + 1) * 512,
                sector * 512 + 256 <= img@.len() <= target,
                forall|i: int| 0 <= i < img@.len() ==> img@[i] == test_image_byte(i),
            decreases target - img@.len(),
        {
            proof {
                let i: int = img@.len() as int;
                assert(i / 512 == sector as int && i % 512 >= 256) by (nonlinear_arith)
                    requires sector * 512 + 256 <= i < (sector + 1) * 512;
            }
            img.push(0xFF);
        }
        sector = sector + 1;
    }
    proof {
        lemma_test_image_sectors();
        assert forall|k: int, o: int| 0 <= k < 8 && 0 <= o < 512 implies
            #[trigger] img@[512 * k + o] == test_image_byte(512 * k + o) by {
            assert(0 <= 512 * k + o < 4096);
        }
    }
    img
}

/// `n / d` rounded to the nearest integer, ties to the even one.
pub open spec fn round_half_even_div(n: nat, d: nat) -> nat {
    let q = n / d;
    let r = n % d;
    if 2 * r > d || (2 * r == d && q % 2 == 1) {
        q + 1
    } else {
        q
    }
}

/// The spacing of `f64` values around the integer `n`: 1 below 2^53,
/// doubling with each further bit.
pub open spec fn f64_spacing(n: nat) -> nat
    decreases n,
{
    if n < 0x20_0000_0000_0000 {
        1
    } else {
        2 * f64_spacing(n / 2)
    }
}

/// The `f64` nearest to the integer `n` (ties to even), as `n as f64` gives it.
pub open spec fn f64_nearest(n: nat) -> nat {
    round_half_even_div(n, f64_spacing(n)) * f64_spacing(n)
}

/// `n / d` written with one decimal, as `format!("{:.1}", n as f64 / d as f64)`
/// writes it for a power of two `d`: the exact quotient rounded half to even.
pub open spec fn one_decimal(n: nat, d: nat) -> Seq<char> {
    let tenths = round_half_even_div(n * 10, d);
    spec_dec(tenths / 10) + seq!['.'] + spec_dec(tenths % 10)
}

/// One kibibyte.
pub const KB: usize = 1024;

/// One mebibyte.
pub const MB: usize = 1048576;

/// The size label of the SD card panel: whole bytes below 1 KB, else
/// kibibytes or mebibytes with one decimal.
pub open spec fn spec_format_size(bytes: nat) -> Seq<char> {
    if bytes >= MB {
        one_decimal(f64_nearest(bytes), MB as nat) + " MB"@
    } else if bytes >= KB {
        one_decimal(f64_nearest(bytes), KB as nat) + " KB"@
    } else {
        spec_dec(bytes) + " B"@
    }
}

fn round_half_even_div_exec(n: u128, d: u128) -> (r: u128)
    requires
        0 < d <= 0x1_0000_0000,
        n <= 0x1_0000_0000_0000_0000_0000,
    ensures
        r == round_half_even_div(n as nat, d as nat),
        r <= n / d + 1,
{
    let q = n / d;
    let r = n % d;
    if 2 * r > d || (2 * r == d && q % 2 == 1) {
        q + 1
    } else {
        q
    }
}

proof fn lemma_spacing_pos(n: nat)
    ensures
        f64_spacing(n) >= 1,
    decreases n,
{
    if n >= 0x20_0000_0000_0000 {
        lemma_spacing_pos(n / 2);
    }
}

/// The integer value of `n as f64`.
fn f64_nearest_exec(n: u64) -> (r: u128)
    ensures
        r == f64_nearest(n as nat),
        r <= 0x1_0000_0000_0000_1000,
{
    let mut m: u64 = n;
    let mut u: u64 = 1;
    while m >= 0x20_0000_0000_0000
        invariant
            f64_spacing(n as nat) == u * f64_spacing(m as nat),
            1 <= u <= 4096,
            u == 1 || m >= 0x10_0000_0000_0000,
            u * m <= n,
        decreases m,
    {
        proof {
            assert(u * 0x20_0000_0000_0000 <= u * m) by (nonlinear_arith)
                requires m >= 0x20_0000_0000_0000, u >= 1;
            assert(u <= 2048) by (nonlinear_arith)
                requires u * 0x20_0000_0000_0000 <= n, n <= u64::MAX, u >= 1;
            assert((2 * u) * (m / 2) <= u * m) by (nonlinear_arith) requires u >= 1;
            assert(f64_spacing(m as nat) == 2 * f64_spacing((m / 2) as nat));
            assert(u * (2 * f64_spacing((m / 2) as nat)) == (2 * u) * f64_spacing((m / 2) as nat))
                by (nonlinear_arith);
        }
        m = m / 2;
        u = u * 2;
    }
    assert(f64_spacing(m as nat) == 1);
    assert(u * f64_spacing(m as nat) == u) by (nonlinear_arith)
        requires f64_spacing(m as nat) == 1;
    assert(f64_spacing(n as nat) == u);
    let q = round_half_even_div_exec(n as u128, u as u128);
    proof {
        assert(q * u <= n + u) by (nonlinear_arith)
            requires q <= n / u + 1, u >= 1;
    }
    q * (u as u128)
}

fn push_one_decimal(out: &mut String, n: u128, d: u128)
    requires
        n <= 0x1_0000_0000_0000_1000,
        d == KB || d == MB,
    ensures
        final(out)@ == old(out)@ + one_decimal(n as nat, d as nat),
{
    let tenths = round_half_even_div_exec(n * 10, d);
    proof {
        assert(tenths / 10 <= u64::MAX) by (nonlinear_arith)
            requires tenths <= ((n * 10) as int) / (d as int) + 1, n <= 0x1_0000_0000_0000_1000, d >= 1024;
    }
    push_digits(out, (tenths / 10) as u64, 10);
    push_char(out, '.');
    push_digits(out, (tenths % 10) as u64, 10);
    proof {
        assert(final(out)@ =~= old(out)@ + one_decimal(n as nat, d as nat));
    }
}

/// Human-readable size of the SD card image: `"512 B"`, `"4.0 KB"`,
/// `"1.5 MB"`, as the panel's `format_size` writes it with `{:.1}` on the
/// `f64` quotient.
pub fn format_size(bytes: usize) -> (r: String)
    ensures
        r@ == spec_format_size(bytes as nat),
{
    let mut out = String::new();
    if bytes >= MB {
        let x = f64_nearest_exec(bytes as u64);
        push_one_decimal(&mut out, x, MB as u128);
        push_str(&mut out, " MB");
    } else if bytes >= KB {
        let x = f64_nearest_exec(bytes as u64);
        push_one_decimal(&mut out, x, KB as u128);
        push_str(&mut out, " KB");
    } else {
        push_digits(&mut out, bytes as u64, 10);
        push_str(&mut out, " B");
    }
    assert(out@ =~= spec_format_size(bytes as nat));
    out
}

/// Where the current image came from, as the SD card panel names it.
pub open spec fn spec_source_label(user_uploaded: bool, filename: Option<Seq<char>>) -> Seq<char> {
    if user_uploaded {
        match filename {
            Some(f) => f,
            None => "uploaded"@,
        }
    } else {
        "default test image"@
    }
}

/// The source label of the SD card panel: the uploaded file's name (or
/// "uploaded" when it is unknown), or "default test image".
pub fn sd_source_label(user_uploaded: bool, filename: Option<&str>) -> (r: String)
    ensures
        r@ == spec_source_label(user_uploaded, match filename {
            Some(f) => Some(f@),
            None => None,
        }),
        user_uploaded && filename is Some ==> r@ == filename.unwrap()@,
        user_uploaded && filename is None ==> r@ == "uploaded"@,
        !user_uploaded ==> r@ == "default test image"@,
{
    if user_uploaded {
        match filename {
            Some(f) => String::from_str(f),
            None => String::from_str("uploaded"),
        }
    } else {
        String::from_str("default test image")
    }
}

/// The caption of the SD card panel: `"<size> — <source>"`.
pub fn sd_caption(size: usize, user_uploaded: bool, filename: Option<&str>) -> (r: String)
    ensures
        r@ == spec_format_size(size as nat) + " — "@ + spec_source_label(user_uploaded, match filename {
            Some(f) => Some(f@),
            None => None,
        }),
{
    let mut out = format_size(size);
    out.append(" — ");
    let label = sd_source_label(user_uploaded, filename);
    out.append(label.as_str());
    out
}

/// The test image as a sequence of bytes.
pub open spec fn spec_test_image() -> Seq<u8> {
    Seq::new((SECTOR_SIZE * TEST_IMAGE_SECTORS) as nat, |i: int| test_image_byte(i))
}

/// The SD card state kept across Runs: the user's uploaded image, if any,
/// and its file name. Each Run attaches a fresh card holding the test
/// image, then the upload is applied on top, so uploads survive across
/// Runs until Reset restores the default image.
pub struct SdCard {
    user_image: Option<Vec<u8>>,
    filename: Option<String>,
}

impl SdCard {
    /// The user's image, if one was uploaded or restored.
    pub closed spec fn user_image(&self) -> Option<Seq<u8>> {
        match self.user_image {
            Some(v) => Some(v@),
            None => None,
        }
    }

    /// The name of the uploaded file, when known.
    pub closed spec fn filename(&self) -> Option<Seq<char>> {
        match self.filename {
            Some(f) => Some(f@),
            None => None,
        }
    }

    /// The image the card holds during a Run.
    pub open spec fn run_image(&self) -> Seq<u8> {
        match self.user_image() {
            Some(img) => img,
            None => spec_test_image(),
        }
    }

    /// A card holding the default test image.
    pub fn new() -> (c: SdCard)
        ensures
            c.user_image() is None,
            c.filename() is None,
    {
        SdCard { user_image: None, filename: None }
    }

    /// An image restored from browser storage when the page opens: used
    /// from now on, its file name unknown.
    pub fn restore(&mut self, bytes: Vec<u8>)
        ensures
            final(self).user_image() == Some(bytes@),
            final(self).filename() == old(self).filename(),
    {
        self.user_image = Some(bytes);
    }

    /// The user uploaded `bytes` from the file `name`.
    pub fn upload(&mut self, bytes: Vec<u8>, name: String)
        ensures
            final(self).user_image() == Some(bytes@),
            final(self).filename() == Some(name@),
    {
        self.user_image = Some(bytes);
        self.filename = Some(name);
    }

    /// Reset to default: the upload and its name are forgotten.
    pub fn reset(&mut self)
        ensures
            final(self).user_image() is None,
            final(self).filename() is None,
    {
        self.user_image = None;
        self.filename = None;
    }

    /// Whether the current image is a user upload rather than the default.
    pub fn user_uploaded(&self) -> (r: bool)
        ensures
            r == self.user_image() is Some,
    {
        self.user_image.is_some()
    }

    /// The image to load into the card attached at the start of a Run.
    pub fn image_for_run(&self) -> (img: Vec<u8>)
        ensures
            img@ == self.run_image(),
    {
        match &self.user_image {
            Some(v) => {
                let img = v.clone();
                assert(img@ =~= v@);
                img
            },
            None => {
                let img = default_sd_image();
                assert(img@ =~= spec_test_image());
                img
            },
        }
    }

    /// Size in bytes of the image the card holds.
    pub fn size(&self) -> (r: usize)
        ensures
            r == self.run_image().len(),
    {
        match &self.user_image {
            Some(v) => v.len(),
            None => SECTOR_SIZE * TEST_IMAGE_SECTORS,
        }
    }

    /// The SD card panel's caption for this card.
    pub fn caption(&self) -> (r: String)
        ensures
            r@ == spec_format_size(self.run_image().len()) + " — "@
                + spec_source_label(self.user_image() is Some, self.filename()),
    {
        let size = self.size();
        let uploaded = self.user_uploaded();
        match &self.filename {
            Some(f) => sd_caption(size, uploaded, Some(f.as_str())),
            None => sd_caption(size, uploaded, None),
        }
    }
}

/// Reset restores the test image: whatever was uploaded before, the card
/// of every following Run holds the default pattern.
pub proof fn lemma_reset_restores_test_image(card: SdCard)
    requires
        card.user_image() is None,
    ensures
        card.run_image() == spec_test_image(),
        card.run_image().len() == 4096,
{
}

/// An upload survives across Runs: every Run until the next upload or
/// reset loads exactly the uploaded bytes.
pub proof fn lemma_upload_survives_runs(card: SdCard, bytes: Seq<u8>)
    requires
        card.user_image() == Some(bytes),
    ensures
        card.run_image() == bytes,
{
}

/// Sector 0 of the test image counts 0x00..0xFF and then pads with 0xFF
/// to 512 bytes, so a program reading its first 16 bytes sees 00..0F.
pub proof fn lemma_sector_zero_pattern(i: int)
    requires
        0 <= i < 512,
    ensures
        i < 256 ==> spec_test_image()[i] == i as u8,
        i >= 256 ==> spec_test_image()[i] == 0xFF,
{
    assert(i / 512 == 0 && i % 512 == i);
}

/// Every one of the eight sectors carries the pattern: the first 256 bytes
/// of sector `k` count up from `16 * k` (mod 256), the rest are 0xFF.
pub proof fn lemma_test_image_sectors()
    ensures
        spec_test_image().len() == 4096,
        forall|k: int, o: int| 0 <= k < 8 && 0 <= o < 256 ==>
            #[trigger] spec_test_image()[512 * k + o] == ((16 * k + o) % 256) as u8,
        forall|k: int, o: int| 0 <= k < 8 && 256 <= o < 512 ==>
            #[trigger] spec_test_image()[512 * k + o] == 0xFF,
        forall|k: int, o: int| 0 <= k < 8 && 0 <= o < 256 ==>
            #[trigger] test_image_byte(512 * k + o) == ((16 * k + o) % 256) as u8,
        forall|k: int, o: int| 0 <= k < 8 && 256 <= o < 512 ==>
            #[trigger] test_image_byte(512 * k + o) == 0xFF,
{
    assert forall|k: int, o: int| 0 <= k < 8 && 0 <= o < 512 implies
        #[trigger] test_image_byte(512 * k + o) == (if o < 256 { ((16 * k + o) % 256) as u8 } else { 0xFFu8 }) by {
        assert((512 * k + o) / 512 == k && (512 * k + o) % 512 == o) by (nonlinear_arith)
            requires 0 <= o < 512;
    }
    assert forall|k: int, o: int| 0 <= k < 8 && 0 <= o < 512 implies
        #[trigger] spec_test_image()[512 * k + o] == test_image_byte(512 * k + o) by {
    }
}

/// An uploaded image is captioned with its own file name, whatever that
/// name is; without a name it is "uploaded"; only a card without an
/// upload is called the default test image.
pub proof fn lemma_source_label_names_upload(f: Seq<char>)
    ensures
        spec_source_label(true, Some(f)) == f,
        spec_source_label(true, None) == "uploaded"@,
        spec_source_label(false, Some(f)) == "default test image"@,
        spec_source_label(false, None) == "default test image"@,
        spec_source_label(true, None) != "default test image"@,
{
    reveal_strlit("uploaded");
    reveal_strlit("default test image");
}

} // verus!
