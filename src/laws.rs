//! Properties that hold across operations and inputs, proved from the operations' contracts.
use vstd::prelude::*;
use vstd::arithmetic::div_mod::{lemma_fundamental_div_mod, lemma_fundamental_div_mod_converse};
use vstd::arithmetic::power2::{lemma2_to64, lemma_pow2_pos, lemma_pow2_unfold, pow2};

use crate::consts;
use crate::error::{is_rejection, Error, Parameter};
use crate::img::{pack_dots, pack_prefix, ImageView};
use crate::printer::{align_effect, feed_bytes, line_feeds, Printer};
use crate::token::{char_matches, token_is};

verus! {

proof fn lemma_pack_prefix_all(dots: Seq<bool>, k: nat, on: bool)
    requires
        k <= dots.len(),
        forall|i: int| 0 <= i < k ==> dots[i] == on,
    ensures
        pack_prefix(dots, k) == if on {
            (pow2(k) - 1) as nat
        } else {
            0nat
        },
    decreases k,
{
    if k > 0 {
        lemma_pack_prefix_all(dots, (k - 1) as nat, on);
        lemma_pow2_unfold(k);
        lemma_pow2_pos((k - 1) as nat);
    } else {
        lemma2_to64();
    }
}

/// Eight dots all printed pack to `0xff`, eight dots all blank to `0x00`.
proof fn lemma_pack_uniform(dots: Seq<bool>, on: bool)
    requires
        dots.len() == 8,
        forall|i: int| 0 <= i < 8 ==> dots[i] == on,
    ensures
        pack_dots(dots) == if on {
            0xffu8
        } else {
            0u8
        },
{
    lemma_pack_prefix_all(dots, 8, on);
    lemma2_to64();
}

proof fn lemma_div_mod_below(i: int, c: int, w: int)
    requires
        0 <= i < w * c,
        0 < c,
    ensures
        0 <= i / c < w,
        0 <= i % c < c,
{
    lemma_fundamental_div_mod(i, c);
    let (d, r) = (i / c, i % c);
    assert(0 <= d < w) by (nonlinear_arith)
        requires
            i == c * d + r,
            0 <= r < c,
            0 <= i < w * c,
            0 < c,
    ;
}

proof fn lemma_byte_bits(b0: u8, b1: u8, b2: u8, b3: u8, b4: u8, b5: u8, b6: u8, b7: u8, k: u8, v: u8)
    by (bit_vector)
    requires
        b0 <= 1 && b1 <= 1 && b2 <= 1 && b3 <= 1 && b4 <= 1 && b5 <= 1 && b6 <= 1 && b7 <= 1,
        k < 8,
        v == (b0 << 7u8) | (b1 << 6u8) | (b2 << 5u8) | (b3 << 4u8) | (b4 << 3u8) | (b5 << 2u8) | (b6 << 1u8) | b7,
    ensures
        (v & (0x80u8 >> k)) != 0 <==> {
            ||| (k == 0 && b0 == 1)
            ||| (k == 1 && b1 == 1)
            ||| (k == 2 && b2 == 1)
            ||| (k == 3 && b3 == 1)
            ||| (k == 4 && b4 == 1)
            ||| (k == 5 && b5 == 1)
            ||| (k == 6 && b6 == 1)
            ||| (k == 7 && b7 == 1)
        },
{
}

proof fn lemma_or_is_sum(b0: u8, b1: u8, b2: u8, b3: u8, b4: u8, b5: u8, b6: u8, b7: u8)
    by (bit_vector)
    requires
        b0 <= 1 && b1 <= 1 && b2 <= 1 && b3 <= 1 && b4 <= 1 && b5 <= 1 && b6 <= 1 && b7 <= 1,
    ensures
        (b0 << 7u8) | (b1 << 6u8) | (b2 << 5u8) | (b3 << 4u8) | (b4 << 3u8) | (b5 << 2u8) | (b6 << 1u8) | b7
            == (b0 * 128u8 + b1 * 64u8 + b2 * 32u8 + b3 * 16u8 + b4 * 8u8 + b5 * 4u8 + b6 * 2u8 + b7) as u8,
{
}

/// The packed byte carries dot `k` in bit `0x80 >> k`: that bit is set exactly when the dot is.
pub proof fn packed_byte_bits(dots: Seq<bool>, k: int)
    requires
        dots.len() == 8,
        0 <= k < 8,
    ensures
        (pack_dots(dots) & (0x80u8 >> (k as u8))) != 0 <==> dots[k],
{
    reveal_with_fuel(pack_prefix, 9);
    let b = |i: int| if dots[i] { 1u8 } else { 0u8 };
    let (b0, b1, b2, b3, b4, b5, b6, b7) = (b(0), b(1), b(2), b(3), b(4), b(5), b(6), b(7));
    lemma_or_is_sum(b0, b1, b2, b3, b4, b5, b6, b7);
    let v = (b0 << 7u8) | (b1 << 6u8) | (b2 << 5u8) | (b3 << 4u8) | (b4 << 3u8) | (b5 << 2u8) | (b6 << 1u8) | b7;
    assert(pack_dots(dots) == v);
    lemma_byte_bits(b0, b1, b2, b3, b4, b5, b6, b7, k as u8, v);
}

/// Alignment: LT, CT and RT, in any case, each write exactly their registered three-byte
/// command; any other token is rejected as an alignment and nothing is written.
pub proof fn align_writes_registered_command<W>(
    before: Printer<W>,
    after: Printer<W>,
    token: Seq<char>,
    r: Result<usize, Error>,
)
    requires
        Printer::performed(after, before, align_effect(token), r),
    ensures
        token_is(token, seq!['L', 'T']) ==> r == Ok::<usize, Error>(3) && after.output() == before.output()
            + consts::TXT_ALIGN_LT@,
        token_is(token, seq!['C', 'T']) ==> r == Ok::<usize, Error>(3) && after.output() == before.output()
            + consts::TXT_ALIGN_CT@,
        token_is(token, seq!['R', 'T']) ==> r == Ok::<usize, Error>(3) && after.output() == before.output()
            + consts::TXT_ALIGN_RT@,
        !token_is(token, seq!['L', 'T']) && !token_is(token, seq!['C', 'T']) && !token_is(token, seq!['R', 'T'])
            ==> is_rejection(r, Parameter::Alignment, token) && after.output() == before.output(),
{
    let (lt, ct, rt) = (seq!['L', 'T'], seq!['C', 'T'], seq!['R', 'T']);
    if token_is(token, ct) || token_is(token, rt) {
        assert(char_matches(token[0], ct[0]) || char_matches(token[0], rt[0]));
        assert(!char_matches(token[0], lt[0]));
        if token_is(token, rt) {
            assert(!char_matches(token[0], ct[0]));
        }
    }
    assert(before.output() + consts::TXT_ALIGN_LT@ =~= before.delivered() + (before.pending() + consts::TXT_ALIGN_LT@));
    assert(before.output() + consts::TXT_ALIGN_CT@ =~= before.delivered() + (before.pending() + consts::TXT_ALIGN_CT@));
    assert(before.output() + consts::TXT_ALIGN_RT@ =~= before.delivered() + (before.pending() + consts::TXT_ALIGN_RT@));
}

/// Feeding zero lines writes the same bytes as feeding one, a single line feed; feeding three
/// lines writes three line feeds.
pub proof fn feed_of_zero_is_feed_of_one()
    ensures
        feed_bytes(0) == feed_bytes(1),
        feed_bytes(1) == consts::CTL_LF@,
        feed_bytes(3) == consts::CTL_LF@ + consts::CTL_LF@ + consts::CTL_LF@,
{
    assert(feed_bytes(1) =~= consts::CTL_LF@);
    assert(feed_bytes(3) =~= consts::CTL_LF@ + consts::CTL_LF@ + consts::CTL_LF@);
}

/// The raster bitmap has `ceil(width / 8)` bytes for each row.
pub proof fn raster_length(img: ImageView)
    ensures
        img.raster().len() == ((img.width + 7) / 8) * img.height,
{
}

/// Raster layout: in row `y`, bit `0x80 >> b` of byte `x` is set exactly when the pixel
/// `(8x + b, y)` lies in the image and is not blank.
pub proof fn raster_bit_layout(img: ImageView, x: int, y: int, b: int)
    requires
        0 <= y < img.height,
        0 <= x < img.row_bytes(),
        0 <= b < 8,
    ensures
        y * img.row_bytes() + x < img.raster().len(),
        (img.raster()[y * img.row_bytes() + x] & (0x80u8 >> (b as u8))) != 0 <==> img.is_ink(8 * x + b, y),
{
    let n = img.row_bytes() as int;
    let i = y * n + x;
    lemma_fundamental_div_mod_converse(i, n, y, x);
    assert(i < n * img.height) by (nonlinear_arith)
        requires
            i == y * n + x,
            0 <= x < n,
            0 <= y < img.height,
    ;
    packed_byte_bits(img.row_dots(8 * x, y), b);
}

/// Bit-image layout: in scan line `line` at `density` dots, for column `x` and dot `b` of the
/// column, bit `0x80 >> (b % 8)` of byte `x * (density / 8) + b / 8` is set exactly when the
/// pixel `(x, line * density + b)` lies in the image and is not blank.
pub proof fn scan_line_bit_layout(img: ImageView, density: nat, line: int, x: int, b: int)
    requires
        density == 8 || density == 24,
        0 <= x < img.width,
        0 <= b < density,
    ensures
        x * (density / 8) + b / 8 < img.bitimage_line(line, density).len(),
        (img.bitimage_line(line, density)[x * (density / 8) + b / 8] & (0x80u8 >> ((b % 8) as u8))) != 0
            <==> img.is_ink(x, line * density + b),
{
    let c = (density / 8) as int;
    let i = x * c + b / 8;
    lemma_fundamental_div_mod_converse(i, c, x, b / 8);
    assert(i < img.width * c) by (nonlinear_arith)
        requires
            i == x * c + b / 8,
            0 <= b / 8 < c,
            0 <= x < img.width,
    ;
    packed_byte_bits(img.column_dots(x, line * density + 8 * (b / 8)), b % 8);
}

/// In an image whose every pixel is opaque black, every byte of every full scan line, at
/// either density, is `0xff`, so its top bit `0x80` is set.
pub proof fn black_image_scan_lines_are_solid(img: ImageView, density: nat, line: int, i: int)
    requires
        img.wf(),
        density == 8 || density == 24,
        forall|x: int, y: int|
            0 <= x < img.width && 0 <= y < img.height ==> {
                &&& #[trigger] img.channel(x, y, 0) == 0
                &&& img.channel(x, y, 1) == 0
                &&& img.channel(x, y, 2) == 0
                &&& img.channel(x, y, 3) == 0xff
            },
        0 <= line < img.line_count(density),
        0 <= i < img.bitimage_line(line, density).len(),
    ensures
        img.bitimage_line(line, density)[i] == 0xff,
        img.bitimage_line(line, density)[i] & 0x80 == 0x80,
{
    let c = (density / 8) as int;
    lemma_div_mod_below(i, c, img.width as int);
    let x = i / c;
    let top = line * density + 8 * (i % c);
    let h = img.height as int;
    let d = density as int;
    assert(top + 8 <= h) by (nonlinear_arith)
        requires
            top == line * d + 8 * (i % c),
            0 <= i % c < c,
            8 * c == d,
            0 <= line < h / d,
            d > 0,
    {
        lemma_fundamental_div_mod(h, d);
    }
    let dots = img.column_dots(x, top);
    assert forall|k: int| 0 <= k < 8 implies dots[k] == true by {
        assert(img.channel(x, top + k, 0) == 0);
    }
    lemma_pack_uniform(dots, true);
    assert(0xffu8 & 0x80u8 == 0x80u8) by (bit_vector);
}

/// In an image whose every pixel is blank (pure white or fully transparent), every byte of
/// every scan line is `0x00`.
pub proof fn white_image_scan_lines_are_empty(img: ImageView, density: nat, line: int, i: int)
    requires
        img.wf(),
        density == 8 || density == 24,
        forall|x: int, y: int| 0 <= x < img.width && 0 <= y < img.height ==> #[trigger] img.is_blank(x, y),
        0 <= i < img.bitimage_line(line, density).len(),
    ensures
        img.bitimage_line(line, density)[i] == 0,
{
    let c = (density / 8) as int;
    let dots = img.column_dots(i / c, line * density + 8 * (i % c));
    assert forall|k: int| 0 <= k < 8 implies dots[k] == false by {
        if img.is_ink(i / c, line * density + 8 * (i % c) + k) {
            assert(img.is_blank(i / c, line * density + 8 * (i % c) + k));
        }
    }
    lemma_pack_uniform(dots, false);
}

} // verus!
