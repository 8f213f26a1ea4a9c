//! The image model: a decoded RGBA pixel buffer and the two monochrome bitmaps the
//! protocol prints from it, column stripes for bit-image mode and rows for raster mode.
use vstd::prelude::*;
use vstd::arithmetic::div_mod::{lemma_fundamental_div_mod, lemma_fundamental_div_mod_converse};
use vstd::arithmetic::mul::lemma_mul_is_commutative;
use vstd::arithmetic::power2::{lemma2_to64, lemma_pow2_strictly_increases, lemma_pow2_unfold, pow2};

use vstd::utf8::encode_utf8;

use qrcode::types::QrError;
use qrcode::QrCode;

verus! {

#[verifier::external_type_specification]
#[verifier::external_body]
pub struct ExQrError(QrError);

/// The QR code that qrcode builds for `data`: its width in modules and its modules row by row,
/// `true` for dark; `None` when the data cannot be encoded.
pub uninterp spec fn qr_symbol(data: Seq<u8>) -> Option<(nat, Seq<bool>)>;

/// Relies on qrcode's `QrCode::new` (medium error correction, the smallest version that holds
/// the data), `QrCode::width` and `QrCode::into_vec`, which lists the width × width modules row
/// by row, `true` for dark.
#[verifier::external_body]
#[allow(deprecated)]
fn qr_modules(data: &[u8]) -> (r: Result<(usize, Vec<bool>), QrError>)
    ensures
        r is Ok ==> qr_symbol(data@) == Some((r->Ok_0.0 as nat, r->Ok_0.1@)),
        r is Ok ==> r->Ok_0.1@.len() == r->Ok_0.0 * r->Ok_0.0,
        r is Err ==> qr_symbol(data@) is None,
{
    match QrCode::new(data) {
        Ok(code) => Ok((code.width(), code.into_vec())),
        Err(e) => Err(e),
    }
}

/// The side of one module, in pixels, when a code `cw` modules wide is drawn `width` pixels
/// wide with room for a quiet zone of one module on each side.
pub open spec fn qr_module_size(cw: nat, width: nat) -> nat {
    width / (cw + 2)
}

/// The quiet zone left and above the modules: one module plus half the pixels left over.
pub open spec fn qr_margin(cw: nat, width: nat) -> nat {
    (width % (cw + 2)) / 2 + width / (cw + 2)
}

/// The pixel `(x, y)` of the drawn code lies on a dark module.
pub open spec fn qr_dark(modules: Seq<bool>, cw: nat, width: nat, x: int, y: int) -> bool {
    let m = qr_module_size(cw, width) as int;
    let q = qr_margin(cw, width) as int;
    &&& q <= x < q + m * cw
    &&& q <= y < q + m * cw
    &&& modules[((y - q) / m) * cw + (x - q) / m]
}

/// The RGBA bytes of the code drawn `width` pixels square: opaque black on dark modules,
/// opaque white everywhere else.
pub open spec fn qr_rgba(modules: Seq<bool>, cw: nat, width: nat) -> Seq<u8> {
    Seq::new(
        width * width * 4,
        |i: int|
            if i % 4 != 3 && qr_dark(modules, cw, width, (i / 4) % (width as int), (i / 4) / (width as int)) {
                0u8
            } else {
                0xffu8
            },
    )
}

proof fn lemma_div_below(a: int, m: int, n: int)
    requires
        0 <= a < m * n,
        0 < m,
    ensures
        0 <= a / m < n,
{
    lemma_fundamental_div_mod(a, m);
    let d = a / m;
    let r = a % m;
    assert(0 <= r < m);
    assert(0 <= d < n) by (nonlinear_arith)
        requires
            a == m * d + r,
            0 <= r < m,
            0 <= a < m * n,
            0 < m,
    ;
}

/// The first `k` of `dots`, most significant first, as a number below `2^k`.
pub open spec fn pack_prefix(dots: Seq<bool>, k: nat) -> nat
    decreases k,
{
    if k == 0 {
        0
    } else {
        2 * pack_prefix(dots, (k - 1) as nat) + if dots[k - 1] {
            1nat
        } else {
            0nat
        }
    }
}

/// The byte of eight dots: bit `0x80 >> k` stands for `dots[k]`.
pub open spec fn pack_dots(dots: Seq<bool>) -> u8 {
    pack_prefix(dots, 8) as u8
}

proof fn lemma_pack_prefix_bound(dots: Seq<bool>, k: nat)
    ensures
        pack_prefix(dots, k) < pow2(k),
    decreases k,
{
    if k > 0 {
        lemma_pack_prefix_bound(dots, (k - 1) as nat);
        lemma_pow2_unfold(k);
    } else {
        lemma2_to64();
    }
}

/// The pixels of an image, `width` by `height`, row by row, four bytes each: red, green,
/// blue and alpha.
pub struct ImageView {
    pub width: nat,
    pub height: nat,
    pub rgba: Seq<u8>,
}

impl ImageView {
    pub open spec fn wf(self) -> bool {
        self.rgba.len() == self.width * self.height * 4
    }

    /// Channel `c` (0 red, 1 green, 2 blue, 3 alpha) of the pixel at column `x`, row `y`.
    pub open spec fn channel(self, x: int, y: int, c: int) -> u8 {
        self.rgba[(y * self.width + x) * 4 + c]
    }

    /// The pixel prints as background: it is fully transparent, or pure white.
    pub open spec fn is_blank(self, x: int, y: int) -> bool {
        ||| self.channel(x, y, 3) == 0
        ||| (self.channel(x, y, 0) == 0xff && self.channel(x, y, 1) == 0xff && self.channel(x, y, 2) == 0xff)
    }

    /// A dot is printed at `(x, y)`: the point lies in the image and its pixel is not blank.
    pub open spec fn is_ink(self, x: int, y: int) -> bool {
        0 <= x < self.width && 0 <= y < self.height && !self.is_blank(x, y)
    }

    /// Bytes per row of the raster bitmap: one per eight columns, rounded up.
    pub open spec fn row_bytes(self) -> nat {
        (self.width + 7) / 8
    }

    /// The eight dots of row `y` from column `x` rightwards.
    pub open spec fn row_dots(self, x: int, y: int) -> Seq<bool> {
        Seq::new(8, |k: int| self.is_ink(x + k, y))
    }

    /// Byte `i` of the raster bitmap: eight dots of a row, from column `8 * (i % n)` rightwards,
    /// where `n` is the number of bytes per row.
    pub open spec fn raster_byte(self, i: int) -> u8 {
        let n = self.row_bytes() as int;
        pack_dots(self.row_dots(8 * (i % n), i / n))
    }

    /// The eight dots of column `x` from row `y` downwards.
    pub open spec fn column_dots(self, x: int, y: int) -> Seq<bool> {
        Seq::new(8, |k: int| self.is_ink(x, y + k))
    }

    /// The number of full scan lines of `density` rows; a last band of fewer rows is dropped.
    pub open spec fn line_count(self, density: nat) -> nat {
        self.height / density
    }

    /// Scan line `line` at `density` (8 or 24) dots: for each column `x`, `density / 8` bytes,
    /// byte `j` of column `x` holding the dots of column `x` from row `line * density + 8 * j`
    /// downwards.
    pub open spec fn bitimage_line(self, line: int, density: nat) -> Seq<u8> {
        let c = (density / 8) as int;
        Seq::new(
            self.width * (density / 8),
            |i: int| pack_dots(self.column_dots(i / c, line * density + 8 * (i % c))),
        )
    }

    /// The whole image at one bit per pixel, row-major, `row_bytes()` bytes per row.
    pub open spec fn raster(self) -> Seq<u8> {
        Seq::new(self.row_bytes() * self.height, |i: int| self.raster_byte(i))
    }
}

/// A decoded image, held as its RGBA pixels.
pub struct Image {
    width: u32,
    height: u32,
    rgba: Vec<u8>,
}

impl View for Image {
    type V = ImageView;

    closed spec fn view(&self) -> ImageView {
        ImageView { width: self.width as nat, height: self.height as nat, rgba: self.rgba@ }
    }
}

proof fn lemma_pixel_index(x: int, y: int, w: int, h: int)
    requires
        0 <= x < w,
        0 <= y < h,
    ensures
        0 <= y * w + x < w * h,
        (y * w + x) * 4 + 3 < w * h * 4,
        y * w <= w * h,
{
    assert(y * w + x < w * h) by (nonlinear_arith)
        requires
            0 <= x < w,
            0 <= y < h,
    ;
    assert(0 <= y * w) by (nonlinear_arith)
        requires
            0 <= x < w,
            0 <= y < h,
    ;
}

impl Image {
    #[verifier::type_invariant]
    spec fn wf(self) -> bool {
        self.rgba@.len() == self.width * self.height * 4
    }

    /// The image of `width` by `height` pixels whose RGBA bytes, row by row, are `rgba`;
    /// `None` unless there are exactly four bytes per pixel.
    pub fn from_rgba(width: u32, height: u32, rgba: Vec<u8>) -> (r: Option<Image>)
        ensures
            r is Some <==> rgba@.len() == width * height * 4,
            r is Some ==> r->Some_0@ == (ImageView { width: width as nat, height: height as nat, rgba: rgba@ }),
    {
        let n = rgba.len() as u128;
        assert((width as u128) * (height as u128) * 4 < 0x4_0000_0000_0000_0000) by (nonlinear_arith)
            requires
                width <= u32::MAX,
                height <= u32::MAX,
        ;
        if n == (width as u128) * (height as u128) * 4 {
            Some(Image { width, height, rgba })
        } else {
            None
        }
    }

    pub fn width(&self) -> (r: u32)
        ensures
            r == self@.width,
    {
        self.width
    }

    pub fn height(&self) -> (r: u32)
        ensures
            r == self@.height,
    {
        self.height
    }

    /// The RGBA bytes, row by row.
    pub fn rgba(&self) -> (r: &[u8])
        ensures
            r@ == self@.rgba,
            self@.wf(),
    {
        proof {
            use_type_invariant(self);
        }
        self.rgba.as_slice()
    }

    /// The pixel at column `x`, row `y` prints as background: it is fully transparent, or its
    /// red, green and blue are all maximal.
    pub fn is_blank_pixel(&self, x: u32, y: u32) -> (r: bool)
        requires
            x < self@.width,
            y < self@.height,
        ensures
            r == self@.is_blank(x as int, y as int),
    {
        proof {
            use_type_invariant(self);
            lemma_pixel_index(x as int, y as int, self.width as int, self.height as int);
        }
        let len = self.rgba.len();
        assert((y * self.width + x) * 4 + 3 < len);
        let i = ((y as usize) * (self.width as usize) + (x as usize)) * 4;
        let red = self.rgba[i];
        let green = self.rgba[i + 1];
        let blue = self.rgba[i + 2];
        let alpha = self.rgba[i + 3];
        assert((red & green & blue) == 0xff <==> (red == 0xff && green == 0xff && blue == 0xff))
            by (bit_vector);
        alpha == 0 || (red & green & blue) == 0xff
    }

    fn is_ink(&self, x: u64, y: u64) -> (r: bool)
        ensures
            r == self@.is_ink(x as int, y as int),
    {
        x < self.width as u64 && y < self.height as u64 && !self.is_blank_pixel(x as u32, y as u32)
    }

    /// The eight dots `(x + k, y)`, packed most significant first.
    fn row_byte(&self, x: u64, y: u64) -> (r: u8)
        requires
            x + 8 <= u64::MAX,
        ensures
            r == pack_dots(self@.row_dots(x as int, y as int)),
    {
        let ghost dot = self@.row_dots(x as int, y as int);
        let mut v: u8 = 0;
        let mut k: u64 = 0;
        while k < 8
            invariant
                k <= 8,
                x + 8 <= u64::MAX,
                v as nat == pack_prefix(dot, k as nat),
                dot == self@.row_dots(x as int, y as int),
            decreases 8 - k,
        {
            proof {
                lemma_pack_prefix_bound(dot, k as nat);
                lemma_pow2_unfold((k + 1) as nat);
                lemma2_to64();
                if k + 1 < 8 {
                    lemma_pow2_strictly_increases((k + 1) as nat, 8);
                }
            }
            let bit: u8 = if self.is_ink(x + k, y) { 1 } else { 0 };
            v = v * 2 + bit;
            k = k + 1;
        }
        v
    }

    /// The eight dots `(x, y + k)`, packed most significant first.
    fn column_byte(&self, x: u64, y: u64) -> (r: u8)
        requires
            y + 8 <= u64::MAX,
        ensures
            r == pack_dots(self@.column_dots(x as int, y as int)),
    {
        let ghost dot = self@.column_dots(x as int, y as int);
        let mut v: u8 = 0;
        let mut k: u64 = 0;
        while k < 8
            invariant
                k <= 8,
                y + 8 <= u64::MAX,
                v as nat == pack_prefix(dot, k as nat),
                dot == self@.column_dots(x as int, y as int),
            decreases 8 - k,
        {
            proof {
                lemma_pack_prefix_bound(dot, k as nat);
                lemma_pow2_unfold((k + 1) as nat);
                lemma2_to64();
                if k + 1 < 8 {
                    lemma_pow2_strictly_increases((k + 1) as nat, 8);
                }
            }
            let bit: u8 = if self.is_ink(x, y + k) { 1 } else { 0 };
            v = v * 2 + bit;
            k = k + 1;
        }
        v
    }

    /// Scan line `line` (from 0) at `density` dots per column.
    fn get_line(&self, line: u32, density: u32) -> (r: Vec<u8>)
        requires
            density == 8 || density == 24,
            line < self@.line_count(density as nat),
        ensures
            r@ == self@.bitimage_line(line as int, density as nat),
    {
        let c: u64 = density as u64 / 8;
        assert(line * density <= 0xffff_ffff * 24) by (nonlinear_arith)
            requires
                line <= 0xffff_ffff,
                density <= 24,
        ;
        let top: u64 = line as u64 * density as u64;
        let mut data: Vec<u8> = Vec::new();
        let mut x: u64 = 0;
        while x < self.width as u64
            invariant
                c == density / 8,
                density == 8 || density == 24,
                top == line * density,
                line < self@.line_count(density as nat),
                x <= self@.width,
                data@ =~= self@.bitimage_line(line as int, density as nat).take((x * c) as int),
            decreases self@.width - x,
        {
            let mut j: u64 = 0;
            while j < c
                invariant
                    c == density / 8,
                    density == 8 || density == 24,
                    top == line * density,
                    line < self@.line_count(density as nat),
                    x < self@.width,
                    j <= c,
                    data@ =~= self@.bitimage_line(line as int, density as nat).take((x * c + j) as int),
                decreases c - j,
            {
                proof {
                    lemma_fundamental_div_mod_converse((x * c + j) as int, c as int, x as int, j as int);
                    assert(x * c + j < self@.width * c) by (nonlinear_arith)
                        requires
                            j < c,
                            x < self@.width,
                    ;
                    let h = self@.height as int;
                    let d = density as int;
                    assert(top + d <= h) by (nonlinear_arith)
                        requires
                            top == line * d,
                            line < h / d,
                            d > 0,
                    ;
                }
                let b = self.column_byte(x, top + 8 * j);
                data.push(b);
                j = j + 1;
            }
            assert((x + 1) * c == x * c + c) by (nonlinear_arith);
            x = x + 1;
        }
        data
    }

    /// Draws a QR code given as its `code_width` × `code_width` modules, row by row with `true`
    /// for dark, into a square image `width` pixels wide: each module a square of
    /// `width / (code_width + 2)` pixels, inside a white quiet zone of one module plus half
    /// the pixels left over.
    pub fn from_modules(modules: &Vec<bool>, code_width: usize, width: u32) -> (r: Image)
        requires
            modules@.len() == code_width * code_width,
            width * width * 4 <= usize::MAX,
        ensures
            r@ == (ImageView {
                width: width as nat,
                height: width as nat,
                rgba: qr_rgba(modules@, code_width as nat, width as nat),
            }),
    {
        let ghost cw = code_width as nat;
        let ghost wn = width as nat;
        let count = modules.len();
        assert(code_width + 2 <= usize::MAX) by (nonlinear_arith)
            requires
                code_width * code_width == count,
                count <= usize::MAX,
        ;
        let w = width as usize;
        let span = code_width + 2;
        let m = w / span;
        proof {
            lemma_fundamental_div_mod(w as int, span as int);
            assert(w == m * code_width + 2 * m + w % span) by (nonlinear_arith)
                requires
                    w == span * m + w % span,
                    span == code_width + 2,
            ;
            assert(0 <= m * code_width) by (nonlinear_arith);
        }
        let q = (w % span) / 2 + m;
        let end = q + m * code_width;
        let ghost rgba_spec = qr_rgba(modules@, cw, wn);
        let mut rgba: Vec<u8> = Vec::new();
        let mut y: usize = 0;
        while y < w
            invariant
                w == wn,
                w * w * 4 <= usize::MAX,
                m == qr_module_size(cw, wn),
                q == qr_margin(cw, wn),
                end == q + m * code_width,
                end <= w,
                code_width == cw,
                modules@.len() == cw * cw,
                cw * cw <= usize::MAX,
                rgba_spec == qr_rgba(modules@, cw, wn),
                y <= w,
                rgba@ =~= rgba_spec.take((y * w * 4) as int),
            decreases w - y,
        {
            let mut x: usize = 0;
            while x < w
                invariant
                    w == wn,
                    w * w * 4 <= usize::MAX,
                    m == qr_module_size(cw, wn),
                    q == qr_margin(cw, wn),
                    end == q + m * code_width,
                    end <= w,
                    code_width == cw,
                    modules@.len() == cw * cw,
                    cw * cw <= usize::MAX,
                    rgba_spec == qr_rgba(modules@, cw, wn),
                    y < w,
                    x <= w,
                    rgba@ =~= rgba_spec.take(((y * w + x) * 4) as int),
                decreases w - x,
            {
                let inside = q <= x && x < end && q <= y && y < end;
                let dark = if inside {
                    proof {
                        assert(m > 0) by (nonlinear_arith)
                            requires
                                q < end,
                                end == q + m * code_width,
                        ;
                        let (row, col, mi, n) = ((y - q) as int, (x - q) as int, m as int, code_width as int);
                        lemma_div_below(row, mi, n);
                        lemma_div_below(col, mi, n);
                        assert((row / mi) * n + col / mi < n * n) by (nonlinear_arith)
                            requires
                                0 <= row / mi < n,
                                0 <= col / mi < n,
                        ;
                    }
                    modules[((y - q) / m) * code_width + (x - q) / m]
                } else {
                    false
                };
                let shade: u8 = if dark { 0 } else { 0xff };
                let ghost p = (y * w + x) as int;
                proof {
                    assert(p < w * w) by (nonlinear_arith)
                        requires
                            p == y * w + x,
                            x < w,
                            y < w,
                    ;
                    lemma_fundamental_div_mod_converse(p, w as int, y as int, x as int);
                    lemma_fundamental_div_mod_converse(p * 4, 4, p, 0);
                    lemma_fundamental_div_mod_converse(p * 4 + 1, 4, p, 1);
                    lemma_fundamental_div_mod_converse(p * 4 + 2, 4, p, 2);
                    lemma_fundamental_div_mod_converse(p * 4 + 3, 4, p, 3);
                    assert(dark == qr_dark(modules@, cw, wn, x as int, y as int));
                }
                rgba.push(shade);
                rgba.push(shade);
                rgba.push(shade);
                rgba.push(0xff);
                assert(rgba@ =~= rgba_spec.take(((y * w + x + 1) * 4) as int));
                x = x + 1;
            }
            assert(y * w + w == (y + 1) * w) by (nonlinear_arith);
            y = y + 1;
        }
        assert(rgba_spec.len() == y * w * 4);
        assert(rgba@ =~= rgba_spec);
        Image { width, height: width, rgba }
    }

    /// Draws the QR code that qrcode builds for the bytes of `code` into a square image `width`
    /// pixels wide, as [`Image::from_modules`] does; fails when the data cannot be encoded.
    pub fn from_qr(code: &str, width: u32) -> (r: Result<Image, QrError>)
        requires
            width * width * 4 <= usize::MAX,
        ensures
            qr_symbol(encode_utf8(code@)) is None ==> r is Err,
            qr_symbol(encode_utf8(code@)) is Some ==> r is Ok && r->Ok_0@ == (ImageView {
                width: width as nat,
                height: width as nat,
                rgba: qr_rgba(
                    qr_symbol(encode_utf8(code@))->Some_0.1,
                    qr_symbol(encode_utf8(code@))->Some_0.0,
                    width as nat,
                ),
            }),
    {
        match qr_modules(code.as_bytes()) {
            Ok((code_width, modules)) => Ok(Image::from_modules(&modules, code_width, width)),
            Err(e) => Err(e),
        }
    }

    /// The scan lines of the image at `density` (8 or 24) dots per column, produced one at a
    /// time; only full lines are produced.
    pub fn bitimage_lines(&self, density: u32) -> (r: BitimageLines<'_>)
        requires
            density == 8 || density == 24,
        ensures
            r.image() == self@,
            r.density() == density,
            r.produced() == 0,
    {
        BitimageLines { line: 0, density, image: self }
    }

    /// The image at one bit per pixel: rows of `ceil(width / 8)` bytes, bit `0x80 >> b` of byte
    /// `x` of row `y` standing for the pixel `(8x + b, y)`, set when it is inside the image and
    /// not blank.
    pub fn get_raster(&self) -> (r: Vec<u8>)
        ensures
            r@ == self@.raster(),
    {
        proof {
            use_type_invariant(self);
        }
        let n: u64 = (self.width as u64 + 7) / 8;
        let mut data: Vec<u8> = Vec::new();
        let mut y: u64 = 0;
        while y < self.height as u64
            invariant
                n == self@.row_bytes(),
                y <= self@.height,
                data@ =~= self@.raster().take((y * n) as int),
            decreases self@.height - y,
        {
            let mut x: u64 = 0;
            while x < n
                invariant
                    n == self@.row_bytes(),
                    y < self@.height,
                    x <= n,
                    data@ =~= self@.raster().take((y * n + x) as int),
                decreases n - x,
            {
                proof {
                    lemma_fundamental_div_mod_converse((y * n + x) as int, n as int, y as int, x as int);
                    assert((y * n + x) < self@.row_bytes() * self@.height) by (nonlinear_arith)
                        requires
                            x < n,
                            y < self@.height,
                            n == self@.row_bytes(),
                    ;
                }
                let b = self.row_byte(8 * x, y);
                data.push(b);
                x = x + 1;
            }
            assert((y + 1) * n == y * n + n) by (nonlinear_arith);
            y = y + 1;
        }
        proof {
            lemma_mul_is_commutative(y as int, n as int);
        }
        data
    }
}

/// The scan lines of an image, produced one at a time by [`BitimageLines::next`]; to start
/// again, ask the image for a new sequence.
pub struct BitimageLines<'a> {
    line: u32,
    density: u32,
    image: &'a Image,
}

impl<'a> BitimageLines<'a> {
    #[verifier::type_invariant]
    spec fn wf(self) -> bool {
        &&& self.density == 8 || self.density == 24
        &&& self.line <= self.image@.line_count(self.density as nat)
    }

    /// The image the lines come from.
    pub closed spec fn image(&self) -> ImageView {
        self.image@
    }

    /// Dots per column of each line.
    pub closed spec fn density(&self) -> nat {
        self.density as nat
    }

    /// How many lines have been produced.
    pub closed spec fn produced(&self) -> nat {
        self.line as nat
    }

    /// The next scan line, or `None` once every full line has been produced.
    pub fn next(&mut self) -> (r: Option<Vec<u8>>)
        ensures
            final(self).image() == old(self).image(),
            final(self).density() == old(self).density(),
            old(self).density() == 8 || old(self).density() == 24,
            final(self).produced() <= final(self).image().line_count(final(self).density()),
            old(self).produced() < old(self).image().line_count(old(self).density()) ==> {
                &&& r is Some
                &&& r->Some_0@ == old(self).image().bitimage_line(old(self).produced() as int, old(self).density())
                &&& final(self).produced() == old(self).produced() + 1
            },
            old(self).produced() >= old(self).image().line_count(old(self).density()) ==> {
                &&& r is None
                &&& final(self).produced() == old(self).produced()
            },
    {
        proof {
            use_type_invariant(&*self);
        }
        let count = self.image.height() / self.density;
        if self.line < count {
            let data = self.image.get_line(self.line, self.density);
            self.line = self.line + 1;
            Some(data)
        } else {
            None
        }
    }
}

} // verus!
