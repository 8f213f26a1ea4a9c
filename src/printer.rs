//! The command builder: sequences command-table bytes, encoded text and image data
//! into one ESC/POS byte stream, buffered until the caller flushes it to the sink.
use vstd::prelude::*;
use vstd::slice::slice_subrange;
use vstd::string::StringExecFns;
use vstd::utf8::encode_utf8;

use byteorder::{ByteOrder, LittleEndian};

use crate::codec::{encode_text, encoded, utf8_label, EncodingErrorPolicy};
use crate::consts;
use crate::error::{invalid, is_rejection, Error, Parameter};
use crate::img::{Image, ImageView};
use crate::sink::Sink;
use crate::token::{token_eq, token_is};

verus! {

/// What a printer operation does.
pub enum Effect {
    /// Appends these bytes.
    Writes(Seq<u8>),
    /// Rejects this token as a value of this parameter, writing nothing.
    Rejects(Parameter, Seq<char>),
    /// Fails because the codec refuses the text, writing nothing.
    Unencodable,
}

/// `n` line feeds.
pub open spec fn line_feeds(n: nat) -> Seq<u8> {
    Seq::new(n, |i: int| 0x0au8)
}

/// The little-endian bytes of `n`.
pub open spec fn u16_le_bytes(n: u16) -> Seq<u8> {
    seq![(n % 256) as u8, (n / 256) as u8]
}

/// Relies on byteorder's `LittleEndian::write_u16`: the low byte of `n`, then its high byte.
#[verifier::external_body]
fn u16_le(n: u16) -> (r: [u8; 2])
    ensures
        r@ == u16_le_bytes(n),
{
    let mut buf = [0u8; 2];
    LittleEndian::write_u16(&mut buf, n);
    buf
}

/// The text followed by one line feed.
fn with_newline(content: &str) -> (r: String)
    ensures
        r@ == content@.push('\n'),
{
    let mut line = String::from_str(content);
    line.append("\n");
    proof {
        reveal_strlit("\n");
    }
    assert(line@ =~= content@.push('\n'));
    line
}

/// Encoding `text` with the codec labelled `codec` under `policy`, then writing the bytes.
pub open spec fn text_effect(codec: Seq<char>, policy: EncodingErrorPolicy, text: Seq<char>) -> Effect {
    match encoded(codec, policy, text) {
        Some(bytes) => Effect::Writes(bytes),
        None => Effect::Unencodable,
    }
}

/// `feed(n)`: `n` line feeds, and at least one.
pub open spec fn feed_bytes(n: usize) -> Seq<u8> {
    line_feeds(if n < 1 { 1 } else { n as nat })
}

/// `line_space(n)`: explicit spacing of `n` units for `0 <= n <= 255`, else the default spacing.
pub open spec fn line_space_bytes(n: i32) -> Seq<u8> {
    if 0 <= n <= 255 {
        consts::LS_SET@.push(n as u8)
    } else {
        consts::LS_DEFAULT@
    }
}

/// `control(token)`: one of the feed-control characters LF, FF, CR, HT, VT.
pub open spec fn control_effect(t: Seq<char>) -> Effect {
    if token_is(t, seq!['L', 'F']) {
        Effect::Writes(consts::CTL_LF@)
    } else if token_is(t, seq!['F', 'F']) {
        Effect::Writes(consts::CTL_FF@)
    } else if token_is(t, seq!['C', 'R']) {
        Effect::Writes(consts::CTL_CR@)
    } else if token_is(t, seq!['H', 'T']) {
        Effect::Writes(consts::CTL_HT@)
    } else if token_is(t, seq!['V', 'T']) {
        Effect::Writes(consts::CTL_VT@)
    } else {
        Effect::Rejects(Parameter::Control, t)
    }
}

/// `align(token)`: left (LT), centred (CT) or right (RT) justification.
pub open spec fn align_effect(t: Seq<char>) -> Effect {
    if token_is(t, seq!['L', 'T']) {
        Effect::Writes(consts::TXT_ALIGN_LT@)
    } else if token_is(t, seq!['C', 'T']) {
        Effect::Writes(consts::TXT_ALIGN_CT@)
    } else if token_is(t, seq!['R', 'T']) {
        Effect::Writes(consts::TXT_ALIGN_RT@)
    } else {
        Effect::Rejects(Parameter::Alignment, t)
    }
}

/// `font(token)`: font A, B or C.
pub open spec fn font_effect(t: Seq<char>) -> Effect {
    if token_is(t, seq!['A']) {
        Effect::Writes(consts::TXT_FONT_A@)
    } else if token_is(t, seq!['B']) {
        Effect::Writes(consts::TXT_FONT_B@)
    } else if token_is(t, seq!['C']) {
        Effect::Writes(consts::TXT_FONT_C@)
    } else {
        Effect::Rejects(Parameter::Font, t)
    }
}

/// `style(token)`: bold (B), underline (U, U2 for two dots), both (BU, BU2), or neither (NORMAL);
/// always one bold command and one underline command.
pub open spec fn style_effect(t: Seq<char>) -> Effect {
    if token_is(t, seq!['B']) {
        Effect::Writes(consts::TXT_UNDERL_OFF@ + consts::TXT_BOLD_ON@)
    } else if token_is(t, seq!['U']) {
        Effect::Writes(consts::TXT_BOLD_OFF@ + consts::TXT_UNDERL_ON@)
    } else if token_is(t, seq!['U', '2']) {
        Effect::Writes(consts::TXT_BOLD_OFF@ + consts::TXT_UNDERL2_ON@)
    } else if token_is(t, seq!['B', 'U']) {
        Effect::Writes(consts::TXT_BOLD_ON@ + consts::TXT_UNDERL_ON@)
    } else if token_is(t, seq!['B', 'U', '2']) {
        Effect::Writes(consts::TXT_BOLD_ON@ + consts::TXT_UNDERL2_ON@)
    } else if token_is(t, seq!['N', 'O', 'R', 'M', 'A', 'L']) {
        Effect::Writes(consts::TXT_BOLD_OFF@ + consts::TXT_UNDERL_OFF@)
    } else {
        Effect::Rejects(Parameter::Style, t)
    }
}

/// `size(width, height)`: normal size, then double width when `width` is 2 and double
/// height when `height` is 2.
pub open spec fn size_bytes(width: usize, height: usize) -> Seq<u8> {
    consts::TXT_NORMAL@ + (if width == 2 {
        consts::TXT_2WIDTH@
    } else {
        Seq::empty()
    }) + (if height == 2 {
        consts::TXT_2HEIGHT@
    } else {
        Seq::empty()
    })
}

/// `cashdraw(pin)`: a pulse on pin 5 when `pin` is 5, else on pin 2.
pub open spec fn cashdraw_bytes(pin: i32) -> Seq<u8> {
    if pin == 5 {
        consts::CD_KICK_5@
    } else {
        consts::CD_KICK_2@
    }
}

/// `cut(partial)`: three line feeds, then a partial or a full cut.
pub open spec fn cut_bytes(partial: bool) -> Seq<u8> {
    line_feeds(3) + if partial {
        consts::PAPER_PARTIAL_CUT@
    } else {
        consts::PAPER_FULL_CUT@
    }
}

/// The token an optional argument carries, if any.
pub open spec fn token_of(t: Option<&str>) -> Option<Seq<char>> {
    match t {
        Some(s) => Some(s@),
        None => None,
    }
}

/// The header and dots per column of a bit-image density: S8, D8, S24 or D24 in any ASCII case,
/// D24 when not given.
pub open spec fn bitimage_mode(t: Option<Seq<char>>) -> Option<(Seq<u8>, nat)> {
    match t {
        None => Some((consts::BITMAP_D24@, 24nat)),
        Some(t) => if token_is(t, seq!['S', '8']) {
            Some((consts::BITMAP_S8@, 8nat))
        } else if token_is(t, seq!['D', '8']) {
            Some((consts::BITMAP_D8@, 8nat))
        } else if token_is(t, seq!['S', '2', '4']) {
            Some((consts::BITMAP_S24@, 24nat))
        } else if token_is(t, seq!['D', '2', '4']) {
            Some((consts::BITMAP_D24@, 24nat))
        } else {
            None
        },
    }
}

/// The first `lines` scan lines of `img` at `density`, each as the mode `header`, the column
/// count (little-endian, 16 bits), the line's bytes and a line feed.
pub open spec fn bitimage_stream(img: ImageView, header: Seq<u8>, density: nat, lines: nat) -> Seq<u8>
    decreases lines,
{
    if lines == 0 {
        Seq::empty()
    } else {
        bitimage_stream(img, header, density, (lines - 1) as nat) + header + u16_le_bytes(img.width as u16)
            + img.bitimage_line(lines - 1, density) + consts::CTL_LF@
    }
}

/// `bit_image(image, density)`: zero line spacing, then every full scan line of the image.
pub open spec fn bit_image_effect(img: ImageView, density: Option<Seq<char>>) -> Effect {
    match bitimage_mode(density) {
        None => Effect::Rejects(Parameter::BitImageDensity, density->Some_0),
        Some((header, dots)) => Effect::Writes(
            line_space_bytes(0) + bitimage_stream(img, header, dots, img.line_count(dots)),
        ),
    }
}

/// The GS v 0 header of a raster mode: NORMAL, DW, DH or DWDH in any ASCII case, NORMAL when not given.
pub open spec fn raster_mode(t: Option<Seq<char>>) -> Option<Seq<u8>> {
    match t {
        None => Some(consts::GSV0_NORMAL@),
        Some(t) => if token_is(t, seq!['N', 'O', 'R', 'M', 'A', 'L']) {
            Some(consts::GSV0_NORMAL@)
        } else if token_is(t, seq!['D', 'W']) {
            Some(consts::GSV0_DW@)
        } else if token_is(t, seq!['D', 'H']) {
            Some(consts::GSV0_DH@)
        } else if token_is(t, seq!['D', 'W', 'D', 'H']) {
            Some(consts::GSV0_DWDH@)
        } else {
            None
        },
    }
}

/// `raster(image, mode)`: the mode header, the bytes per row and the height (each little-endian,
/// truncated to 16 bits), then the raster bitmap.
pub open spec fn raster_effect(img: ImageView, mode: Option<Seq<char>>) -> Effect {
    match raster_mode(mode) {
        None => Effect::Rejects(Parameter::RasterMode, mode->Some_0),
        Some(header) => Effect::Writes(
            header + u16_le_bytes(img.row_bytes() as u16) + u16_le_bytes(img.height as u16) + img.raster(),
        ),
    }
}

/// Relies on std's `io::Error::from` with `ErrorKind::WriteZero`: the error for a sink that takes no byte.
#[verifier::external_body]
fn write_zero_error() -> std::io::Error {
    std::io::Error::from(std::io::ErrorKind::WriteZero)
}

/// Where a barcode's human-readable characters go.
#[derive(Clone, Copy, Debug, PartialEq, Eq, Structural)]
pub enum TextPosition {
    Off,
    Above,
    Below,
    Both,
}

/// Barcode system.
#[derive(Clone, Copy, Debug, PartialEq, Eq, Structural)]
pub enum BarcodeType {
    UPCA,
    UPCE,
    EAN13,
    EAN8,
    CODE39,
    ITF,
    Code93,
    Codabar,
    Code128,
    PDF417,
    QRCode,
    Maxicode,
    GS1,
}

/// Font of a barcode's human-readable characters.
#[derive(Clone, Copy, Debug, PartialEq, Eq, Structural)]
pub enum Font {
    Standard,
    Compressed,
}

impl TextPosition {
    /// The value of `n` in GS H n.
    pub open spec fn value(self) -> u8 {
        match self {
            TextPosition::Off => 0,
            TextPosition::Above => 1,
            TextPosition::Below => 2,
            TextPosition::Both => 3,
        }
    }

    /// The position a token names: OFF, ABOVE, BELOW or BOTH in any ASCII case; the empty token is OFF.
    pub open spec fn named(t: Seq<char>) -> Option<TextPosition> {
        if t.len() == 0 || token_is(t, seq!['O', 'F', 'F']) {
            Some(TextPosition::Off)
        } else if token_is(t, seq!['A', 'B', 'O', 'V', 'E']) {
            Some(TextPosition::Above)
        } else if token_is(t, seq!['B', 'E', 'L', 'O', 'W']) {
            Some(TextPosition::Below)
        } else if token_is(t, seq!['B', 'O', 'T', 'H']) {
            Some(TextPosition::Both)
        } else {
            None
        }
    }

    pub fn from_token(token: &str) -> (r: Option<TextPosition>)
        ensures
            r == Self::named(token@),
    {
        if token.is_empty() || token_eq(token, &['O', 'F', 'F']) {
            Some(TextPosition::Off)
        } else if token_eq(token, &['A', 'B', 'O', 'V', 'E']) {
            Some(TextPosition::Above)
        } else if token_eq(token, &['B', 'E', 'L', 'O', 'W']) {
            Some(TextPosition::Below)
        } else if token_eq(token, &['B', 'O', 'T', 'H']) {
            Some(TextPosition::Both)
        } else {
            None
        }
    }
}

impl BarcodeType {
    /// The value of `m` in GS k m.
    pub open spec fn value(self) -> u8 {
        match self {
            BarcodeType::UPCA => 0,
            BarcodeType::UPCE => 1,
            BarcodeType::EAN13 => 2,
            BarcodeType::EAN8 => 3,
            BarcodeType::CODE39 => 4,
            BarcodeType::ITF => 5,
            BarcodeType::Code93 => 72,
            BarcodeType::Codabar => 6,
            BarcodeType::Code128 => 73,
            BarcodeType::PDF417 => 10,
            BarcodeType::QRCode => 11,
            BarcodeType::Maxicode => 12,
            BarcodeType::GS1 => 13,
        }
    }

    /// The system a token names: its variant's name in any ASCII case.
    pub open spec fn named(t: Seq<char>) -> Option<BarcodeType> {
        if token_is(t, seq!['U', 'P', 'C', 'A']) {
            Some(BarcodeType::UPCA)
        } else if token_is(t, seq!['U', 'P', 'C', 'E']) {
            Some(BarcodeType::UPCE)
        } else if token_is(t, seq!['E', 'A', 'N', '1', '3']) {
            Some(BarcodeType::EAN13)
        } else if token_is(t, seq!['E', 'A', 'N', '8']) {
            Some(BarcodeType::EAN8)
        } else if token_is(t, seq!['C', 'O', 'D', 'E', '3', '9']) {
            Some(BarcodeType::CODE39)
        } else if token_is(t, seq!['I', 'T', 'F']) {
            Some(BarcodeType::ITF)
        } else if token_is(t, seq!['C', 'O', 'D', 'E', '9', '3']) {
            Some(BarcodeType::Code93)
        } else if token_is(t, seq!['C', 'O', 'D', 'A', 'B', 'A', 'R']) {
            Some(BarcodeType::Codabar)
        } else if token_is(t, seq!['C', 'O', 'D', 'E', '1', '2', '8']) {
            Some(BarcodeType::Code128)
        } else if token_is(t, seq!['P', 'D', 'F', '4', '1', '7']) {
            Some(BarcodeType::PDF417)
        } else if token_is(t, seq!['Q', 'R', 'C', 'O', 'D', 'E']) {
            Some(BarcodeType::QRCode)
        } else if token_is(t, seq!['M', 'A', 'X', 'I', 'C', 'O', 'D', 'E']) {
            Some(BarcodeType::Maxicode)
        } else if token_is(t, seq!['G', 'S', '1']) {
            Some(BarcodeType::GS1)
        } else {
            None
        }
    }

    pub fn from_token(token: &str) -> (r: Option<BarcodeType>)
        ensures
            r == Self::named(token@),
    {
        if token_eq(token, &['U', 'P', 'C', 'A']) {
            Some(BarcodeType::UPCA)
        } else if token_eq(token, &['U', 'P', 'C', 'E']) {
            Some(BarcodeType::UPCE)
        } else if token_eq(token, &['E', 'A', 'N', '1', '3']) {
            Some(BarcodeType::EAN13)
        } else if token_eq(token, &['E', 'A', 'N', '8']) {
            Some(BarcodeType::EAN8)
        } else if token_eq(token, &['C', 'O', 'D', 'E', '3', '9']) {
            Some(BarcodeType::CODE39)
        } else if token_eq(token, &['I', 'T', 'F']) {
            Some(BarcodeType::ITF)
        } else if token_eq(token, &['C', 'O', 'D', 'E', '9', '3']) {
            Some(BarcodeType::Code93)
        } else if token_eq(token, &['C', 'O', 'D', 'A', 'B', 'A', 'R']) {
            Some(BarcodeType::Codabar)
        } else if token_eq(token, &['C', 'O', 'D', 'E', '1', '2', '8']) {
            Some(BarcodeType::Code128)
        } else if token_eq(token, &['P', 'D', 'F', '4', '1', '7']) {
            Some(BarcodeType::PDF417)
        } else if token_eq(token, &['Q', 'R', 'C', 'O', 'D', 'E']) {
            Some(BarcodeType::QRCode)
        } else if token_eq(token, &['M', 'A', 'X', 'I', 'C', 'O', 'D', 'E']) {
            Some(BarcodeType::Maxicode)
        } else if token_eq(token, &['G', 'S', '1']) {
            Some(BarcodeType::GS1)
        } else {
            None
        }
    }
}

impl Font {
    /// The font a token names: A (standard) or B (compressed) in any ASCII case; the empty token is A.
    pub open spec fn named(t: Seq<char>) -> Option<Font> {
        if t.len() == 0 || token_is(t, seq!['A']) {
            Some(Font::Standard)
        } else if token_is(t, seq!['B']) {
            Some(Font::Compressed)
        } else {
            None
        }
    }

    pub fn from_token(token: &str) -> (r: Option<Font>)
        ensures
            r == Self::named(token@),
    {
        if token.is_empty() || token_eq(token, &['A']) {
            Some(Font::Standard)
        } else if token_eq(token, &['B']) {
            Some(Font::Compressed)
        } else {
            None
        }
    }
}

/// The settings of one barcode, turned into its set-up commands.
pub struct Barcode {
    /// Module width, 2 to 6.
    pub width: u8,
    /// Height in dots, 1 to 255.
    pub height: u8,
    pub font: Font,
    pub kind: BarcodeType,
    pub position: TextPosition,
}

impl Barcode {
    /// The width sent: the given one when it is within 2 to 6, else the default.
    pub open spec fn effective_width(self) -> u8 {
        if 2 <= self.width <= 6 {
            self.width
        } else {
            consts::BARCODE_DEFAULT_WIDTH
        }
    }

    /// The height sent: the given one when it is within 1 to 255, else the default.
    pub open spec fn effective_height(self) -> u8 {
        if self.height >= 1 {
            self.height
        } else {
            consts::BARCODE_DEFAULT_HEIGHT
        }
    }

    pub open spec fn font_bytes(self) -> Seq<u8> {
        match self.font {
            Font::Standard => consts::BARCODE_FONT_A@,
            Font::Compressed => consts::BARCODE_FONT_B@,
        }
    }

    /// Width, height, text position, font and system, in that order.
    pub open spec fn commands(self) -> Seq<u8> {
        consts::BARCODE_WIDTH@.push(self.effective_width()) + consts::BARCODE_HEIGHT@.push(
            self.effective_height(),
        ) + consts::BARCODE_TXT_POSITION@.push(self.position.value()) + self.font_bytes()
            + consts::BARCODE_TYPE@.push(self.kind.value())
    }

    /// GS w n: the module width.
    pub fn set_width(&mut self) -> (r: [u8; 3])
        ensures
            r@ == consts::BARCODE_WIDTH@.push(old(self).effective_width()),
            *final(self) == *old(self),
    {
        let n = if self.width >= 2 && self.width <= 6 {
            self.width
        } else {
            consts::BARCODE_DEFAULT_WIDTH
        };
        let r = [consts::BARCODE_WIDTH[0], consts::BARCODE_WIDTH[1], n];
        assert(r@ =~= consts::BARCODE_WIDTH@.push(n));
        r
    }

    /// GS h n: the height.
    pub fn set_height(&mut self) -> (r: [u8; 3])
        ensures
            r@ == consts::BARCODE_HEIGHT@.push(old(self).effective_height()),
            *final(self) == *old(self),
    {
        let n = if self.height >= 1 {
            self.height
        } else {
            consts::BARCODE_DEFAULT_HEIGHT
        };
        let r = [consts::BARCODE_HEIGHT[0], consts::BARCODE_HEIGHT[1], n];
        assert(r@ =~= consts::BARCODE_HEIGHT@.push(n));
        r
    }

    /// GS H n: where the human-readable characters go.
    pub fn set_text_position(&mut self) -> (r: [u8; 3])
        ensures
            r@ == consts::BARCODE_TXT_POSITION@.push(old(self).position.value()),
            *final(self) == *old(self),
    {
        let n: u8 = match self.position {
            TextPosition::Off => 0,
            TextPosition::Above => 1,
            TextPosition::Below => 2,
            TextPosition::Both => 3,
        };
        let r = [consts::BARCODE_TXT_POSITION[0], consts::BARCODE_TXT_POSITION[1], n];
        assert(r@ =~= consts::BARCODE_TXT_POSITION@.push(n));
        r
    }

    /// GS f n: the font of the human-readable characters.
    pub fn set_font(&mut self) -> (r: [u8; 3])
        ensures
            r@ == old(self).font_bytes(),
            *final(self) == *old(self),
    {
        match self.font {
            Font::Standard => consts::BARCODE_FONT_A,
            Font::Compressed => consts::BARCODE_FONT_B,
        }
    }

    /// GS k m: the barcode system.
    pub fn set_barcode_type(&mut self) -> (r: [u8; 3])
        ensures
            r@ == consts::BARCODE_TYPE@.push(old(self).kind.value()),
            *final(self) == *old(self),
    {
        let m: u8 = match self.kind {
            BarcodeType::UPCA => 0,
            BarcodeType::UPCE => 1,
            BarcodeType::EAN13 => 2,
            BarcodeType::EAN8 => 3,
            BarcodeType::CODE39 => 4,
            BarcodeType::ITF => 5,
            BarcodeType::Code93 => 72,
            BarcodeType::Codabar => 6,
            BarcodeType::Code128 => 73,
            BarcodeType::PDF417 => 10,
            BarcodeType::QRCode => 11,
            BarcodeType::Maxicode => 12,
            BarcodeType::GS1 => 13,
        };
        let r = [consts::BARCODE_TYPE[0], consts::BARCODE_TYPE[1], m];
        assert(r@ =~= consts::BARCODE_TYPE@.push(m));
        r
    }
}

/// `barcode(code, kind, position, font, width, height)`: the set-up commands, the code's
/// bytes and a terminating NUL; the tokens are checked in the order kind, position, font.
pub open spec fn barcode_effect(
    code: Seq<char>,
    kind: Seq<char>,
    position: Seq<char>,
    font: Seq<char>,
    width: u8,
    height: u8,
) -> Effect {
    match BarcodeType::named(kind) {
        None => Effect::Rejects(Parameter::BarcodeKind, kind),
        Some(k) => match TextPosition::named(position) {
            None => Effect::Rejects(Parameter::TextPosition, position),
            Some(p) => match Font::named(font) {
                None => Effect::Rejects(Parameter::BarcodeFont, font),
                Some(f) => Effect::Writes(
                    Barcode { width, height, font: f, kind: k, position: p }.commands() + encode_utf8(code)
                        + seq![0u8],
                ),
            },
        },
    }
}

/// The byte of a QR error-correction level: L, M, Q or H in any ASCII case.
pub open spec fn qr_level_bytes(t: Seq<char>) -> Option<Seq<u8>> {
    if token_is(t, seq!['L']) {
        Some(consts::QR_LEVEL_L@)
    } else if token_is(t, seq!['M']) {
        Some(consts::QR_LEVEL_M@)
    } else if token_is(t, seq!['Q']) {
        Some(consts::QR_LEVEL_Q@)
    } else if token_is(t, seq!['H']) {
        Some(consts::QR_LEVEL_H@)
    } else {
        None
    }
}

/// `qrcode(code, version, level, size)`: select QR, then ESC Z with the version, level and
/// module size (3 when not given, truncated to a byte), the code's length (truncated to 16
/// bits, little-endian) and the code's bytes.
pub open spec fn qrcode_effect(code: Seq<char>, version: Option<i32>, level: Seq<char>, size: Option<i32>) -> Effect {
    match qr_level_bytes(level) {
        None => Effect::Rejects(Parameter::QrLevel, level),
        Some(l) => Effect::Writes(
            consts::TYPE_QR@ + consts::CODE2D@ + seq![
                (match version {
                    Some(v) => v,
                    None => 3i32,
                }) as u8,
            ] + l + seq![
                (match size {
                    Some(s) => s,
                    None => 3i32,
                }) as u8,
            ] + u16_le_bytes(encode_utf8(code).len() as u16) + encode_utf8(code),
        ),
    }
}

/// Drives an ESC/POS printer through a [`Sink`].
///
/// Every operation appends its complete command to an internal buffer, in call order;
/// nothing reaches the sink before [`Printer::flush`].
pub struct Printer<W> {
    writer: W,
    buffer: Vec<u8>,
    codec: String,
    trap: EncodingErrorPolicy,
    delivered: Ghost<Seq<u8>>,
}

impl<W> Printer<W> {
    /// Bytes accepted and not yet handed to the sink.
    pub closed spec fn pending(&self) -> Seq<u8> {
        self.buffer@
    }

    /// Bytes handed to the sink so far.
    pub closed spec fn delivered(&self) -> Seq<u8> {
        self.delivered@
    }

    /// Every byte accepted so far, in order.
    pub open spec fn output(&self) -> Seq<u8> {
        self.delivered() + self.pending()
    }

    /// The label of the codec that text is encoded with.
    pub closed spec fn codec(&self) -> Seq<char> {
        self.codec@
    }

    /// What the encoder does with characters the codec cannot represent.
    pub closed spec fn policy(&self) -> EncodingErrorPolicy {
        self.trap
    }

    /// The sink.
    pub closed spec fn sink(&self) -> W {
        self.writer
    }

    /// `self` is `before` with `bytes` appended to the pending output, and nothing else changed.
    pub open spec fn appended(&self, before: Self, bytes: Seq<u8>) -> bool {
        &&& self.pending() == before.pending() + bytes
        &&& self.delivered() == before.delivered()
        &&& self.codec() == before.codec()
        &&& self.policy() == before.policy()
        &&& self.sink() == before.sink()
    }

    /// `after` and `r` are what an operation with effect `e` leaves when applied to `before`:
    /// its bytes appended and their count returned, or its error with nothing written.
    pub open spec fn performed(after: Self, before: Self, e: Effect, r: Result<usize, Error>) -> bool {
        match e {
            Effect::Writes(bytes) => r == Ok::<usize, Error>(bytes.len() as usize) && after.appended(before, bytes),
            Effect::Rejects(p, t) => is_rejection(r, p, t) && after == before,
            Effect::Unencodable => r is Err && r->Err_0 is Encoding && after == before,
        }
    }

    /// `r` is what the chaining form of an operation with effect `e` returns when applied to
    /// `before`: on success the printer itself, with the bytes appended.
    pub open spec fn chained(r: Result<&mut Self, Error>, before: Self, e: Effect) -> bool {
        match e {
            Effect::Writes(bytes) => r is Ok && (*r->Ok_0).appended(before, bytes),
            Effect::Rejects(p, t) => is_rejection(r, p, t),
            Effect::Unencodable => r is Err && r->Err_0 is Encoding,
        }
    }

    /// Creates a printer over `writer` that encodes text with the codec labelled `codec`
    /// (UTF-8 when `None`) and handles unencodable characters by `trap` (substitution when `None`).
    /// The label is looked up when text is printed: with a label that names no codec, every
    /// text operation fails with [`Error::Encoding`].
    pub fn new(writer: W, codec: Option<&str>, trap: Option<EncodingErrorPolicy>) -> (p: Printer<W>)
        ensures
            p.pending() == Seq::<u8>::empty(),
            p.delivered() == Seq::<u8>::empty(),
            p.sink() == writer,
            p.codec() == (match codec {
                Some(label) => label@,
                None => utf8_label(),
            }),
            p.policy() == (match trap {
                Some(policy) => policy,
                None => EncodingErrorPolicy::Replace,
            }),
    {
        let codec = match codec {
            Some(label) => label.to_owned(),
            None => {
                proof {
                    reveal_strlit("utf-8");
                }
                "utf-8".to_owned()
            },
        };
        let trap = match trap {
            Some(policy) => policy,
            None => EncodingErrorPolicy::Replace,
        };
        Printer { writer, buffer: Vec::new(), codec, trap, delivered: Ghost(Seq::empty()) }
    }

    /// The sink.
    pub fn get_ref(&self) -> (r: &W)
        ensures
            *r == self.sink(),
    {
        &self.writer
    }

    /// Gives the sink back; bytes still pending are dropped.
    pub fn into_inner(self) -> (r: W)
        ensures
            r == self.sink(),
    {
        self.writer
    }

    /// The bytes accepted and not yet handed to the sink.
    pub fn buffer(&self) -> (r: &[u8])
        ensures
            r@ == self.pending(),
    {
        self.buffer.as_slice()
    }

    fn emit(&mut self, bytes: &[u8]) -> (n: usize)
        ensures
            final(self).appended(*old(self), bytes@),
            n == bytes@.len(),
    {
        self.buffer.extend_from_slice(bytes);
        assert(self.buffer@ =~= old(self).buffer@ + bytes@);
        bytes.len()
    }

    /// Writes raw bytes.
    pub fn write(&mut self, buf: &[u8]) -> (r: Result<usize, Error>)
        ensures
            final(self).appended(*old(self), buf@),
            r == Ok::<usize, Error>(buf@.len() as usize),
    {
        Ok(self.emit(buf))
    }

    /// Writes one raw byte.
    pub fn write_u8(&mut self, n: u8) -> (r: Result<usize, Error>)
        ensures
            final(self).appended(*old(self), seq![n]),
            r == Ok::<usize, Error>(1),
    {
        let buf = [n];
        assert(buf@ =~= seq![n]);
        Ok(self.emit(&buf))
    }


    pub fn chain_write_u8(&mut self, n: u8) -> (r: Result<&mut Self, Error>)
        ensures
            r is Ok,
            (*r->Ok_0).appended(*old(self), seq![n]),
            *final(self) == *final(r->Ok_0),
    {
        match self.write_u8(n) {
            Ok(_) => Ok(self),
            Err(e) => Err(e),
        }
    }

    fn emit_both(&mut self, first: &[u8], second: &[u8]) -> (n: usize)
        ensures
            final(self).appended(*old(self), first@ + second@),
            n == first@.len() + second@.len(),
    {
        let before = self.buffer.len();
        self.emit(first);
        self.emit(second);
        assert(old(self).pending() + first@ + second@ =~= old(self).pending() + (first@ + second@));
        self.buffer.len() - before
    }

    fn encode(&self, content: &str) -> (r: Result<Vec<u8>, Error>)
        ensures
            r is Ok ==> encoded(self.codec(), self.policy(), content@) == Some(r->Ok_0@),
            r is Err ==> encoded(self.codec(), self.policy(), content@) is None && r->Err_0 is Encoding,
            self.codec() == utf8_label() ==> r is Ok && r->Ok_0@ == encode_utf8(content@),
    {
        match encode_text(self.codec.as_str(), self.trap, content) {
            Ok(bytes) => Ok(bytes),
            Err(cause) => Err(Error::Encoding(cause)),
        }
    }

    /// ESC @: initializes the printer, clearing its print buffer and modes.
    pub fn hwinit(&mut self) -> (r: Result<usize, Error>)
        ensures
            Self::performed(*final(self), *old(self), Effect::Writes(consts::HW_INIT@), r),
    {
        Ok(self.emit(&consts::HW_INIT))
    }

    pub fn chain_hwinit(&mut self) -> (r: Result<&mut Self, Error>)
        ensures
            Self::chained(r, *old(self), Effect::Writes(consts::HW_INIT@)),
            r is Ok ==> *final(self) == *final(r->Ok_0),
            r is Err ==> *final(self) == *old(self),
    {
        match self.hwinit() {
            Ok(_) => Ok(self),
            Err(e) => Err(e),
        }
    }

    /// ESC = 1: selects the printer, so that it acts on what it receives.
    pub fn enable(&mut self) -> (r: Result<usize, Error>)
        ensures
            Self::performed(*final(self), *old(self), Effect::Writes(consts::HW_ENABLE@), r),
    {
        Ok(self.emit(&consts::HW_ENABLE))
    }

    pub fn chain_enable(&mut self) -> (r: Result<&mut Self, Error>)
        ensures
            Self::chained(r, *old(self), Effect::Writes(consts::HW_ENABLE@)),
            r is Ok ==> *final(self) == *final(r->Ok_0),
            r is Err ==> *final(self) == *old(self),
    {
        match self.enable() {
            Ok(_) => Ok(self),
            Err(e) => Err(e),
        }
    }

    /// ESC = 0: deselects the printer; it then ignores all but real-time commands.
    pub fn disable(&mut self) -> (r: Result<usize, Error>)
        ensures
            Self::performed(*final(self), *old(self), Effect::Writes(consts::HW_DISABLE@), r),
    {
        Ok(self.emit(&consts::HW_DISABLE))
    }

    pub fn chain_disable(&mut self) -> (r: Result<&mut Self, Error>)
        ensures
            Self::chained(r, *old(self), Effect::Writes(consts::HW_DISABLE@)),
            r is Ok ==> *final(self) == *final(r->Ok_0),
            r is Err ==> *final(self) == *old(self),
    {
        match self.disable() {
            Ok(_) => Ok(self),
            Err(e) => Err(e),
        }
    }

    /// Encodes `content` with the printer's codec and writes it.
    pub fn print(&mut self, content: &str) -> (r: Result<usize, Error>)
        ensures
            Self::performed(*final(self), *old(self), text_effect(old(self).codec(), old(self).policy(), content@), r),
            old(self).codec() == utf8_label() ==> text_effect(old(self).codec(), old(self).policy(), content@)
                == Effect::Writes(encode_utf8(content@)),
    {
        match self.encode(content) {
            Ok(bytes) => Ok(self.emit(bytes.as_slice())),
            Err(e) => Err(e),
        }
    }

    pub fn chain_print(&mut self, content: &str) -> (r: Result<&mut Self, Error>)
        ensures
            Self::chained(r, *old(self), text_effect(old(self).codec(), old(self).policy(), content@)),
            old(self).codec() == utf8_label() ==> text_effect(old(self).codec(), old(self).policy(), content@)
                == Effect::Writes(encode_utf8(content@)),
            r is Ok ==> *final(self) == *final(r->Ok_0),
            r is Err ==> *final(self) == *old(self),
    {
        match self.print(content) {
            Ok(_) => Ok(self),
            Err(e) => Err(e),
        }
    }

    /// Prints `content` followed by a line feed, encoded together.
    pub fn println(&mut self, content: &str) -> (r: Result<usize, Error>)
        ensures
            Self::performed(*final(self), *old(self), text_effect(old(self).codec(), old(self).policy(), content@.push('\n')), r),
            old(self).codec() == utf8_label() ==> text_effect(old(self).codec(), old(self).policy(), content@.push('\n'))
                == Effect::Writes(encode_utf8(content@.push('\n'))),
    {
        let line = with_newline(content);
        self.print(line.as_str())
    }

    pub fn chain_println(&mut self, content: &str) -> (r: Result<&mut Self, Error>)
        ensures
            Self::chained(r, *old(self), text_effect(old(self).codec(), old(self).policy(), content@.push('\n'))),
            old(self).codec() == utf8_label() ==> text_effect(old(self).codec(), old(self).policy(), content@.push('\n'))
                == Effect::Writes(encode_utf8(content@.push('\n'))),
            r is Ok ==> *final(self) == *final(r->Ok_0),
            r is Err ==> *final(self) == *old(self),
    {
        match self.println(content) {
            Ok(_) => Ok(self),
            Err(e) => Err(e),
        }
    }

    /// Prints `content` as a line of its own.
    pub fn text(&mut self, content: &str) -> (r: Result<usize, Error>)
        ensures
            Self::performed(*final(self), *old(self), text_effect(old(self).codec(), old(self).policy(), content@.push('\n')), r),
            old(self).codec() == utf8_label() ==> text_effect(old(self).codec(), old(self).policy(), content@.push('\n'))
                == Effect::Writes(encode_utf8(content@.push('\n'))),
    {
        self.println(content)
    }

    pub fn chain_text(&mut self, content: &str) -> (r: Result<&mut Self, Error>)
        ensures
            Self::chained(r, *old(self), text_effect(old(self).codec(), old(self).policy(), content@.push('\n'))),
            old(self).codec() == utf8_label() ==> text_effect(old(self).codec(), old(self).policy(), content@.push('\n'))
                == Effect::Writes(encode_utf8(content@.push('\n'))),
            r is Ok ==> *final(self) == *final(r->Ok_0),
            r is Err ==> *final(self) == *old(self),
    {
        match self.text(content) {
            Ok(_) => Ok(self),
            Err(e) => Err(e),
        }
    }

    /// ESC 3 n / ESC 2: line spacing of `n` motion units for `0 <= n <= 255`, else the default spacing.
    pub fn line_space(&mut self, n: i32) -> (r: Result<usize, Error>)
        ensures
            Self::performed(*final(self), *old(self), Effect::Writes(line_space_bytes(n)), r),
    {
        if 0 <= n && n <= 255 {
            let value = [n as u8];
            assert(consts::LS_SET@ + value@ =~= line_space_bytes(n));
            Ok(self.emit_both(&consts::LS_SET, &value))
        } else {
            Ok(self.emit(&consts::LS_DEFAULT))
        }
    }

    pub fn chain_line_space(&mut self, n: i32) -> (r: Result<&mut Self, Error>)
        ensures
            Self::chained(r, *old(self), Effect::Writes(line_space_bytes(n))),
            r is Ok ==> *final(self) == *final(r->Ok_0),
            r is Err ==> *final(self) == *old(self),
    {
        match self.line_space(n) {
            Ok(_) => Ok(self),
            Err(e) => Err(e),
        }
    }

    /// Feeds `n` lines, and at least one.
    pub fn feed(&mut self, n: usize) -> (r: Result<usize, Error>)
        ensures
            Self::performed(*final(self), *old(self), Effect::Writes(feed_bytes(n)), r),
    {
        let count: usize = if n < 1 { 1 } else { n };
        let mut i: usize = 0;
        while i < count
            invariant
                i <= count,
                count == (if n < 1 { 1 } else { n }),
                self.appended(*old(self), line_feeds(i as nat)),
            decreases count - i,
        {
            self.emit(&consts::CTL_LF);
            assert(old(self).pending() + line_feeds(i as nat) + consts::CTL_LF@ =~= old(self).pending()
                + line_feeds((i + 1) as nat));
            i = i + 1;
        }
        Ok(count)
    }

    pub fn chain_feed(&mut self, n: usize) -> (r: Result<&mut Self, Error>)
        ensures
            Self::chained(r, *old(self), Effect::Writes(feed_bytes(n))),
            r is Ok ==> *final(self) == *final(r->Ok_0),
            r is Err ==> *final(self) == *old(self),
    {
        match self.feed(n) {
            Ok(_) => Ok(self),
            Err(e) => Err(e),
        }
    }

    /// Writes the feed-control character named by `ctrl`: LF, FF, CR, HT or VT, in any ASCII case.
    pub fn control(&mut self, ctrl: &str) -> (r: Result<usize, Error>)
        ensures
            Self::performed(*final(self), *old(self), control_effect(ctrl@), r),
    {
        if token_eq(ctrl, &['L', 'F']) {
            Ok(self.emit(&consts::CTL_LF))
        } else if token_eq(ctrl, &['F', 'F']) {
            Ok(self.emit(&consts::CTL_FF))
        } else if token_eq(ctrl, &['C', 'R']) {
            Ok(self.emit(&consts::CTL_CR))
        } else if token_eq(ctrl, &['H', 'T']) {
            Ok(self.emit(&consts::CTL_HT))
        } else if token_eq(ctrl, &['V', 'T']) {
            Ok(self.emit(&consts::CTL_VT))
        } else {
            Err(invalid(Parameter::Control, ctrl))
        }
    }

    pub fn chain_control(&mut self, ctrl: &str) -> (r: Result<&mut Self, Error>)
        ensures
            Self::chained(r, *old(self), control_effect(ctrl@)),
            r is Ok ==> *final(self) == *final(r->Ok_0),
            r is Err ==> *final(self) == *old(self),
    {
        match self.control(ctrl) {
            Ok(_) => Ok(self),
            Err(e) => Err(e),
        }
    }

    /// Sets the justification named by `alignment`: LT, CT or RT, in any ASCII case.
    pub fn align(&mut self, alignment: &str) -> (r: Result<usize, Error>)
        ensures
            Self::performed(*final(self), *old(self), align_effect(alignment@), r),
    {
        if token_eq(alignment, &['L', 'T']) {
            Ok(self.emit(&consts::TXT_ALIGN_LT))
        } else if token_eq(alignment, &['C', 'T']) {
            Ok(self.emit(&consts::TXT_ALIGN_CT))
        } else if token_eq(alignment, &['R', 'T']) {
            Ok(self.emit(&consts::TXT_ALIGN_RT))
        } else {
            Err(invalid(Parameter::Alignment, alignment))
        }
    }

    pub fn chain_align(&mut self, alignment: &str) -> (r: Result<&mut Self, Error>)
        ensures
            Self::chained(r, *old(self), align_effect(alignment@)),
            r is Ok ==> *final(self) == *final(r->Ok_0),
            r is Err ==> *final(self) == *old(self),
    {
        match self.align(alignment) {
            Ok(_) => Ok(self),
            Err(e) => Err(e),
        }
    }

    /// Selects the font named by `family`: A, B or C, in any ASCII case.
    pub fn font(&mut self, family: &str) -> (r: Result<usize, Error>)
        ensures
            Self::performed(*final(self), *old(self), font_effect(family@), r),
    {
        if token_eq(family, &['A']) {
            Ok(self.emit(&consts::TXT_FONT_A))
        } else if token_eq(family, &['B']) {
            Ok(self.emit(&consts::TXT_FONT_B))
        } else if token_eq(family, &['C']) {
            Ok(self.emit(&consts::TXT_FONT_C))
        } else {
            Err(invalid(Parameter::Font, family))
        }
    }

    pub fn chain_font(&mut self, family: &str) -> (r: Result<&mut Self, Error>)
        ensures
            Self::chained(r, *old(self), font_effect(family@)),
            r is Ok ==> *final(self) == *final(r->Ok_0),
            r is Err ==> *final(self) == *old(self),
    {
        match self.font(family) {
            Ok(_) => Ok(self),
            Err(e) => Err(e),
        }
    }

    /// Sets bold and underline as named by `kind`: B, U, U2, BU, BU2 or NORMAL, in any ASCII case.
    pub fn style(&mut self, kind: &str) -> (r: Result<usize, Error>)
        ensures
            Self::performed(*final(self), *old(self), style_effect(kind@), r),
    {
        if token_eq(kind, &['B']) {
            Ok(self.emit_both(&consts::TXT_UNDERL_OFF, &consts::TXT_BOLD_ON))
        } else if token_eq(kind, &['U']) {
            Ok(self.emit_both(&consts::TXT_BOLD_OFF, &consts::TXT_UNDERL_ON))
        } else if token_eq(kind, &['U', '2']) {
            Ok(self.emit_both(&consts::TXT_BOLD_OFF, &consts::TXT_UNDERL2_ON))
        } else if token_eq(kind, &['B', 'U']) {
            Ok(self.emit_both(&consts::TXT_BOLD_ON, &consts::TXT_UNDERL_ON))
        } else if token_eq(kind, &['B', 'U', '2']) {
            Ok(self.emit_both(&consts::TXT_BOLD_ON, &consts::TXT_UNDERL2_ON))
        } else if token_eq(kind, &['N', 'O', 'R', 'M', 'A', 'L']) {
            Ok(self.emit_both(&consts::TXT_BOLD_OFF, &consts::TXT_UNDERL_OFF))
        } else {
            Err(invalid(Parameter::Style, kind))
        }
    }

    pub fn chain_style(&mut self, kind: &str) -> (r: Result<&mut Self, Error>)
        ensures
            Self::chained(r, *old(self), style_effect(kind@)),
            r is Ok ==> *final(self) == *final(r->Ok_0),
            r is Err ==> *final(self) == *old(self),
    {
        match self.style(kind) {
            Ok(_) => Ok(self),
            Err(e) => Err(e),
        }
    }

    /// Resets the character size, then doubles the width when `width` is 2 and the height when `height` is 2.
    pub fn size(&mut self, width: usize, height: usize) -> (r: Result<usize, Error>)
        ensures
            Self::performed(*final(self), *old(self), Effect::Writes(size_bytes(width, height)), r),
    {
        let mut n = self.emit(&consts::TXT_NORMAL);
        let ghost start = consts::TXT_NORMAL@;
        if width == 2 {
            n = n + self.emit(&consts::TXT_2WIDTH);
        }
        let ghost widened = start + (if width == 2 { consts::TXT_2WIDTH@ } else { Seq::empty() });
        assert(self.appended(*old(self), widened)) by {
            assert(old(self).pending() + widened =~= old(self).pending() + start + (if width == 2 { consts::TXT_2WIDTH@ } else { Seq::empty() }));
        }
        if height == 2 {
            n = n + self.emit(&consts::TXT_2HEIGHT);
        }
        assert(old(self).pending() + size_bytes(width, height) =~= old(self).pending() + widened + (if height == 2 { consts::TXT_2HEIGHT@ } else { Seq::empty() }));
        Ok(n)
    }

    pub fn chain_size(&mut self, width: usize, height: usize) -> (r: Result<&mut Self, Error>)
        ensures
            Self::chained(r, *old(self), Effect::Writes(size_bytes(width, height))),
            r is Ok ==> *final(self) == *final(r->Ok_0),
            r is Err ==> *final(self) == *old(self),
    {
        match self.size(width, height) {
            Ok(_) => Ok(self),
            Err(e) => Err(e),
        }
    }

    /// Kicks the cash drawer on pin 5 when `pin` is 5, else on pin 2.
    pub fn cashdraw(&mut self, pin: i32) -> (r: Result<usize, Error>)
        ensures
            Self::performed(*final(self), *old(self), Effect::Writes(cashdraw_bytes(pin)), r),
    {
        if pin == 5 {
            Ok(self.emit(&consts::CD_KICK_5))
        } else {
            Ok(self.emit(&consts::CD_KICK_2))
        }
    }

    pub fn chain_cashdraw(&mut self, pin: i32) -> (r: Result<&mut Self, Error>)
        ensures
            Self::chained(r, *old(self), Effect::Writes(cashdraw_bytes(pin))),
            r is Ok ==> *final(self) == *final(r->Ok_0),
            r is Err ==> *final(self) == *old(self),
    {
        match self.cashdraw(pin) {
            Ok(_) => Ok(self),
            Err(e) => Err(e),
        }
    }

    /// Feeds three lines and cuts the paper through.
    pub fn full_cut(&mut self) -> (r: Result<usize, Error>)
        ensures
            Self::performed(*final(self), *old(self), Effect::Writes(cut_bytes(false)), r),
    {
        self.cut(false)
    }

    pub fn chain_full_cut(&mut self) -> (r: Result<&mut Self, Error>)
        ensures
            Self::chained(r, *old(self), Effect::Writes(cut_bytes(false))),
            r is Ok ==> *final(self) == *final(r->Ok_0),
            r is Err ==> *final(self) == *old(self),
    {
        match self.full_cut() {
            Ok(_) => Ok(self),
            Err(e) => Err(e),
        }
    }

    /// Feeds three lines and cuts the paper leaving one point uncut.
    pub fn partial_cut(&mut self) -> (r: Result<usize, Error>)
        ensures
            Self::performed(*final(self), *old(self), Effect::Writes(cut_bytes(true)), r),
    {
        self.cut(true)
    }

    pub fn chain_partial_cut(&mut self) -> (r: Result<&mut Self, Error>)
        ensures
            Self::chained(r, *old(self), Effect::Writes(cut_bytes(true))),
            r is Ok ==> *final(self) == *final(r->Ok_0),
            r is Err ==> *final(self) == *old(self),
    {
        match self.partial_cut() {
            Ok(_) => Ok(self),
            Err(e) => Err(e),
        }
    }

    /// Feeds three lines, then cuts the paper partially when `partial` holds, fully otherwise.
    pub fn cut(&mut self, partial: bool) -> (r: Result<usize, Error>)
        ensures
            Self::performed(*final(self), *old(self), Effect::Writes(cut_bytes(partial)), r),
    {
        let feeds = [0x0au8, 0x0a, 0x0a];
        assert(feeds@ =~= line_feeds(3));
        if partial {
            Ok(self.emit_both(&feeds, &consts::PAPER_PARTIAL_CUT))
        } else {
            Ok(self.emit_both(&feeds, &consts::PAPER_FULL_CUT))
        }
    }

    pub fn chain_cut(&mut self, partial: bool) -> (r: Result<&mut Self, Error>)
        ensures
            Self::chained(r, *old(self), Effect::Writes(cut_bytes(partial))),
            r is Ok ==> *final(self) == *final(r->Ok_0),
            r is Err ==> *final(self) == *old(self),
    {
        match self.cut(partial) {
            Ok(_) => Ok(self),
            Err(e) => Err(e),
        }
    }


    /// Prints `code` as a barcode of the system `kind` (EAN8, CODE128, ...), with its human-readable
    /// characters at `position` (OFF, ABOVE, BELOW, BOTH; empty for OFF) in `font` (A, B; empty for A),
    /// `width` (2 to 6) and `height` (1 to 255) falling back to the defaults when out of range.
    pub fn barcode(
        &mut self,
        code: &str,
        kind: &str,
        position: &str,
        font: &str,
        width: u8,
        height: u8,
    ) -> (r: Result<usize, Error>)
        ensures
            Self::performed(*final(self), *old(self), barcode_effect(code@, kind@, position@, font@, width, height), r),
    {
        let kind_value = match BarcodeType::from_token(kind) {
            Some(k) => k,
            None => return Err(invalid(Parameter::BarcodeKind, kind)),
        };
        let position_value = match TextPosition::from_token(position) {
            Some(p) => p,
            None => return Err(invalid(Parameter::TextPosition, position)),
        };
        let font_value = match Font::from_token(font) {
            Some(f) => f,
            None => return Err(invalid(Parameter::BarcodeFont, font)),
        };
        let mut bc = Barcode { width, height, font: font_value, kind: kind_value, position: position_value };
        let mut cmd: Vec<u8> = Vec::new();
        cmd.extend_from_slice(&bc.set_width());
        cmd.extend_from_slice(&bc.set_height());
        cmd.extend_from_slice(&bc.set_text_position());
        cmd.extend_from_slice(&bc.set_font());
        cmd.extend_from_slice(&bc.set_barcode_type());
        cmd.extend_from_slice(code.as_bytes());
        cmd.push(0);
        assert(cmd@ =~= bc.commands() + encode_utf8(code@) + seq![0u8]);
        Ok(self.emit(cmd.as_slice()))
    }

    pub fn chain_barcode(
        &mut self,
        code: &str,
        kind: &str,
        position: &str,
        font: &str,
        width: u8,
        height: u8,
    ) -> (r: Result<&mut Self, Error>)
        ensures
            Self::chained(r, *old(self), barcode_effect(code@, kind@, position@, font@, width, height)),
            r is Ok ==> *final(self) == *final(r->Ok_0),
            r is Err ==> *final(self) == *old(self),
    {
        match self.barcode(code, kind, position, font, width, height) {
            Ok(_) => Ok(self),
            Err(e) => Err(e),
        }
    }

    /// Prints `code` as a QR code at error-correction `level` (L, M, Q or H), with `version`
    /// and module `size` (3 when not given).
    pub fn qrcode(&mut self, code: &str, version: Option<i32>, level: &str, size: Option<i32>) -> (r: Result<usize, Error>)
        ensures
            Self::performed(*final(self), *old(self), qrcode_effect(code@, version, level@, size), r),
    {
        let level_byte: [u8; 1] = if token_eq(level, &['L']) {
            consts::QR_LEVEL_L
        } else if token_eq(level, &['M']) {
            consts::QR_LEVEL_M
        } else if token_eq(level, &['Q']) {
            consts::QR_LEVEL_Q
        } else if token_eq(level, &['H']) {
            consts::QR_LEVEL_H
        } else {
            return Err(invalid(Parameter::QrLevel, level));
        };
        let version_value: i32 = match version {
            Some(v) => v,
            None => 3,
        };
        let size_value: i32 = match size {
            Some(s) => s,
            None => 3,
        };
        let bytes = code.as_bytes();
        let length = u16_le(bytes.len() as u16);
        let mut cmd: Vec<u8> = Vec::new();
        cmd.extend_from_slice(&consts::TYPE_QR);
        cmd.extend_from_slice(&consts::CODE2D);
        cmd.push(version_value as u8);
        cmd.extend_from_slice(&level_byte);
        cmd.push(size_value as u8);
        cmd.extend_from_slice(&length);
        cmd.extend_from_slice(bytes);
        assert(cmd@ =~= consts::TYPE_QR@ + consts::CODE2D@ + seq![version_value as u8] + level_byte@
            + seq![size_value as u8] + u16_le_bytes(bytes@.len() as u16) + encode_utf8(code@));
        Ok(self.emit(cmd.as_slice()))
    }

    pub fn chain_qrcode(&mut self, code: &str, version: Option<i32>, level: &str, size: Option<i32>) -> (r: Result<&mut Self, Error>)
        ensures
            Self::chained(r, *old(self), qrcode_effect(code@, version, level@, size)),
            r is Ok ==> *final(self) == *final(r->Ok_0),
            r is Err ==> *final(self) == *old(self),
    {
        match self.qrcode(code, version, level, size) {
            Ok(_) => Ok(self),
            Err(e) => Err(e),
        }
    }


    /// Prints `image` in bit-image mode at `density` (S8, D8, S24 or D24; D24 when not given):
    /// zero line spacing, then each full scan line with its mode header, column count and a line feed.
    pub fn bit_image(&mut self, image: &Image, density: Option<&str>) -> (r: Result<usize, Error>)
        ensures
            Self::performed(*final(self), *old(self), bit_image_effect(image@, token_of(density)), r),
    {
        let (header, dots): ([u8; 3], u32) = match density {
            None => (consts::BITMAP_D24, 24),
            Some(t) => {
                if token_eq(t, &['S', '8']) {
                    (consts::BITMAP_S8, 8)
                } else if token_eq(t, &['D', '8']) {
                    (consts::BITMAP_D8, 8)
                } else if token_eq(t, &['S', '2', '4']) {
                    (consts::BITMAP_S24, 24)
                } else if token_eq(t, &['D', '2', '4']) {
                    (consts::BITMAP_D24, 24)
                } else {
                    return Err(invalid(Parameter::BitImageDensity, t));
                }
            },
        };
        let ghost count = image@.line_count(dots as nat);
        let before = self.buffer.len();
        let zero = [0u8];
        self.emit_both(&consts::LS_SET, &zero);
        assert(consts::LS_SET@ + zero@ =~= line_space_bytes(0));
        assert(line_space_bytes(0) =~= line_space_bytes(0) + bitimage_stream(image@, header@, dots as nat, 0));
        let columns = u16_le(image.width() as u16);
        let mut lines = image.bitimage_lines(dots);
        loop
            invariant
                lines.image() == image@,
                lines.density() == dots,
                lines.produced() <= count,
                count == image@.line_count(dots as nat),
                columns@ == u16_le_bytes(image@.width as u16),
                before == old(self).pending().len(),
                self.appended(
                    *old(self),
                    line_space_bytes(0) + bitimage_stream(image@, header@, dots as nat, lines.produced()),
                ),
            ensures
                lines.produced() == count,
                self.appended(
                    *old(self),
                    line_space_bytes(0) + bitimage_stream(image@, header@, dots as nat, count),
                ),
            decreases count - lines.produced(),
        {
            let ghost done = lines.produced();
            match lines.next() {
                Some(line) => {
                    let mut cmd: Vec<u8> = Vec::new();
                    cmd.extend_from_slice(&header);
                    cmd.extend_from_slice(&columns);
                    cmd.extend_from_slice(line.as_slice());
                    cmd.extend_from_slice(&consts::CTL_LF);
                    self.emit(cmd.as_slice());
                    assert(old(self).pending() + (line_space_bytes(0) + bitimage_stream(image@, header@, dots as nat, done)) + cmd@
                        =~= old(self).pending() + (line_space_bytes(0) + bitimage_stream(image@, header@, dots as nat, done + 1)));
                },
                None => break,
            }
        }
        Ok(self.buffer.len() - before)
    }

    pub fn chain_bit_image(&mut self, image: &Image, density: Option<&str>) -> (r: Result<&mut Self, Error>)
        ensures
            Self::chained(r, *old(self), bit_image_effect(image@, token_of(density))),
            r is Ok ==> *final(self) == *final(r->Ok_0),
            r is Err ==> *final(self) == *old(self),
    {
        match self.bit_image(image, density) {
            Ok(_) => Ok(self),
            Err(e) => Err(e),
        }
    }

    /// Prints `image` in raster mode `mode` (NORMAL, DW, DH or DWDH; NORMAL when not given): the
    /// mode header, the bytes per row and the height, then the raster bitmap.
    pub fn raster(&mut self, image: &Image, mode: Option<&str>) -> (r: Result<usize, Error>)
        ensures
            Self::performed(*final(self), *old(self), raster_effect(image@, token_of(mode)), r),
    {
        let header: [u8; 4] = match mode {
            None => consts::GSV0_NORMAL,
            Some(t) => {
                if token_eq(t, &['N', 'O', 'R', 'M', 'A', 'L']) {
                    consts::GSV0_NORMAL
                } else if token_eq(t, &['D', 'W']) {
                    consts::GSV0_DW
                } else if token_eq(t, &['D', 'H']) {
                    consts::GSV0_DH
                } else if token_eq(t, &['D', 'W', 'D', 'H']) {
                    consts::GSV0_DWDH
                } else {
                    return Err(invalid(Parameter::RasterMode, t));
                }
            },
        };
        let row_bytes = ((image.width() as u64 + 7) / 8) as u16;
        let data = image.get_raster();
        let mut cmd: Vec<u8> = Vec::new();
        cmd.extend_from_slice(&header);
        cmd.extend_from_slice(&u16_le(row_bytes));
        cmd.extend_from_slice(&u16_le(image.height() as u16));
        cmd.extend_from_slice(data.as_slice());
        assert(cmd@ =~= header@ + u16_le_bytes(image@.row_bytes() as u16) + u16_le_bytes(image@.height as u16)
            + image@.raster());
        Ok(self.emit(cmd.as_slice()))
    }

    pub fn chain_raster(&mut self, image: &Image, mode: Option<&str>) -> (r: Result<&mut Self, Error>)
        ensures
            Self::chained(r, *old(self), raster_effect(image@, token_of(mode))),
            r is Ok ==> *final(self) == *final(r->Ok_0),
            r is Err ==> *final(self) == *old(self),
    {
        match self.raster(image, mode) {
            Ok(_) => Ok(self),
            Err(e) => Err(e),
        }
    }


    /// Reserved for printing a QR code as an image; writes nothing yet.
    pub fn qrimage(&mut self) -> (r: Result<usize, Error>)
        ensures
            Self::performed(*final(self), *old(self), Effect::Writes(Seq::empty()), r),
    {
        assert(self.pending() =~= self.pending() + Seq::<u8>::empty());
        Ok(0)
    }

    pub fn chain_qrimage(&mut self) -> (r: Result<&mut Self, Error>)
        ensures
            Self::chained(r, *old(self), Effect::Writes(Seq::empty())),
            r is Ok ==> *final(self) == *final(r->Ok_0),
            r is Err ==> *final(self) == *old(self),
    {
        match self.qrimage() {
            Ok(_) => Ok(self),
            Err(e) => Err(e),
        }
    }

    /// Drops the first `start` pending bytes, which the sink has taken.
    fn keep_from(&mut self, start: usize)
        requires
            start <= old(self).buffer@.len(),
        ensures
            final(self).buffer@ == old(self).buffer@.subrange(start as int, old(self).buffer@.len() as int),
            final(self).delivered == old(self).delivered,
            final(self).codec == old(self).codec,
            final(self).trap == old(self).trap,
    {
        let rest = self.buffer.split_off(start);
        self.buffer = rest;
    }

}


/// What the printer makes of the sink's answer to writing the pending bytes from offset
/// `start` of `len`: the offset to go on from when the sink took some bytes; an I/O error
/// when it took none; the sink's own error, as it came, when it failed.
pub fn after_write(start: usize, len: usize, answer: Result<usize, std::io::Error>) -> (r: Result<usize, Error>)
    requires
        start < len,
        answer is Ok ==> answer->Ok_0 <= len - start,
    ensures
        answer is Ok && answer->Ok_0 > 0 ==> r == Ok::<usize, Error>((start + answer->Ok_0) as usize),
        answer is Ok && answer->Ok_0 == 0 ==> r is Err && r->Err_0 is Io,
        answer is Err ==> r == Err::<usize, Error>(Error::Io(answer->Err_0)),
{
    match answer {
        Ok(0) => Err(Error::Io(write_zero_error())),
        Ok(n) => Ok(start + n),
        Err(e) => Err(Error::Io(e)),
    }
}

/// What the printer makes of the sink's answer to a flush: success, or the sink's own error
/// as it came.
pub fn after_flush(answer: Result<(), std::io::Error>) -> (r: Result<(), Error>)
    ensures
        answer is Ok ==> r is Ok,
        answer is Err ==> r == Err::<(), Error>(Error::Io(answer->Err_0)),
{
    match answer {
        Ok(()) => Ok(()),
        Err(e) => Err(Error::Io(e)),
    }
}

impl<W: Sink> Printer<W> {
    /// Hands every pending byte to the sink, in order, then flushes the sink. Each answer of
    /// the sink is read by [`after_write`] and [`after_flush`]: the first failure ends the
    /// flush and is returned; the bytes the sink took count as delivered and the rest stay
    /// pending.
    pub fn flush(&mut self) -> (r: Result<(), Error>)
        ensures
            final(self).output() == old(self).output(),
            old(self).delivered().is_prefix_of(final(self).delivered()),
            final(self).codec() == old(self).codec(),
            final(self).policy() == old(self).policy(),
            r is Ok ==> final(self).pending() == Seq::<u8>::empty() && final(self).delivered() == old(self).output(),
            r is Err ==> r->Err_0 is Io,
    {
        let mut start: usize = 0;
        while start < self.buffer.len()
            invariant
                start <= self.buffer@.len(),
                self.buffer@ == old(self).buffer@,
                self.delivered@ == old(self).delivered@ + self.buffer@.subrange(0, start as int),
                self.codec == old(self).codec,
                self.trap == old(self).trap,
            decreases self.buffer@.len() - start,
        {
            let end = self.buffer.len();
            let rest = slice_subrange(self.buffer.as_slice(), start, end);
            let answer = self.writer.write(rest);
            match after_write(start, end, answer) {
                Ok(next) => {
                    start = next;
                    self.delivered = Ghost(old(self).delivered@ + self.buffer@.subrange(0, start as int));
                },
                Err(e) => {
                    self.keep_from(start);
                    return Err(e);
                },
            }
        }
        self.buffer.clear();
        assert(self.delivered@ =~= old(self).output());
        after_flush(self.writer.flush())
    }
}

} // verus!
