//! ESC/POS command table: the exact bytes of every command the printer emits.
use vstd::prelude::*;

verus! {

// Feed control sequences
/// Print and line feed
pub const CTL_LF: [u8; 1] = [0x0a];
/// Form feed
pub const CTL_FF: [u8; 1] = [0x0c];
/// Carriage return
pub const CTL_CR: [u8; 1] = [0x0d];
/// Horizontal tab
pub const CTL_HT: [u8; 1] = [0x09];
/// Vertical tab
pub const CTL_VT: [u8; 1] = [0x0b];

// Line spacing
/// ESC 2: default line spacing
pub const LS_DEFAULT: [u8; 2] = [0x1b, 0x32];
/// ESC 3 n: line spacing of n motion units (n follows)
pub const LS_SET: [u8; 2] = [0x1b, 0x33];

// Hardware
/// ESC @: initialize the printer
pub const HW_INIT: [u8; 2] = [0x1b, 0x40];
/// ESC = 1: select (enable) the printer
pub const HW_ENABLE: [u8; 3] = [0x1b, 0x3d, 0x01];
/// ESC = 0: deselect (disable) the printer
pub const HW_DISABLE: [u8; 3] = [0x1b, 0x3d, 0x00];

// Cash drawer
/// Sends a pulse to pin 2
pub const CD_KICK_2: [u8; 3] = [0x1b, 0x70, 0x00];
/// Sends a pulse to pin 5
pub const CD_KICK_5: [u8; 3] = [0x1b, 0x70, 0x01];

// Paper
/// GS V 0: full cut
pub const PAPER_FULL_CUT: [u8; 3] = [0x1d, 0x56, 0x00];
/// GS V 1: partial cut
pub const PAPER_PARTIAL_CUT: [u8; 3] = [0x1d, 0x56, 0x01];

// Text format
/// Normal text
pub const TXT_NORMAL: [u8; 3] = [0x1b, 0x21, 0x00];
/// Double height text
pub const TXT_2HEIGHT: [u8; 3] = [0x1b, 0x21, 0x10];
/// Double width text
pub const TXT_2WIDTH: [u8; 3] = [0x1b, 0x21, 0x20];

/// Underline font OFF
pub const TXT_UNDERL_OFF: [u8; 3] = [0x1b, 0x2d, 0x00];
/// Underline font 1-dot ON
pub const TXT_UNDERL_ON: [u8; 3] = [0x1b, 0x2d, 0x01];
/// Underline font 2-dot ON
pub const TXT_UNDERL2_ON: [u8; 3] = [0x1b, 0x2d, 0x02];
/// Bold font OFF
pub const TXT_BOLD_OFF: [u8; 3] = [0x1b, 0x45, 0x00];
/// Bold font ON
pub const TXT_BOLD_ON: [u8; 3] = [0x1b, 0x45, 0x01];

/// Font type A
pub const TXT_FONT_A: [u8; 3] = [0x1b, 0x4d, 0x00];
/// Font type B
pub const TXT_FONT_B: [u8; 3] = [0x1b, 0x4d, 0x01];
/// Font type C
pub const TXT_FONT_C: [u8; 3] = [0x1b, 0x4d, 0x02];

/// Left justification
pub const TXT_ALIGN_LT: [u8; 3] = [0x1b, 0x61, 0x00];
/// Centering
pub const TXT_ALIGN_CT: [u8; 3] = [0x1b, 0x61, 0x01];
/// Right justification
pub const TXT_ALIGN_RT: [u8; 3] = [0x1b, 0x61, 0x02];

// Barcode format
/// GS w: module width (n follows, 2 <= n <= 6)
pub const BARCODE_WIDTH: [u8; 2] = [0x1d, 0x77];
/// GS h: barcode height (n follows, 1 <= n <= 255)
pub const BARCODE_HEIGHT: [u8; 2] = [0x1d, 0x68];
/// Barcode height in dots that the printer starts with, used for an out-of-range height
pub const BARCODE_DEFAULT_HEIGHT: u8 = 162;
/// Module width that the printer starts with, used for an out-of-range width
pub const BARCODE_DEFAULT_WIDTH: u8 = 2;
/// GS H: position of the human-readable characters (n follows)
pub const BARCODE_TXT_POSITION: [u8; 2] = [0x1d, 0x48];
/// GS k: print barcode (system m follows)
pub const BARCODE_TYPE: [u8; 2] = [0x1d, 0x6b];
/// Font type A for HRI barcode chars
pub const BARCODE_FONT_A: [u8; 3] = [0x1d, 0x66, 0x00];
/// Font type B for HRI barcode chars
pub const BARCODE_FONT_B: [u8; 3] = [0x1d, 0x66, 0x01];

// 2D code format
/// GS Z 0: select PDF417
pub const TYPE_PDF417: [u8; 3] = [0x1d, 0x5a, 0x00];
/// GS Z 1: select DataMatrix
pub const TYPE_DATAMATRIX: [u8; 3] = [0x1d, 0x5a, 0x01];
/// GS Z 2: select QR code
pub const TYPE_QR: [u8; 3] = [0x1d, 0x5a, 0x02];
/// ESC Z: print the selected 2D code
pub const CODE2D: [u8; 2] = [0x1b, 0x5a];

/// QR error correction level L (7%)
pub const QR_LEVEL_L: [u8; 1] = [0x4c];
/// QR error correction level M (15%)
pub const QR_LEVEL_M: [u8; 1] = [0x4d];
/// QR error correction level Q (25%)
pub const QR_LEVEL_Q: [u8; 1] = [0x51];
/// QR error correction level H (30%)
pub const QR_LEVEL_H: [u8; 1] = [0x48];

// Image format
/// Set raster image normal size
pub const S_RASTER_N: [u8; 4] = [0x1d, 0x76, 0x30, 0x00];
/// Set raster image double width
pub const S_RASTER_2W: [u8; 4] = [0x1d, 0x76, 0x30, 0x01];
/// Set raster image double height
pub const S_RASTER_2H: [u8; 4] = [0x1d, 0x76, 0x30, 0x02];
/// Set raster image quadruple
pub const S_RASTER_Q: [u8; 4] = [0x1d, 0x76, 0x30, 0x03];

// Bit-image format
/// 8 dots single density, 102dpi
pub const BITMAP_S8: [u8; 3] = [0x1b, 0x2a, 0x00];
/// 8 dots double density, 203dpi
pub const BITMAP_D8: [u8; 3] = [0x1b, 0x2a, 0x01];
/// 24 dots single density, 102dpi
pub const BITMAP_S24: [u8; 3] = [0x1b, 0x2a, 0x20];
/// 24 dots double density, 203dpi
pub const BITMAP_D24: [u8; 3] = [0x1b, 0x2a, 0x21];

// GS v 0 raster format
/// GS v 0, normal
pub const GSV0_NORMAL: [u8; 4] = [0x1d, 0x76, 0x30, 0x00];
/// GS v 0, double width
pub const GSV0_DW: [u8; 4] = [0x1d, 0x76, 0x30, 0x01];
/// GS v 0, double height
pub const GSV0_DH: [u8; 4] = [0x1d, 0x76, 0x30, 0x02];
/// GS v 0, double width and height
pub const GSV0_DWDH: [u8; 4] = [0x1d, 0x76, 0x30, 0x03];

} // verus!
