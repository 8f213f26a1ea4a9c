use image::{DynamicImage, Rgb, RgbImage, Rgba, RgbaImage};
use qrcode::types::QrError;

use snbc::error::{Error, Parameter};
use snbc::img::Image;
use snbc::printer::Printer;

fn solid(width: u32, height: u32, pixel: [u8; 4]) -> Image {
    let mut rgba = Vec::new();
    for _ in 0..width * height {
        rgba.extend_from_slice(&pixel);
    }
    Image::from_rgba(width, height, rgba).unwrap()
}

const BLACK: [u8; 4] = [0, 0, 0, 255];
const WHITE: [u8; 4] = [255, 255, 255, 255];

#[test]
fn from_rgba_checks_the_length() {
    assert!(Image::from_rgba(2, 2, vec![0; 15]).is_none());
    assert!(Image::from_rgba(2, 2, vec![0; 17]).is_none());
    let img = Image::from_rgba(2, 2, vec![0; 16]).unwrap();
    assert_eq!((img.width(), img.height()), (2, 2));
    assert!(Image::from_rgba(0, 5, Vec::new()).is_some());
}

#[test]
fn blank_pixels_are_transparent_or_pure_white() {
    let rgba = vec![
        10, 20, 30, 0, // transparent
        255, 255, 255, 255, // white
        255, 255, 254, 255, // near white: ink
        0, 0, 0, 255, // black
    ];
    let img = Image::from_rgba(4, 1, rgba).unwrap();
    assert!(img.is_blank_pixel(0, 0));
    assert!(img.is_blank_pixel(1, 0));
    assert!(!img.is_blank_pixel(2, 0));
    assert!(!img.is_blank_pixel(3, 0));
}

#[test]
fn raster_of_nine_by_one_black() {
    let img = solid(9, 1, BLACK);
    assert_eq!(img.get_raster(), vec![0xff, 0x80]);
}

#[test]
fn raster_length_is_row_bytes_times_height() {
    for (w, h) in [(1, 1), (8, 3), (17, 3), (0, 4), (5, 0)] {
        let img = solid(w, h, WHITE);
        let raster = img.get_raster();
        assert_eq!(raster.len(), ((w as usize + 7) / 8) * h as usize);
        assert!(raster.iter().all(|b| *b == 0));
    }
}

#[test]
fn raster_packs_columns_most_significant_first() {
    let mut rgba = Vec::new();
    for x in 0..10 {
        rgba.extend_from_slice(if x == 1 || x == 7 || x == 9 { &BLACK } else { &WHITE });
    }
    let img = Image::from_rgba(10, 1, rgba).unwrap();
    assert_eq!(img.get_raster(), vec![0b0100_0001, 0b0100_0000]);
}

fn all_lines(img: &Image, density: u32) -> Vec<Vec<u8>> {
    let mut lines = img.bitimage_lines(density);
    let mut out = Vec::new();
    while let Some(line) = lines.next() {
        out.push(line);
    }
    assert!(lines.next().is_none());
    out
}

#[test]
fn black_scan_lines_are_solid() {
    let img = solid(16, 16, BLACK);
    let lines = all_lines(&img, 8);
    assert_eq!(lines.len(), 2);
    for line in &lines {
        assert_eq!(line.len(), 16);
        assert!(line.iter().all(|b| *b & 0x80 == 0x80 && *b == 0xff));
    }
    let tall = solid(3, 48, BLACK);
    let lines = all_lines(&tall, 24);
    assert_eq!(lines.len(), 2);
    assert!(lines.iter().all(|l| l.len() == 9 && l.iter().all(|b| *b == 0xff)));
}

#[test]
fn white_scan_lines_are_empty() {
    let img = solid(5, 24, WHITE);
    for density in [8, 24] {
        for line in all_lines(&img, density) {
            assert!(line.iter().all(|b| *b == 0));
        }
    }
}

#[test]
fn partial_band_is_dropped() {
    let img = solid(4, 12, BLACK);
    assert_eq!(all_lines(&img, 8).len(), 1);
    assert_eq!(all_lines(&img, 24).len(), 0);
}

#[test]
fn scan_line_bytes_follow_the_column_layout() {
    // A single ink pixel at column 1, row 10 of a 2 x 24 image.
    let mut rgba = Vec::new();
    for y in 0..24 {
        for x in 0..2 {
            rgba.extend_from_slice(if x == 1 && y == 10 { &BLACK } else { &WHITE });
        }
    }
    let img = Image::from_rgba(2, 24, rgba).unwrap();
    assert_eq!(all_lines(&img, 24), vec![vec![0, 0, 0, 0, 0x20, 0]]);
    assert_eq!(all_lines(&img, 8), vec![vec![0, 0], vec![0, 0x20], vec![0, 0]]);
}

#[test]
fn bit_image_writes_each_line() {
    let img = solid(8, 8, BLACK);
    let mut p = Printer::new(Vec::<u8>::new(), None, None);
    let n = p.bit_image(&img, Some("s8")).unwrap();
    let mut expected = vec![0x1b, 0x33, 0x00, 0x1b, 0x2a, 0x00, 0x08, 0x00];
    expected.extend_from_slice(&[0xff; 8]);
    expected.push(0x0a);
    assert_eq!(p.buffer(), &expected[..]);
    assert_eq!(n, expected.len());
}

#[test]
fn bit_image_default_density_is_d24() {
    let img = solid(1, 24, BLACK);
    let mut p = Printer::new(Vec::<u8>::new(), None, None);
    p.bit_image(&img, None).unwrap();
    assert_eq!(p.buffer(), &[0x1b, 0x33, 0x00, 0x1b, 0x2a, 0x21, 0x01, 0x00, 0xff, 0xff, 0xff, 0x0a][..]);
    let mut q = Printer::new(Vec::<u8>::new(), None, None);
    q.bit_image(&solid(1, 8, BLACK), Some("D24")).unwrap();
    assert_eq!(q.buffer(), &[0x1b, 0x33, 0x00][..]);
}

#[test]
fn bit_image_rejects_unknown_density() {
    let img = solid(1, 8, BLACK);
    let mut p = Printer::new(Vec::<u8>::new(), None, None);
    match p.bit_image(&img, Some("q8")) {
        Err(Error::InvalidParameter(Parameter::BitImageDensity, t)) => assert_eq!(t, "q8"),
        _ => panic!("the density error was expected"),
    }
    assert!(p.buffer().is_empty());
}

#[test]
fn raster_command_of_nine_by_one_black() {
    let img = solid(9, 1, BLACK);
    let mut p = Printer::new(Vec::<u8>::new(), None, None);
    p.raster(&img, None).unwrap();
    assert_eq!(p.buffer(), &[0x1d, 0x76, 0x30, 0x00, 0x02, 0x00, 0x01, 0x00, 0xff, 0x80][..]);
    let mut q = Printer::new(Vec::<u8>::new(), None, None);
    q.chain_raster(&img, Some("dwdh")).unwrap().chain_raster(&img, Some("Dh")).unwrap();
    assert_eq!(q.buffer()[3], 0x03);
    assert_eq!(q.buffer()[13], 0x02);
    match q.raster(&img, Some("quad")) {
        Err(Error::InvalidParameter(Parameter::RasterMode, t)) => assert_eq!(t, "quad"),
        _ => panic!("the mode error was expected"),
    }
}

fn from_decoded(img: &DynamicImage) -> Image {
    let buf = img.to_rgba8();
    let (width, height) = buf.dimensions();
    Image::from_rgba(width, height, buf.into_raw()).unwrap()
}

#[test]
fn image_from_a_decoded_buffer() {
    let rgb = RgbImage::from_fn(2, 1, |x, _| if x == 0 { Rgb([0, 0, 0]) } else { Rgb([255, 255, 255]) });
    let img = from_decoded(&DynamicImage::ImageRgb8(rgb));
    assert_eq!((img.width(), img.height()), (2, 1));
    assert_eq!(img.rgba(), &[0, 0, 0, 255, 255, 255, 255, 255][..]);
    assert!(!img.is_blank_pixel(0, 0));
    assert!(img.is_blank_pixel(1, 0));

    let rgba = RgbaImage::from_fn(1, 2, |_, y| Rgba([9, 9, 9, if y == 0 { 0 } else { 255 }]));
    let img = from_decoded(&DynamicImage::ImageRgba8(rgba));
    assert!(img.is_blank_pixel(0, 0));
    assert!(!img.is_blank_pixel(0, 1));
}

#[test]
fn modules_are_drawn_inside_the_quiet_zone() {
    // One dark module drawn 6 pixels wide: modules of 2 pixels, a margin of 2.
    let img = Image::from_modules(&vec![true], 1, 6);
    for y in 0..6 {
        for x in 0..6 {
            let dark = (2..4).contains(&x) && (2..4).contains(&y);
            assert_eq!(!img.is_blank_pixel(x, y), dark, "pixel {} {}", x, y);
        }
    }
    // Too narrow for a module: all white.
    let narrow = Image::from_modules(&vec![true], 1, 2);
    assert!(narrow.rgba().iter().all(|b| *b == 0xff));
}

#[test]
fn qr_code_image() {
    let img = Image::from_qr("hello", 100).unwrap();
    assert_eq!((img.width(), img.height()), (100, 100));
    assert!(img.is_blank_pixel(0, 0));
    assert!(img.is_blank_pixel(99, 99));
    // Version 1 has 21 modules: 4-pixel modules after a margin of 8; a finder pattern's corner is dark.
    assert!(!img.is_blank_pixel(8, 8));
    assert!(img.is_blank_pixel(7, 8));
    assert!(img.is_blank_pixel(8, 7));
    let long = "x".repeat(8000);
    assert!(matches!(Image::from_qr(&long, 100), Err(QrError::DataTooLong)));
}
