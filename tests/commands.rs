use snbc::codec::EncodingErrorPolicy;
use snbc::error::{Error, Parameter};
use snbc::printer::Printer;

fn printer() -> Printer<Vec<u8>> {
    Printer::new(Vec::<u8>::new(), None, None)
}

fn rejected(r: Result<usize, Error>, param: Parameter, token: &str) -> bool {
    match r {
        Err(Error::InvalidParameter(p, t)) => p == param && t == token,
        _ => false,
    }
}

#[test]
fn align_tokens_write_their_command() {
    let cases: [(&str, [u8; 3]); 7] = [
        ("lt", [0x1b, 0x61, 0x00]),
        ("LT", [0x1b, 0x61, 0x00]),
        ("Lt", [0x1b, 0x61, 0x00]),
        ("ct", [0x1b, 0x61, 0x01]),
        ("CT", [0x1b, 0x61, 0x01]),
        ("rt", [0x1b, 0x61, 0x02]),
        ("rT", [0x1b, 0x61, 0x02]),
    ];
    for (token, bytes) in cases {
        let mut p = printer();
        assert_eq!(p.align(token).unwrap(), 3);
        assert_eq!(p.buffer(), &bytes[..]);
    }
}

#[test]
fn align_rejects_other_tokens() {
    for token in ["bogus", "", "l", "left", "ltt", "ıt"] {
        let mut p = printer();
        assert!(rejected(p.align(token), Parameter::Alignment, token));
        assert!(p.buffer().is_empty());
    }
}

#[test]
fn feed_zero_and_one_are_identical() {
    let mut zero = printer();
    let mut one = printer();
    assert_eq!(zero.feed(0).unwrap(), 1);
    assert_eq!(one.feed(1).unwrap(), 1);
    assert_eq!(zero.buffer(), one.buffer());
    assert_eq!(zero.buffer(), &[0x0a][..]);
}

#[test]
fn feed_three_writes_three_line_feeds() {
    let mut p = printer();
    assert_eq!(p.feed(3).unwrap(), 3);
    assert_eq!(p.buffer(), &[0x0a, 0x0a, 0x0a][..]);
}

#[test]
fn size_zero_zero_writes_only_reset() {
    let mut p = printer();
    assert_eq!(p.size(0, 0).unwrap(), 3);
    assert_eq!(p.buffer(), &[0x1b, 0x21, 0x00][..]);
}

#[test]
fn size_two_two_writes_reset_width_height() {
    let mut p = printer();
    assert_eq!(p.size(2, 2).unwrap(), 9);
    assert_eq!(p.buffer(), &[0x1b, 0x21, 0x00, 0x1b, 0x21, 0x20, 0x1b, 0x21, 0x10][..]);
}

#[test]
fn size_doubles_only_what_is_two() {
    let mut p = printer();
    p.size(0, 2).unwrap();
    assert_eq!(p.buffer(), &[0x1b, 0x21, 0x00, 0x1b, 0x21, 0x10][..]);
    let mut q = printer();
    q.size(2, 1).unwrap();
    assert_eq!(q.buffer(), &[0x1b, 0x21, 0x00, 0x1b, 0x21, 0x20][..]);
}

#[test]
fn barcode_ean8_with_defaults() {
    let mut p = printer();
    let n = p.barcode("12345678", "EAN8", "", "", 0, 0).unwrap();
    let mut expected = vec![
        0x1d, 0x77, 0x02, 0x1d, 0x68, 0xa2, 0x1d, 0x48, 0x00, 0x1d, 0x66, 0x00, 0x1d, 0x6b, 0x03,
    ];
    expected.extend_from_slice(b"12345678");
    expected.push(0x00);
    assert_eq!(p.buffer(), &expected[..]);
    assert_eq!(n, expected.len());
}

#[test]
fn barcode_keeps_values_in_range() {
    let mut p = printer();
    p.barcode("1", "code128", "both", "b", 6, 80).unwrap();
    assert_eq!(
        p.buffer(),
        &[0x1d, 0x77, 0x06, 0x1d, 0x68, 0x50, 0x1d, 0x48, 0x03, 0x1d, 0x66, 0x01, 0x1d, 0x6b, 0x49, b'1', 0x00][..]
    );
    let mut q = printer();
    q.barcode("", "upca", "Above", "A", 7, 1).unwrap();
    assert_eq!(
        q.buffer(),
        &[0x1d, 0x77, 0x02, 0x1d, 0x68, 0x01, 0x1d, 0x48, 0x01, 0x1d, 0x66, 0x00, 0x1d, 0x6b, 0x00, 0x00][..]
    );
}

#[test]
fn barcode_rejects_unknown_tokens() {
    let mut p = printer();
    assert!(rejected(p.barcode("1", "EAN9", "", "", 2, 1), Parameter::BarcodeKind, "EAN9"));
    assert!(rejected(p.barcode("1", "EAN8", "left", "", 2, 1), Parameter::TextPosition, "left"));
    assert!(rejected(p.barcode("1", "EAN8", "below", "c", 2, 1), Parameter::BarcodeFont, "c"));
    assert!(rejected(p.barcode("1", "x", "y", "z", 2, 1), Parameter::BarcodeKind, "x"));
    assert!(p.buffer().is_empty());
}

#[test]
fn chain_stops_at_the_first_failure() {
    let mut p = printer();
    let r = p.chain_align("bogus").and_then(|q| q.chain_feed(1));
    match r {
        Err(Error::InvalidParameter(Parameter::Alignment, token)) => assert_eq!(token, "bogus"),
        _ => panic!("the alignment error was expected"),
    }
    assert!(p.buffer().is_empty());
    p.flush().unwrap();
    assert!(p.get_ref().is_empty());
}

#[test]
fn chain_runs_every_step_in_order() {
    let mut p = printer();
    p.chain_align("ct").unwrap().chain_feed(2).unwrap().chain_cashdraw(5).unwrap();
    assert_eq!(p.buffer(), &[0x1b, 0x61, 0x01, 0x0a, 0x0a, 0x1b, 0x70, 0x01][..]);
}

#[test]
fn cut_partial_and_full() {
    let mut partial = printer();
    partial.cut(true).unwrap();
    assert_eq!(partial.buffer(), &[0x0a, 0x0a, 0x0a, 0x1d, 0x56, 0x01][..]);
    let mut full = printer();
    full.cut(false).unwrap();
    assert_eq!(full.buffer(), &[0x0a, 0x0a, 0x0a, 0x1d, 0x56, 0x00][..]);
    let mut a = printer();
    a.full_cut().unwrap();
    a.partial_cut().unwrap();
    assert_eq!(a.buffer(), &[0x0a, 0x0a, 0x0a, 0x1d, 0x56, 0x00, 0x0a, 0x0a, 0x0a, 0x1d, 0x56, 0x01][..]);
}

#[test]
fn hardware_commands() {
    let mut p = printer();
    p.hwinit().unwrap();
    p.enable().unwrap();
    p.disable().unwrap();
    assert_eq!(p.buffer(), &[0x1b, 0x40, 0x1b, 0x3d, 0x01, 0x1b, 0x3d, 0x00][..]);
}

#[test]
fn line_space_explicit_and_default() {
    let mut p = printer();
    p.line_space(0).unwrap();
    p.line_space(255).unwrap();
    p.line_space(-1).unwrap();
    p.line_space(256).unwrap();
    assert_eq!(p.buffer(), &[0x1b, 0x33, 0x00, 0x1b, 0x33, 0xff, 0x1b, 0x32, 0x1b, 0x32][..]);
}

#[test]
fn control_tokens() {
    let mut p = printer();
    for token in ["lf", "FF", "Cr", "ht", "VT"] {
        assert_eq!(p.control(token).unwrap(), 1);
    }
    assert_eq!(p.buffer(), &[0x0a, 0x0c, 0x0d, 0x09, 0x0b][..]);
    assert!(rejected(p.control("nl"), Parameter::Control, "nl"));
}

#[test]
fn font_tokens() {
    let mut p = printer();
    p.font("a").unwrap();
    p.font("B").unwrap();
    p.font("c").unwrap();
    assert_eq!(p.buffer(), &[0x1b, 0x4d, 0x00, 0x1b, 0x4d, 0x01, 0x1b, 0x4d, 0x02][..]);
    assert!(rejected(p.font("D"), Parameter::Font, "D"));
}

#[test]
fn style_tokens() {
    let cases: [(&str, [u8; 6]); 6] = [
        ("b", [0x1b, 0x2d, 0x00, 0x1b, 0x45, 0x01]),
        ("U", [0x1b, 0x45, 0x00, 0x1b, 0x2d, 0x01]),
        ("u2", [0x1b, 0x45, 0x00, 0x1b, 0x2d, 0x02]),
        ("bu", [0x1b, 0x45, 0x01, 0x1b, 0x2d, 0x01]),
        ("BU2", [0x1b, 0x45, 0x01, 0x1b, 0x2d, 0x02]),
        ("Normal", [0x1b, 0x45, 0x00, 0x1b, 0x2d, 0x00]),
    ];
    for (token, bytes) in cases {
        let mut p = printer();
        assert_eq!(p.style(token).unwrap(), 6);
        assert_eq!(p.buffer(), &bytes[..]);
    }
    let mut p = printer();
    assert!(rejected(p.style("italic"), Parameter::Style, "italic"));
}

#[test]
fn cashdraw_pins() {
    let mut p = printer();
    p.cashdraw(2).unwrap();
    p.cashdraw(5).unwrap();
    p.cashdraw(7).unwrap();
    assert_eq!(p.buffer(), &[0x1b, 0x70, 0x00, 0x1b, 0x70, 0x01, 0x1b, 0x70, 0x00][..]);
}

#[test]
fn qrcode_command_bytes() {
    let mut p = printer();
    let n = p.qrcode("abc", None, "m", None).unwrap();
    let expected = [0x1d, 0x5a, 0x02, 0x1b, 0x5a, 0x03, b'M', 0x03, 0x03, 0x00, b'a', b'b', b'c'];
    assert_eq!(p.buffer(), &expected[..]);
    assert_eq!(n, expected.len());
    let mut q = printer();
    q.qrcode("", Some(10), "H", Some(260)).unwrap();
    assert_eq!(q.buffer(), &[0x1d, 0x5a, 0x02, 0x1b, 0x5a, 0x0a, b'H', 0x04, 0x00, 0x00][..]);
    assert!(rejected(q.qrcode("x", None, "Z", None), Parameter::QrLevel, "Z"));
}

#[test]
fn qrcode_length_is_little_endian() {
    let code = "x".repeat(0x0123);
    let mut p = printer();
    p.qrcode(&code, None, "l", None).unwrap();
    assert_eq!(&p.buffer()[8..10], &[0x23, 0x01][..]);
}

#[test]
fn print_uses_utf8_by_default() {
    let mut p = printer();
    assert_eq!(p.print("é").unwrap(), 2);
    assert_eq!(p.buffer(), "é".as_bytes());
}

#[test]
fn println_and_text_end_with_line_feed() {
    let mut p = printer();
    p.println("ab").unwrap();
    p.text("c").unwrap();
    assert_eq!(p.buffer(), b"ab\nc\n");
}

#[test]
fn print_with_a_single_byte_codec() {
    let mut p = Printer::new(Vec::<u8>::new(), Some("windows-1252"), None);
    assert_eq!(p.print("é").unwrap(), 1);
    assert_eq!(p.buffer(), &[0xe9][..]);
    p.print("敏").unwrap();
    assert_eq!(p.buffer(), &[0xe9, b'?'][..]);
}

#[test]
fn strict_policy_rejects_unencodable_text() {
    let mut p = Printer::new(Vec::<u8>::new(), Some("windows-1252"), Some(EncodingErrorPolicy::Strict));
    assert!(matches!(p.print("a敏"), Err(Error::Encoding(_))));
    assert!(p.buffer().is_empty());
    let mut q = Printer::new(Vec::<u8>::new(), Some("windows-1252"), Some(EncodingErrorPolicy::Ignore));
    q.print("a敏b").unwrap();
    assert_eq!(q.buffer(), b"ab");
}

#[test]
fn unknown_codec_label_is_an_encoding_error() {
    let mut p = Printer::new(Vec::<u8>::new(), Some("no-such-codec"), None);
    assert!(matches!(p.print("a"), Err(Error::Encoding(_))));
    assert!(matches!(p.chain_text("a"), Err(Error::Encoding(_))));
}

#[test]
fn write_u8_and_raw_write() {
    let mut p = printer();
    assert_eq!(p.write_u8(0x42).unwrap(), 1);
    p.chain_write_u8(0x43).unwrap();
    assert_eq!(p.write(&[1, 2, 3]).unwrap(), 3);
    assert_eq!(p.buffer(), &[0x42, 0x43, 1, 2, 3][..]);
}
