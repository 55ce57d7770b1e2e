use termcore::color::{Color, RgbColor};
use termcore::sgr::{Attribute, parse_attributes};
use termcore::charset::StandardCharset;

#[test]
fn test_color_parsing() {
    assert_eq!(Some(Color::Indexed(11)), Color::parse(b"bright-yellow"));
    assert_eq!(
        Some(Color::Rgb(RgbColor { r: 0xF0, g: 0xF0, b: 0xF0 })),
        Color::parse(b"#F0"),
    );
    assert_eq!(
        Some(Color::Rgb(RgbColor { r: 0xF0, g: 0xF1, b: 0xF2 })),
        Color::parse(b"#F0F1F2"),
    );
    assert_eq!(
        Some(Color::Rgb(RgbColor { r: 0x00, g: 0x88, b: 0xFF })),
        Color::parse(b"rgb:00/88/ff"),
    );
    assert_eq!(Some(Color::Indexed(23)), Color::parse(b"23"));
}

#[test]
fn test_parse_attributes() {
    let params: [i64; 13] = [1, 3, 4, 7, 30, 38, 2, 100, 100, 100, 48, 5, 64];
    assert_eq!(
        parse_attributes(&params),
        vec![
            Attribute::Bold,
            Attribute::Italic,
            Attribute::Underline,
            Attribute::Reverse,
            Attribute::Foreground(Color::Indexed(0)),
            Attribute::Foreground(Color::Rgb(RgbColor { r: 100, g: 100, b: 100 })),
            Attribute::Background(Color::Indexed(64)),
        ],
    )
}

#[test]
fn test_color_names_and_specials() {
    assert_eq!(Some(Color::Indexed(0)), Color::parse(b"black"));
    assert_eq!(Some(Color::Indexed(15)), Color::parse(b"BRIGHT_WHITE"));
    assert_eq!(
        Some(Color::Special(termcore::color::SpecialColor::Foreground)),
        Color::parse(b"foreground"),
    );
    assert_eq!(Some(Color::Rgb(RgbColor { r: 0x12, g: 0x34, b: 0x56 })), Color::parse(b"0x123456"));
    assert_eq!(None, Color::parse(b"256"));
    assert_eq!(None, Color::parse(b"no-such-color"));
}

#[test]
fn test_rgb_round_trip() {
    // Parsing rgb:RR/GG/BB and formatting as #rrggbb keeps the triple.
    let c = RgbColor::parse(b"rgb:12/a4/f6").unwrap();
    assert_eq!(c, RgbColor { r: 0x12, g: 0xa4, b: 0xf6 });
    let hex = c.to_hex();
    assert_eq!(hex, b"#12a4f6".to_vec());
    assert_eq!(RgbColor::parse(&hex), Some(c));
}

#[test]
fn test_color_text_forms() {
    assert_eq!(Color::Indexed(1).to_text(), b"red".to_vec());
    assert_eq!(Color::Indexed(9).to_text(), b"bright-red".to_vec());
    assert_eq!(Color::Indexed(123).to_text(), b"123".to_vec());
    assert_eq!(
        Color::Rgb(RgbColor { r: 0, g: 8, b: 255 }).to_text(),
        b"#0008ff".to_vec(),
    );
}

#[test]
fn test_sgr_invalid_color_run_is_skipped() {
    // An out-of-range extended color aborts that attribute, not the stream.
    let params: [i64; 6] = [38, 5, 999, 1, 38, 5];
    assert_eq!(parse_attributes(&params), vec![Attribute::Bold]);
    let params2: [i64; 5] = [38, 2, 300, 0, 0];
    assert_eq!(parse_attributes(&params2), vec![]);
}

#[test]
fn test_charset_mapping() {
    assert_eq!(StandardCharset::Ascii.map('x'), 'x');
    assert_eq!(StandardCharset::Special.map('l'), '┌');
    assert_eq!(StandardCharset::Special.map('q'), '─');
    assert_eq!(StandardCharset::Special.map('k'), '┐');
    assert_eq!(StandardCharset::Special.map('`'), '◆');
    assert_eq!(StandardCharset::Special.map('~'), '·');
    // Identity outside the table.
    assert_eq!(StandardCharset::Special.map('A'), 'A');
    assert_eq!(StandardCharset::Special.map('0'), '0');
    assert_eq!(StandardCharset::Special.map('é'), 'é');
}
