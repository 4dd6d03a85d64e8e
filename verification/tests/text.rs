use msedgedriver_tool::text::same_text;
use msedgedriver_tool::text::trim;
use msedgedriver_tool::text::white_space;

#[test]
fn white_space_is_what_std_calls_white_space() {
    let mut code: u32 = 0;
    while code <= 0x10FFFF {
        if let Some(c) = char::from_u32(code) {
            assert_eq!(white_space(c), c.is_whitespace(), "U+{:04X}", code);
        }
        code += 1;
    }
}

#[test]
fn trim_is_what_std_trims() {
    let samples = [
        "",
        " ",
        "\r\n",
        "100.0.1185.36",
        "100.0.1185.36\r\n",
        "  100.0.1185.36",
        "\t 100.0.1185.36 \n\n",
        "a b",
        " a  b ",
        "\u{a0}1.2\u{3000}",
        "\u{2003}\u{2028}x\u{2029}\u{205f}",
        "\u{feff}1.2",
        "\u{200b}1.2 ",
        " é ",
        "日本 語\u{85}",
        " \u{1680} ",
    ];
    for sample in samples {
        assert_eq!(trim(sample), sample.trim(), "{:?}", sample);
    }
}

#[test]
fn trim_keeps_inner_white_space() {
    assert_eq!(trim("  1.2 3.4\t"), "1.2 3.4");
    assert_eq!(trim("x"), "x");
    assert_eq!(trim(" \n\t "), "");
}

#[test]
fn same_text_compares_every_character() {
    assert!(same_text("", ""));
    assert!(same_text("windows", "windows"));
    assert!(!same_text("windows", "window"));
    assert!(!same_text("window", "windows"));
    assert!(!same_text("windows", "Windows"));
    assert!(!same_text("windowsx", "windowsy"));
    assert!(same_text("é日本", "é日本"));
    assert!(!same_text("é", "e"));
    assert!(!same_text("", " "));
}
