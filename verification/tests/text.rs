use session_sync::text::{decimal_text, trim, white_space};

#[test]
fn white_space_is_the_unicode_property() {
    for code in 0..=0x10ffffu32 {
        if let Some(c) = char::from_u32(code) {
            assert_eq!(white_space(c), c.is_whitespace(), "{:x}", code);
        }
    }
}

#[test]
fn trim_agrees_with_the_standard_library() {
    let samples = [
        "",
        " ",
        "custom",
        "  custom",
        "custom\n",
        "\u{3000}\tcustom \u{a0}",
        "two words",
        " \u{2028} ",
        "\u{200b}custom\u{200b}",
        " 会话 ",
    ];
    for sample in samples {
        assert_eq!(trim(sample), sample.trim());
    }
}

#[test]
fn numbers_are_written_in_decimal() {
    for n in [0u64, 1, 9, 10, 19, 100, 101, 1234567890, u64::MAX] {
        assert_eq!(decimal_text(n), format!("{}", n));
    }
}
