use task_runner::text::characters;
use task_runner::text::decimal;
use task_runner::text::leading_field;
use task_runner::text::parse_u32;
use task_runner::text::push_text;
use task_runner::text::strip_leading;
use task_runner::text::trim;

#[test]
fn trim_agrees_with_the_standard_library() {
    let samples = [
        "",
        " ",
        "a",
        "  a  ",
        "\t\n a b \r\n",
        "\u{85}x\u{A0}",
        "\u{1680}\u{2000}\u{200A}x y\u{2028}\u{2029}\u{202F}\u{205F}\u{3000}",
        "\u{200B}x\u{200B}",
        "\u{0B}\u{0C}v1.2\u{0B}",
        "\u{1F}x\u{1F}",
        "é \u{FEFF}",
    ];
    for sample in samples {
        assert_eq!(trim(sample), sample.trim(), "on {:?}", sample);
    }
}

#[test]
fn trim_keeps_inner_white_space() {
    assert_eq!(trim("  one  two  "), "one  two");
    assert_eq!(trim("\n\n"), "");
}

#[test]
fn strip_leading_takes_the_whole_run() {
    assert_eq!(strip_leading("v1.2", 'v'), "1.2");
    assert_eq!(strip_leading("vvv1.2v", 'v'), "1.2v");
    assert_eq!(strip_leading("1.2", 'v'), "1.2");
    assert_eq!(strip_leading("vvv", 'v'), "");
    assert_eq!(strip_leading("", 'v'), "");
    assert_eq!(strip_leading("Vv1", 'v'), "Vv1");
}

#[test]
fn leading_field_stops_at_the_first_separator() {
    assert_eq!(leading_field("24.1.0", '.'), "24");
    assert_eq!(leading_field("24", '.'), "24");
    assert_eq!(leading_field(".5", '.'), "");
    assert_eq!(leading_field("", '.'), "");
    assert_eq!(leading_field("é.b", '.'), "é");
}

#[test]
fn parse_u32_agrees_with_the_standard_library() {
    let samples = [
        "",
        "+",
        "-",
        "0",
        "7",
        "+7",
        "++7",
        "-7",
        "007",
        "00000000000000000000000000042",
        "4294967295",
        "4294967296",
        "+4294967295",
        "42949672950",
        "99999999999999999999",
        "12a",
        "a12",
        "1 2",
        " 12",
        "12 ",
        "1.5",
        "٣",
        "１２",
    ];
    for sample in samples {
        assert_eq!(parse_u32(sample), sample.parse::<u32>().ok(), "on {:?}", sample);
    }
}

#[test]
fn parse_u32_reads_exact_values() {
    assert_eq!(parse_u32("24"), Some(24));
    assert_eq!(parse_u32("4294967295"), Some(u32::MAX));
    assert_eq!(parse_u32("4294967296"), None);
    assert_eq!(parse_u32(""), None);
}

#[test]
fn decimal_writes_base_ten() {
    assert_eq!(decimal(0), "0");
    assert_eq!(decimal(9), "9");
    assert_eq!(decimal(10), "10");
    assert_eq!(decimal(1234567890), "1234567890");
    assert_eq!(decimal(usize::MAX), usize::MAX.to_string());
}

#[test]
fn characters_are_kept_in_order() {
    assert_eq!(characters("a✓b"), vec!['a', '✓', 'b']);
    assert_eq!(characters(""), Vec::<char>::new());
}

#[test]
fn push_text_appends_a_copy() {
    let mut texts = vec!["a".to_string()];
    push_text(&mut texts, "b");
    assert_eq!(texts, vec!["a", "b"]);
}
