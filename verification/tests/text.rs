use maa_roguelike::text::{characters, is_whitespace, same_text, split, trim};

#[test]
fn whitespace_is_the_unicode_property() {
    let mut count = 0;
    for code in 0..=0x10FFFFu32 {
        if let Some(c) = char::from_u32(code) {
            assert_eq!(is_whitespace(c), c.is_whitespace(), "U+{:04X}", code);
            if is_whitespace(c) {
                count += 1;
            }
        }
    }
    assert_eq!(count, 25);
}

#[test]
fn whitespace_examples() {
    for c in [' ', '\t', '\n', '\r', '\u{b}', '\u{c}', '\u{85}', '\u{a0}', '\u{3000}', '\u{2003}'] {
        assert!(is_whitespace(c));
    }
    for c in ['a', ',', '_', '0', '\u{8}', '\u{e}', '\u{200b}', '\u{180e}', '\u{feff}', '板'] {
        assert!(!is_whitespace(c));
    }
}

#[test]
fn characters_of_a_text() {
    assert_eq!(characters(""), Vec::<char>::new());
    assert_eq!(characters("a,b"), vec!['a', ',', 'b']);
    assert_eq!(characters("板子1"), vec!['板', '子', '1']);
}

#[test]
fn same_text_compares_characters() {
    assert!(same_text("", ""));
    assert!(same_text("hope", "hope"));
    assert!(same_text("远见", "远见"));
    assert!(!same_text("hope", "hop"));
    assert!(!same_text("hop", "hope"));
    assert!(!same_text("hope", "hopE"));
    assert!(!same_text("idea", "ideas"));
    assert!(!same_text("", " "));
}

#[test]
fn trim_removes_white_space_at_both_ends() {
    assert_eq!(trim(""), "");
    assert_eq!(trim("   "), "");
    assert_eq!(trim("\t\n"), "");
    assert_eq!(trim("a"), "a");
    assert_eq!(trim(" a"), "a");
    assert_eq!(trim("a "), "a");
    assert_eq!(trim("  hot water \t"), "hot water");
    assert_eq!(trim("\u{3000}板 子\u{a0}"), "板 子");
    assert_eq!(trim("a\u{200b}"), "a\u{200b}");
}

#[test]
fn trim_agrees_with_std() {
    let samples = [
        "",
        " ",
        "x",
        " x",
        "x ",
        " x y ",
        "\r\n x\t",
        "\u{2028}é\u{2029}",
        "  远见A ",
        "\u{85}\u{1680}k\u{205f}\u{202f}",
    ];
    for s in samples {
        assert_eq!(trim(s), s.trim(), "{:?}", s);
    }
}

#[test]
fn split_divides_at_each_separator() {
    assert_eq!(split("", ','), vec![""]);
    assert_eq!(split(",", ','), vec!["", ""]);
    assert_eq!(split("a", ','), vec!["a"]);
    assert_eq!(split("a,b", ','), vec!["a", "b"]);
    assert_eq!(split("a,,b", ','), vec!["a", "", "b"]);
    assert_eq!(split(",a,", ','), vec!["", "a", ""]);
    assert_eq!(split("hot_water, hope ,idea", ','), vec!["hot_water", " hope ", "idea"]);
    assert_eq!(split("板,子", ','), vec!["板", "子"]);
    assert_eq!(split("a,b", ';'), vec!["a,b"]);
    assert_eq!(split("a子b子", '子'), vec!["a", "b", ""]);
}

#[test]
fn split_agrees_with_std() {
    for s in ["", ",", ",,", "a", "a,b,c", " a , b ", "x,,y,", ",远见A,远见B"] {
        let expected: Vec<&str> = s.split(',').collect();
        assert_eq!(split(s, ','), expected, "{:?}", s);
    }
}
