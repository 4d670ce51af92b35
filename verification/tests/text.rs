use gnyprland::text::{
    chars_of, equal, is_whitespace, parse_int, split_at_pair, split_on, trim,
};

#[test]
fn whitespace_is_the_unicode_property() {
    let mut code: u32 = 0;
    while code <= 0x10ffff {
        if let Some(c) = char::from_u32(code) {
            assert_eq!(is_whitespace(c), c.is_whitespace(), "U+{:04X}", code);
        }
        code += 1;
    }
}

#[test]
fn trim_removes_both_ends_only() {
    assert_eq!(trim("  workspace>>3 \n"), "workspace>>3");
    assert_eq!(trim("a b"), "a b");
    assert_eq!(trim(""), "");
    assert_eq!(trim(" \t\r\n"), "");
    assert_eq!(trim("\u{3000}x\u{a0}"), "x");
    assert_eq!(trim("é "), "é");
}

#[test]
fn trim_agrees_with_std() {
    let samples = [
        "", " ", "a", " a", "a ", "  a  b  ", "\n\n", "\u{2003}k\u{2003}", "x\u{0}y ", "\u{85}",
        "日本語 ", " \u{1680}z",
    ];
    for s in samples {
        assert_eq!(trim(s), s.trim(), "{:?}", s);
    }
}

#[test]
fn split_keeps_empty_pieces() {
    assert_eq!(split_on("a,b,c", ','), vec!["a", "b", "c"]);
    assert_eq!(split_on("", ','), vec![""]);
    assert_eq!(split_on(",", ','), vec!["", ""]);
    assert_eq!(split_on("a,,b,", ','), vec!["a", "", "b", ""]);
    assert_eq!(split_on("no comma", ','), vec!["no comma"]);
}

#[test]
fn split_agrees_with_std() {
    let samples = ["", ",", ",,", "a", "a,b", ",a", "a,", "ü,ö,ä", "x,y,,z,,"];
    for s in samples {
        let expected: Vec<&str> = s.split(',').collect();
        assert_eq!(split_on(s, ','), expected, "{:?}", s);
    }
}

#[test]
fn split_at_pair_cuts_at_the_first_pair() {
    assert_eq!(split_at_pair("workspace>>3", '>', '>'), Some(("workspace", "3")));
    assert_eq!(split_at_pair("a>>b>>c", '>', '>'), Some(("a", "b>>c")));
    assert_eq!(split_at_pair(">>", '>', '>'), Some(("", "")));
    assert_eq!(split_at_pair("a>b", '>', '>'), None);
    assert_eq!(split_at_pair("", '>', '>'), None);
    assert_eq!(split_at_pair(">", '>', '>'), None);
    assert_eq!(split_at_pair("a>>>b", '>', '>'), Some(("a", ">b")));
}

#[test]
fn equal_compares_characters() {
    assert!(equal("", ""));
    assert!(equal("inspector", "inspector"));
    assert!(!equal("inspector", "Inspector"));
    assert!(!equal("inspector", "inspector "));
    assert!(!equal("a", ""));
}

#[test]
fn chars_of_lists_the_characters() {
    assert_eq!(chars_of("aé\u{0}"), vec!['a', 'é', '\u{0}']);
    assert_eq!(chars_of(""), Vec::<char>::new());
}

#[test]
fn parse_int_reads_signed_decimals() {
    assert_eq!(parse_int("0"), Some(0));
    assert_eq!(parse_int("7"), Some(7));
    assert_eq!(parse_int("+7"), Some(7));
    assert_eq!(parse_int("-7"), Some(-7));
    assert_eq!(parse_int("007"), Some(7));
    assert_eq!(parse_int("2147483647"), Some(2147483647));
    assert_eq!(parse_int("2147483648"), None);
    assert_eq!(parse_int("-2147483648"), Some(-2147483648));
    assert_eq!(parse_int("-2147483649"), None);
    assert_eq!(parse_int("99999999999999999999999"), None);
    assert_eq!(parse_int(""), None);
    assert_eq!(parse_int("+"), None);
    assert_eq!(parse_int("-"), None);
    assert_eq!(parse_int(" 1"), None);
    assert_eq!(parse_int("1 "), None);
    assert_eq!(parse_int("1a"), None);
    assert_eq!(parse_int("special:magic"), None);
}

#[test]
fn parse_int_agrees_with_std() {
    let samples = [
        "", "0", "-0", "+0", "1", "10", "16", "17", "0000000000000000000001", "2147483647",
        "2147483648", "-2147483648", "-2147483649", "+-1", "--1", "1-", "٣", "1_000", "0x10",
        "4294967296", "-00002147483648",
    ];
    for s in samples {
        assert_eq!(parse_int(s), s.parse::<i32>().ok(), "{:?}", s);
    }
}
