use namahage::text::begins_with;
use namahage::text::copy_strings;
use namahage::text::has_char;
use namahage::text::has_substring;
use namahage::text::has_text;
use namahage::text::join_strings;
use namahage::text::parse_i64;
use namahage::text::parse_usize;
use namahage::text::split_fields;
use namahage::text::to_chars;
use namahage::text::trimmed;
use namahage::text::without_first;

fn strings(items: &[&str]) -> Vec<String> {
    items.iter().map(|s| s.to_string()).collect()
}

#[test]
fn to_chars_gives_the_characters_not_the_bytes() {
    assert_eq!(to_chars(""), Vec::<char>::new());
    assert_eq!(to_chars("aß塩"), vec!['a', 'ß', '塩']);
}

#[test]
fn has_substring_agrees_with_std() {
    for (hay, needle) in [
        ("ACGT", "CG"),
        ("ACGT", "GC"),
        ("ACGT", ""),
        ("", ""),
        ("", "A"),
        ("ACGT", "ACGT"),
        ("ACGT", "ACGTA"),
        ("AAAB", "AAB"),
        ("A.C", "."),
        ("塩基配列", "基配"),
    ] {
        assert_eq!(has_substring(hay, needle), hay.contains(needle), "{:?} {:?}", hay, needle);
    }
    assert!(has_char("A,C", ','));
    assert!(!has_char("AC", ','));
    assert!(!has_char("", ','));
}

#[test]
fn split_fields_agrees_with_std() {
    for text in ["", "a", "\t", "a\tb", "a\t\tb", "\ta", "a\t", "1\t5\t.\tA\tC\t.\t.\t.", "塩\t基"] {
        let expected: Vec<String> = text.split('\t').map(|s| s.to_owned()).collect();
        assert_eq!(split_fields(text, '\t'), expected, "{:?}", text);
    }
    assert_eq!(split_fields("a,b", '\t'), strings(&["a,b"]));
    assert_eq!(split_fields("a,b", ','), strings(&["a", "b"]));
    assert_eq!(split_fields("", '\t'), strings(&[""]));
}

#[test]
fn join_strings_agrees_with_std() {
    for items in [vec![], vec!["A"], vec!["A", "C"], vec!["", "", ""], vec!["VCFv4.2", "VCFv4.3"]] {
        let items = strings(&items);
        assert_eq!(join_strings(&items, ", "), items.join(", "));
        assert_eq!(join_strings(&items, ""), items.join(""));
    }
    assert_eq!(join_strings(&strings(&["A", "C", "G"]), ", "), "A, C, G");
}

#[test]
fn trimmed_agrees_with_std() {
    for text in [
        "",
        "a",
        "a\n",
        "a\r\n",
        "  a  ",
        " \t\n",
        "a\u{0b}\u{0c}",
        "a\u{85}",
        "a\u{a0}",
        "a\u{1680}\u{2000}\u{200a}\u{2028}\u{2029}\u{202f}\u{205f}\u{3000}",
        "a\u{200b}",
        "a\u{180e}",
        "a\u{feff}",
        "a b\n",
    ] {
        assert_eq!(trimmed(text), text.trim_end(), "{:?}", text);
    }
    assert_eq!(trimmed("x\ty \r\n"), "x\ty");
}

#[test]
fn white_space_is_what_std_takes_for_it() {
    for code in 0..=0x3100u32 {
        if let Some(c) = char::from_u32(code) {
            let text = format!("a{}", c);
            assert_eq!(trimmed(&text) == "a", c.is_whitespace(), "U+{:04X}", code);
        }
    }
}

#[test]
fn parse_usize_agrees_with_std() {
    for text in [
        "",
        "0",
        "7",
        "10001",
        "+7",
        "-7",
        "-0",
        "+",
        "-",
        "++7",
        "+-7",
        "007",
        " 7",
        "7 ",
        "7a",
        "0x10",
        "1_000",
        "4294967295",
        "4294967296",
        "18446744073709551615",
        "18446744073709551616",
        "99999999999999999999999999",
        "٣",
        "１",
    ] {
        assert_eq!(parse_usize(text), text.parse::<usize>().ok(), "{:?}", text);
    }
    assert_eq!(parse_usize("10108"), Some(10108));
}

#[test]
fn parse_i64_agrees_with_std() {
    for text in [
        "",
        "0",
        "-0",
        "+0",
        "7",
        "-7",
        "+7",
        "-",
        "+",
        "--7",
        "-+7",
        "007",
        "-007",
        "7-",
        "9223372036854775807",
        "9223372036854775808",
        "-9223372036854775808",
        "-9223372036854775809",
        "+9223372036854775807",
        "99999999999999999999999999",
        "-99999999999999999999999999",
        "1.5",
    ] {
        assert_eq!(parse_i64(text), text.parse::<i64>().ok(), "{:?}", text);
    }
    assert_eq!(parse_i64("-10026"), Some(-10026));
    assert_eq!(parse_i64("-9223372036854775808"), Some(i64::MIN));
}

#[test]
fn begins_with_compares_the_first_strings() {
    let expected = strings(&["CHROM", "POS"]);
    assert!(begins_with(&strings(&["CHROM", "POS"]), &expected));
    assert!(begins_with(&strings(&["CHROM", "POS", "ID"]), &expected));
    assert!(!begins_with(&strings(&["CHROM"]), &expected));
    assert!(!begins_with(&strings(&["POS", "CHROM"]), &expected));
    assert!(begins_with(&strings(&[]), &strings(&[])));
}

#[test]
fn has_text_without_first_and_copy_strings() {
    let items = strings(&["A", "C"]);
    assert!(has_text(&items, &"C".to_owned()));
    assert!(!has_text(&items, &"G".to_owned()));
    assert!(!has_text(&Vec::new(), &"G".to_owned()));

    assert_eq!(without_first("#CHROM"), "CHROM");
    assert_eq!(without_first("#"), "");
    assert_eq!(without_first(""), "");
    assert_eq!(without_first("塩基"), "基");

    assert_eq!(copy_strings(&items), items);
    assert_eq!(copy_strings(&Vec::new()), Vec::<String>::new());
}

#[test]
fn decimal_string_agrees_with_std() {
    for n in [0usize, 1, 9, 10, 11, 99, 100, 101, 10001, 4294967295, usize::MAX] {
        assert_eq!(namahage::text::decimal_string(n), n.to_string());
        assert_eq!(parse_usize(&namahage::text::decimal_string(n)), Some(n));
    }
}
