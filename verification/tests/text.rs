use world_server::error::Error;
use world_server::text::{decimal, is_whitespace, parse_u32, spells, words};

fn chars(s: &str) -> Vec<char> {
    s.chars().collect()
}

#[test]
fn decimal_agrees_with_the_standard_notation() {
    for n in [0u64, 1, 9, 10, 11, 99, 100, 12345, 1152921504606846977, u64::MAX] {
        assert_eq!(decimal(n), n.to_string());
    }
    assert_eq!(decimal(0), "0");
    assert_eq!(decimal(1152921504606846977), "1152921504606846977");
}

#[test]
fn whitespace_is_the_unicode_property() {
    let mut c = 0u32;
    while c <= 0x10FFFF {
        if let Some(ch) = char::from_u32(c) {
            assert_eq!(is_whitespace(ch), ch.is_whitespace(), "U+{:04X}", c);
        }
        c += 1;
    }
}

#[test]
fn words_agree_with_split_whitespace() {
    let samples = [
        "",
        " ",
        "/spawn 1234",
        "  /spawn   1234  ",
        "/additem\t5\n",
        "one",
        "a b c d",
        "tab\tseparated\u{3000}ideographic\u{a0}nbsp",
        "\u{2003}lead and trail\u{2003}",
        "üñí çødé wörds",
    ];
    for s in samples {
        let expected: Vec<Vec<char>> = s.split_whitespace().map(|w| w.chars().collect()).collect();
        assert_eq!(words(s), expected, "text {:?}", s);
    }
    assert_eq!(words("/spawn 1234"), vec![chars("/spawn"), chars("1234")]);
}

#[test]
fn parse_agrees_with_the_standard_parser() {
    let samples = [
        "0", "1", "007", "+5", "+", "", "-1", "1a", "a1", " 1", "1 ", "4294967295", "4294967296",
        "99999999999999999999999", "+4294967295", "++1", "1+", "٣", "12_3",
    ];
    for s in samples {
        let expected: Option<u32> = s.parse::<u32>().ok();
        assert_eq!(parse_u32(&chars(s)), expected, "word {:?}", s);
    }
    assert_eq!(parse_u32(&chars("1234")), Some(1234));
    assert_eq!(parse_u32(&chars("4294967296")), None);
}

#[test]
fn spells_compares_from_an_offset() {
    assert!(spells(&chars("/spawn"), 1, "spawn"));
    assert!(!spells(&chars("/spawn"), 0, "spawn"));
    assert!(!spells(&chars("/spawnx"), 1, "spawn"));
    assert!(!spells(&chars("/spaw"), 1, "spawn"));
    assert!(spells(&chars("/"), 1, ""));
    assert!(!spells(&chars(""), 1, ""));
    assert!(spells(&chars(""), 0, ""));
}

#[test]
fn errors_describe_themselves() {
    assert_eq!(Error::UnknownComponent(200).describe(), "component type 200 not implemented");
    assert_eq!(Error::Transport.describe(), "connection closed");
    assert_eq!(Error::Storage.describe(), "storage failure");
    assert_eq!(Error::IdSpaceExhausted.describe(), "identifier space exhausted");
}
