use materialx_parser::ast::{ColorSpace, Version, VersionError};
use materialx_parser::literal::{check_float, parse_boolean_str, parse_unsigned_str, IntErrorKind};
use materialx_parser::text::{split_str, str_eq, trim_str};

#[test]
fn trimming_agrees_with_the_standard_library() {
    let texts = vec![
        "", " ", "a", " a", "a ", "  a b  ", "\t\n a \r\n", "\u{a0}x\u{3000}", "\u{2003}y\u{85}",
        "\u{200b}z", "\u{1680}\u{2028}\u{2029}\u{202f}\u{205f}w", "\u{b}\u{c}v", "\u{1c}u",
    ];
    for text in texts {
        assert_eq!(trim_str(text), text.trim(), "on {:?}", text);
    }
}

#[test]
fn splitting_agrees_with_the_standard_library() {
    let texts = vec!["", ",", "a", "a,b", ",a,,b,", "1, 2 ,3", ",,", "é,ü"];
    for text in texts {
        let ours = split_str(text, ',');
        let theirs: Vec<String> = text.split(',').map(|s| s.to_string()).collect();
        assert_eq!(ours, theirs, "on {:?}", text);
    }
}

#[test]
fn texts_are_compared_by_their_characters() {
    assert!(str_eq("tiledimage", "tiledimage"));
    assert!(!str_eq("tiledimage", "tiledimag"));
    assert!(!str_eq("a", "b"));
    assert!(str_eq("", ""));
}

#[test]
fn unsigned_integers_within_a_bound() {
    assert_eq!(parse_unsigned_str("255", 255), Ok(255));
    assert_eq!(parse_unsigned_str("256", 255), Err(IntErrorKind::PosOverflow));
    assert_eq!(parse_unsigned_str("0000", 255), Ok(0));
    assert_eq!(parse_unsigned_str("+12", 255), Ok(12));
    assert_eq!(parse_unsigned_str("1 ", 255), Err(IntErrorKind::InvalidDigit));
    assert_eq!(parse_unsigned_str("", 255), Err(IntErrorKind::Empty));
    for text in ["0", "7", "255", "256", "300", "+1", "-1", "1a", "", "+", "0255"] {
        assert_eq!(parse_unsigned_str(text, 255).ok(), text.parse::<u8>().ok().map(|n| n as u64));
    }
}

#[test]
fn booleans_are_lower_case() {
    assert_eq!(parse_boolean_str("true"), Some(true));
    assert_eq!(parse_boolean_str("false"), Some(false));
    assert_eq!(parse_boolean_str("TRUE"), None);
    assert_eq!(parse_boolean_str(""), None);
    assert_eq!(parse_boolean_str(" true"), None);
}

#[test]
fn float_check_accepts_literals() {
    assert_eq!(check_float("1.5e-3"), None);
    assert!(check_float("1.5e").is_some());
}

#[test]
fn versions_have_two_parts() {
    let v = Version::from_str("1.39").unwrap();
    assert_eq!((v.major, v.minor), (1, 39));
    let v = Version::from_str("0.255").unwrap();
    assert_eq!((v.major, v.minor), (0, 255));
    match Version::from_str("1") {
        Err(VersionError::InvalidLength { given }) => assert_eq!(given, "1"),
        other => panic!("unexpected result {:?}", other),
    }
    match Version::from_str("1.2.3") {
        Err(VersionError::InvalidLength { given }) => assert_eq!(given, "1.2.3"),
        other => panic!("unexpected result {:?}", other),
    }
    match Version::from_str("1.256") {
        Err(VersionError::InvalidNumber { given, source }) => {
            assert_eq!(given, "1.256");
            assert_eq!(source, IntErrorKind::PosOverflow);
        }
        other => panic!("unexpected result {:?}", other),
    }
    match Version::from_str("x.1") {
        Err(VersionError::InvalidNumber { given, source }) => {
            assert_eq!(given, "x.1");
            assert_eq!(source, IntErrorKind::InvalidDigit);
        }
        other => panic!("unexpected result {:?}", other),
    }
    match Version::from_str(".1") {
        Err(VersionError::InvalidNumber { source, .. }) => {
            assert_eq!(source, IntErrorKind::Empty);
        }
        other => panic!("unexpected result {:?}", other),
    }
}

#[test]
fn colour_spaces_by_name() {
    assert!(matches!(ColorSpace::from_name("srgb_texture"), ColorSpace::SrgbTexture));
    assert!(matches!(ColorSpace::from_name("lin_rec709"), ColorSpace::LinRec709));
    assert!(matches!(ColorSpace::from_name("acescg"), ColorSpace::AcesCG));
    assert!(matches!(ColorSpace::from_name("lin_ap1"), ColorSpace::LinAp1));
    assert!(matches!(ColorSpace::from_name("lin_displayp3"), ColorSpace::LinDisplayP3));
    match ColorSpace::from_name("rec2020") {
        ColorSpace::Unknown(name) => assert_eq!(name, "rec2020"),
        other => panic!("unexpected colour space {:?}", other),
    }
}

fn words(alphabet: &[char], longest: usize) -> Vec<String> {
    let mut all = vec![String::new()];
    let mut last = vec![String::new()];
    for _ in 0..longest {
        let mut next = Vec::new();
        for word in &last {
            for c in alphabet {
                let mut longer = word.clone();
                longer.push(*c);
                next.push(longer);
            }
        }
        all.extend(next.iter().cloned());
        last = next;
    }
    all
}

#[test]
fn every_short_text_is_a_float_literal_exactly_if_the_standard_parser_takes_it() {
    let alphabet = ['+', '-', '.', 'e', 'E', '0', '7', 'i', 'n', 'f', 'a', 'N', ' ', ','];
    for word in words(&alphabet, 4) {
        assert_eq!(check_float(&word).is_none(), word.parse::<f64>().is_ok(), "on {:?}", word);
    }
    let letters = ['i', 'n', 'f', 't', 'y', 'I', 'N', 'F', 'a', 'A'];
    for tail in words(&letters, 5) {
        let word = format!("inf{}", tail);
        assert_eq!(check_float(&word).is_none(), word.parse::<f64>().is_ok(), "on {:?}", word);
    }
}

#[test]
fn every_short_text_is_an_integer_exactly_if_the_standard_parser_takes_it() {
    let alphabet = ['+', '-', '0', '1', '9', 'a', ' '];
    let mut texts = words(&alphabet, 5);
    for extra in [
        "18446744073709551615",
        "18446744073709551616",
        "+18446744073709551615",
        "00000000000000000000000000001",
        "99999999999999999999999999999",
        "9999999999999999999999999999x",
        "1844674407370955161x",
        "18446744073709551616x",
        "x18446744073709551616",
    ] {
        texts.push(extra.to_string());
    }
    for text in texts {
        let ours = parse_unsigned_str(&text, u64::MAX);
        match text.parse::<u64>() {
            Ok(n) => assert_eq!(ours, Ok(n), "on {:?}", text),
            Err(e) => {
                let kind = match e.kind() {
                    std::num::IntErrorKind::Empty => IntErrorKind::Empty,
                    std::num::IntErrorKind::InvalidDigit => IntErrorKind::InvalidDigit,
                    std::num::IntErrorKind::PosOverflow => IntErrorKind::PosOverflow,
                    other => panic!("unexpected kind {:?}", other),
                };
                assert_eq!(ours, Err(kind), "on {:?}", text);
            }
        }
    }
}
