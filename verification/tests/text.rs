use arborist::recovery::is_affirmative;
use arborist::text::{
    from_chars, is_whitespace, push_decimal, sanitize_seed_phrase, str_eq, to_ascii_lowercase,
    to_chars, trim,
};

fn reference_sanitize(phrase: &str) -> String {
    phrase.split_whitespace().collect::<Vec<&str>>().join(" ")
}

const SAMPLES: [&str; 12] = [
    "",
    " ",
    "word",
    "  leading",
    "trailing  ",
    "two  words",
    "\ttabs\tand\nnewlines\r\n",
    " a  b   c    d ",
    "Mixed CASE stays",
    "\u{3000}ideographic\u{3000}space\u{2003}em\u{a0}nbsp",
    "日本語 の  フレーズ",
    "   ",
];

#[test]
fn sanitize_collapses_whitespace() {
    assert_eq!(
        sanitize_seed_phrase("  abandon   ability\tabout \n"),
        "abandon ability about"
    );
    assert_eq!(sanitize_seed_phrase(""), "");
    assert_eq!(sanitize_seed_phrase(" \t "), "");
    assert_eq!(sanitize_seed_phrase("single"), "single");
}

#[test]
fn sanitize_keeps_order_and_case() {
    assert_eq!(sanitize_seed_phrase("Zeta  alpha BETA"), "Zeta alpha BETA");
}

#[test]
fn sanitize_agrees_with_split_and_join() {
    for sample in SAMPLES {
        assert_eq!(sanitize_seed_phrase(sample), reference_sanitize(sample), "{:?}", sample);
    }
}

#[test]
fn sanitize_is_idempotent() {
    for sample in SAMPLES {
        let once = sanitize_seed_phrase(sample);
        assert_eq!(sanitize_seed_phrase(&once), once);
    }
}

#[test]
fn whitespace_agrees_with_char_is_whitespace() {
    for code in 0..=0x10FFFFu32 {
        if let Some(c) = char::from_u32(code) {
            assert_eq!(is_whitespace(c), c.is_whitespace(), "U+{:04X}", code);
        }
    }
}

#[test]
fn trim_agrees_with_str_trim() {
    for sample in SAMPLES {
        assert_eq!(trim(sample), sample.trim(), "{:?}", sample);
    }
    assert_eq!(trim("  inner  space  "), "inner  space");
}

#[test]
fn ascii_lowercase_agrees_with_std() {
    for sample in ["", "FILE", "Prompt", "uSb", "stdin", "ÀÉ Z[a`", "ß123"] {
        assert_eq!(to_ascii_lowercase(sample), sample.to_ascii_lowercase());
    }
}

#[test]
fn chars_round_trip() {
    for sample in SAMPLES {
        let chars = to_chars(sample);
        assert_eq!(chars, sample.chars().collect::<Vec<char>>());
        assert_eq!(from_chars(&chars, 0, chars.len()), sample);
    }
    let chars = to_chars("abcdef");
    assert_eq!(from_chars(&chars, 2, 4), "cd");
}

#[test]
fn str_eq_compares_characters() {
    assert!(str_eq("abc", "abc"));
    assert!(!str_eq("abc", "abd"));
    assert!(!str_eq("abc", "ab"));
    assert!(str_eq("", ""));
}

#[test]
fn decimal_numerals() {
    for n in [0u64, 7, 10, 42, 100, 2048, 65535, u64::MAX] {
        let mut out = String::from("n=");
        push_decimal(&mut out, n);
        assert_eq!(out, format!("n={}", n));
    }
}

#[test]
fn affirmative_answers() {
    for answer in ["y", "Y", " y\n", "\tY \r\n"] {
        assert!(is_affirmative(answer), "{:?}", answer);
    }
    for answer in ["", "n", "yes", "y y", "N", "ý", "\n"] {
        assert!(!is_affirmative(answer), "{:?}", answer);
    }
}

#[test]
fn affirmative_agrees_with_lowercase_then_trim() {
    for answer in ["y", "Y", " y ", "yes", "", "İ", "Ｙ", "y\u{3000}", "\u{85}Y"] {
        assert_eq!(is_affirmative(answer), answer.to_lowercase().trim() == "y", "{:?}", answer);
    }
}
