use erabu::decimal::decimal_string;
use erabu::search::contains;
use erabu::text::{blank, char_is_whitespace, chars_of, trim};
use erabu::words::split_whitespace;

const SAMPLES: [&str; 16] = [
    "",
    " ",
    "   ",
    "a",
    " a",
    "a ",
    "  Learn Rust  ",
    "code  diy",
    "\t tab\tseparated\nlines\r\n",
    "\u{a0}no-break\u{a0}space\u{a0}",
    "\u{2003}em\u{2003}space\u{3000}ideographic\u{3000}",
    "\u{85}next line\u{1680}ogham\u{2028}line\u{2029}paragraph\u{202f}narrow\u{205f}math",
    "zero\u{200b}width is no whitespace\u{200b}",
    "\u{180e}mongolian vowel separator is no whitespace",
    "日本語 の テキスト",
    "trailing   ",
];

#[test]
fn whitespace_is_what_std_calls_whitespace() {
    let mut c: u32 = 0;
    while c <= 0x10FFFF {
        if let Some(ch) = char::from_u32(c) {
            assert_eq!(char_is_whitespace(ch), ch.is_whitespace(), "U+{:04X}", c);
        }
        c += 1;
    }
}

#[test]
fn whitespace_examples() {
    assert!(char_is_whitespace(' '));
    assert!(char_is_whitespace('\t'));
    assert!(char_is_whitespace('\n'));
    assert!(char_is_whitespace('\u{b}'));
    assert!(char_is_whitespace('\u{c}'));
    assert!(char_is_whitespace('\r'));
    assert!(char_is_whitespace('\u{200a}'));
    assert!(!char_is_whitespace('\u{8}'));
    assert!(!char_is_whitespace('\u{e}'));
    assert!(!char_is_whitespace('\u{200b}'));
    assert!(!char_is_whitespace('a'));
    assert!(!char_is_whitespace('0'));
}

#[test]
fn chars_of_gives_the_characters_in_order() {
    assert_eq!(chars_of(""), Vec::<char>::new());
    assert_eq!(chars_of("añ日"), vec!['a', 'ñ', '日']);
}

#[test]
fn trim_drops_whitespace_at_both_ends_only() {
    assert_eq!(trim("  Learn Rust  "), "Learn Rust");
    assert_eq!(trim("Learn Rust"), "Learn Rust");
    assert_eq!(trim("\t\n x y \r\n"), "x y");
    assert_eq!(trim("   "), "");
    assert_eq!(trim(""), "");
    assert_eq!(trim("\u{3000}日本 語\u{a0}"), "日本 語");
}

#[test]
fn trim_agrees_with_std() {
    for s in SAMPLES {
        assert_eq!(trim(s), s.trim(), "{:?}", s);
    }
}

#[test]
fn trim_twice_is_trim_once() {
    for s in SAMPLES {
        assert_eq!(trim(trim(s)), trim(s), "{:?}", s);
    }
}

#[test]
fn blank_holds_of_whitespace_only() {
    assert!(blank(""));
    assert!(blank("   "));
    assert!(blank(" \t\r\n\u{a0}\u{3000}"));
    assert!(!blank(" a "));
    assert!(!blank("\u{200b}"));
    for s in SAMPLES {
        assert_eq!(blank(s), s.trim().is_empty(), "{:?}", s);
        assert_eq!(blank(s), trim(s).is_empty(), "{:?}", s);
    }
}

#[test]
fn split_whitespace_gives_the_words() {
    assert_eq!(split_whitespace("code  diy"), vec!["code", "diy"]);
    assert_eq!(split_whitespace("  diy\toutdoor\n"), vec!["diy", "outdoor"]);
    assert_eq!(split_whitespace("leisure"), vec!["leisure"]);
    assert_eq!(split_whitespace(""), Vec::<String>::new());
    assert_eq!(split_whitespace(" \t "), Vec::<String>::new());
    assert_eq!(split_whitespace("日本語\u{3000}の テキスト"), vec!["日本語", "の", "テキスト"]);
}

#[test]
fn split_whitespace_agrees_with_std() {
    for s in SAMPLES {
        let ours = split_whitespace(s);
        let theirs: Vec<String> = s.split_whitespace().map(|w| w.to_owned()).collect();
        assert_eq!(ours, theirs, "{:?}", s);
    }
}

#[test]
fn words_are_not_empty_and_hold_no_whitespace() {
    for s in SAMPLES {
        for w in split_whitespace(s) {
            assert!(!w.is_empty());
            assert!(w.chars().all(|c| !c.is_whitespace()));
        }
    }
}

#[test]
fn words_keep_all_but_whitespace() {
    for s in SAMPLES {
        let joined: String = split_whitespace(s).concat();
        let kept: String = s.chars().filter(|c| !c.is_whitespace()).collect();
        assert_eq!(joined, kept, "{:?}", s);
    }
}

#[test]
fn text_without_whitespace_is_one_word() {
    assert_eq!(split_whitespace("leisure"), vec!["leisure"]);
    assert_eq!(split_whitespace("日本語"), vec!["日本語"]);
    assert_eq!(split_whitespace("a\u{200b}b"), vec!["a\u{200b}b"]);
}

#[test]
fn contains_finds_contiguous_parts() {
    assert!(contains("Build shed", "shed"));
    assert!(contains("Build shed", "Build"));
    assert!(contains("Build shed", "d s"));
    assert!(contains("Build shed", "Build shed"));
    assert!(contains("Build shed", ""));
    assert!(contains("", ""));
    assert!(!contains("", "a"));
    assert!(!contains("Build shed", "build"));
    assert!(!contains("Build shed", "Bs"));
    assert!(!contains("Build shed", "Build shed "));
    assert!(!contains("abc", "abcd"));
    assert!(contains("aaab", "aab"));
    assert!(contains("日本語", "本語"));
    assert!(!contains("日本語", "語本"));
}

#[test]
fn contains_agrees_with_std() {
    for hay in SAMPLES {
        for needle in SAMPLES {
            assert_eq!(contains(hay, needle), hay.contains(needle), "{:?} in {:?}", needle, hay);
        }
        for needle in ["a", "e ", " ", "space", "語", "\u{3000}", "xyz"] {
            assert_eq!(contains(hay, needle), hay.contains(needle), "{:?} in {:?}", needle, hay);
        }
    }
}

#[test]
fn decimal_string_writes_numbers() {
    assert_eq!(decimal_string(0), "0");
    assert_eq!(decimal_string(7), "7");
    assert_eq!(decimal_string(10), "10");
    assert_eq!(decimal_string(98), "98");
    assert_eq!(decimal_string(1203), "1203");
    assert_eq!(decimal_string(usize::MAX), format!("{}", usize::MAX));
    for n in 0..1000usize {
        assert_eq!(decimal_string(n), format!("{}", n));
    }
}
