use desktop_lib::text::{
    chars_of, contains_seq, find_char, find_seq, join, lines, parse_u32, same_chars, split,
    splitn, starts_with, str_contains_char, str_is_blank, string_of, strip_prefix, trim,
    trim_class, trim_end, trim_start, trim_start_seq, words, CharClass,
};

fn owned(parts: Vec<&[char]>) -> Vec<String> {
    parts.into_iter().map(string_of).collect()
}

const SAMPLES: [&str; 16] = [
    "",
    "\n",
    "\r\n",
    "a",
    "a\n",
    "a\r",
    "a\r\n",
    "a\n\nb",
    "a\r\r\nb\r\n\r\nc",
    "  lead and trail  ",
    "\t\u{a0}mixed\u{2003}white\u{3000}space\u{85}",
    "one two  three\tfour\nfive",
    "\n\n\n",
    "x\ny\r\nz\n",
    "no newline at end\r",
    "ünï çødé\n— dash\n",
];

#[test]
fn whitespace_is_what_the_standard_library_says() {
    let mut c = 0u32;
    while c <= 0x10FFFF {
        if let Some(ch) = char::from_u32(c) {
            assert_eq!(CharClass::Whitespace.contains(ch), ch.is_whitespace(), "U+{:04X}", c);
            assert_eq!(CharClass::NonWhitespace.contains(ch), !ch.is_whitespace());
        }
        c += 1;
    }
    assert!(CharClass::Only('x').contains('x'));
    assert!(!CharClass::Only('x').contains('y'));
    assert!(CharClass::Either('(', ')').contains(')'));
    assert!(!CharClass::Either('(', ')').contains('['));
}

#[test]
fn lines_agree_with_the_standard_library() {
    for text in SAMPLES {
        let expected: Vec<String> = text.lines().map(str::to_string).collect();
        assert_eq!(owned(lines(&chars_of(text))), expected, "{:?}", text);
    }
}

#[test]
fn words_agree_with_the_standard_library() {
    for text in SAMPLES {
        let expected: Vec<String> = text.split_whitespace().map(str::to_string).collect();
        assert_eq!(owned(words(&chars_of(text))), expected, "{:?}", text);
    }
}

#[test]
fn trimming_agrees_with_the_standard_library() {
    for text in SAMPLES {
        let chars = chars_of(text);
        assert_eq!(string_of(trim(&chars)), text.trim(), "{:?}", text);
        assert_eq!(string_of(trim_start(&chars, CharClass::Whitespace)), text.trim_start());
        assert_eq!(string_of(trim_end(&chars, CharClass::Whitespace)), text.trim_end());
        assert_eq!(str_is_blank(text), text.trim().is_empty());
    }
    for text in ["[ahead 1]", "[[x]]", "]][[", "", "(fetch)", "((a)(b))", "***name*"] {
        let chars = chars_of(text);
        assert_eq!(
            string_of(trim_class(&chars, CharClass::Either('[', ']'))),
            text.trim_matches(|c| c == '[' || c == ']'),
            "{:?}",
            text
        );
        assert_eq!(
            string_of(trim_class(&chars, CharClass::Either('(', ')'))),
            text.trim_matches(|c| c == '(' || c == ')')
        );
        assert_eq!(
            string_of(trim_start(&chars, CharClass::Only('*'))),
            text.trim_start_matches('*')
        );
    }
}

#[test]
fn splitting_agrees_with_the_standard_library() {
    for text in ["", "a", ",", "a,", ",a", "a,b,,c", ",,,", "a|b|c|d|e|f|g", "x y  z"] {
        let chars = chars_of(text);
        for sep in [',', '|', ' '] {
            let expected: Vec<String> = text.split(sep).map(str::to_string).collect();
            assert_eq!(owned(split(&chars, sep)), expected, "{:?} at {:?}", text, sep);
            for n in 0..7usize {
                let expected: Vec<String> = text.splitn(n, sep).map(str::to_string).collect();
                assert_eq!(owned(splitn(&chars, sep, n)), expected, "{:?} {:?} {}", text, sep, n);
            }
        }
    }
}

#[test]
fn numbers_agree_with_the_standard_library() {
    for text in [
        "", "0", "1", "42", "+7", "++7", "-7", "-0", "+", "-", "4294967295", "4294967296",
        "99999999999999999999", "00000000000000000012", " 1", "1 ", "1_000", "١٢٣", "12a", "a12",
    ] {
        assert_eq!(parse_u32(&chars_of(text)), text.parse::<u32>().ok(), "{:?}", text);
    }
}

#[test]
fn searching_agrees_with_the_standard_library() {
    let hay = "main...origin/main -> x -> y ... HEAD";
    let chars = chars_of(hay);
    for pat in ["...", " -> ", "HEAD", "(no branch)", "", "m", "main", "zzz", hay] {
        let p = chars_of(pat);
        let byte_pos = hay.find(pat).map(|b| hay[..b].chars().count());
        assert_eq!(find_seq(&chars, &p, 0), byte_pos, "{:?}", pat);
        assert_eq!(contains_seq(&chars, &p), hay.contains(pat));
        assert_eq!(starts_with(&chars, &p), hay.starts_with(pat));
        assert_eq!(strip_prefix(&chars, &p).map(string_of), hay.strip_prefix(pat).map(str::to_string));
    }
    assert_eq!(find_seq(&chars, &chars_of("..."), 5), Some(29));
    assert_eq!(find_seq(&chars, &chars_of("main"), 15), None);
    assert_eq!(find_char(&chars, '.', 0), 4);
    assert_eq!(find_char(&chars, '.', 7), 29);
    assert_eq!(find_char(&chars, '#', 0), chars.len());
    assert!(str_contains_char("a\0b", '\0'));
    assert!(!str_contains_char("ab", '\0'));
    assert!(same_chars(&chars_of("abc"), &chars_of("abc")));
    assert!(!same_chars(&chars_of("abc"), &chars_of("abd")));
    assert!(!same_chars(&chars_of("abc"), &chars_of("ab")));
}

#[test]
fn repeated_prefix_is_removed() {
    for (text, pat) in [
        ("gitdir:gitdir: x", "gitdir:"),
        (" ->  -> b", " -> "),
        ("aaa", "a"),
        ("aaa", "aa"),
        ("abc", "x"),
        ("", "x"),
        ("abc", ""),
    ] {
        let expected = if pat.is_empty() { text } else { text.trim_start_matches(pat) };
        assert_eq!(string_of(trim_start_seq(&chars_of(text), &chars_of(pat))), expected);
    }
}

#[test]
fn joining_puts_the_separator_between() {
    let a = chars_of("a");
    let b = chars_of("");
    let c = chars_of("cc");
    let sep = chars_of(", ");
    assert_eq!(string_of(&join(&vec![&a[..], &b[..], &c[..]], &sep)), "a, , cc");
    assert_eq!(string_of(&join(&vec![&a[..]], &sep)), "a");
    assert_eq!(string_of(&join(&vec![], &sep)), "");
}
