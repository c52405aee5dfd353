use browser_core::text::{
    append_chars, chars_contain, chars_precede, copy_chars, decimal_chars, lowered_chars,
    same_chars, sub_chars, to_chars, to_lower_char, to_text,
};

fn chars(s: &str) -> Vec<char> {
    s.chars().collect()
}

#[test]
fn to_chars_gives_the_characters_in_order() {
    assert_eq!(to_chars("héllo"), vec!['h', 'é', 'l', 'l', 'o']);
    assert_eq!(to_chars(""), Vec::<char>::new());
}

#[test]
fn to_text_is_the_inverse_of_to_chars() {
    assert_eq!(to_text(&to_chars("a/b c.txt")), "a/b c.txt");
    assert_eq!(to_text(&vec!['x', 'ß', '日']), "xß日");
    assert_eq!(to_text(&Vec::new()), "");
}

#[test]
fn lower_casing_touches_ascii_capitals_only() {
    assert_eq!(to_lower_char('A'), 'a');
    assert_eq!(to_lower_char('M'), 'm');
    assert_eq!(to_lower_char('Z'), 'z');
    assert_eq!(to_lower_char('a'), 'a');
    assert_eq!(to_lower_char('@'), '@');
    assert_eq!(to_lower_char('['), '[');
    assert_eq!(to_lower_char('É'), 'É');
    assert_eq!(to_lower_char('0'), '0');
    assert_eq!(lowered_chars("ReadMe.TXT"), chars("readme.txt"));
}

#[test]
fn lower_casing_agrees_with_std_on_ascii() {
    for code in 0u8..128 {
        let c = code as char;
        assert_eq!(to_lower_char(c), c.to_ascii_lowercase());
    }
}

#[test]
fn precedes_is_the_lexicographic_order() {
    assert!(chars_precede(&chars("a"), &chars("b")));
    assert!(!chars_precede(&chars("b"), &chars("a")));
    assert!(chars_precede(&chars("a"), &chars("ab")));
    assert!(!chars_precede(&chars("ab"), &chars("a")));
    assert!(!chars_precede(&chars("a"), &chars("a")));
    assert!(chars_precede(&chars(""), &chars("a")));
    assert!(!chars_precede(&chars(""), &chars("")));
    assert!(chars_precede(&chars("B"), &chars("a")));
    assert!(chars_precede(&chars("abc"), &chars("abd")));
    assert!(chars_precede(&chars("z"), &chars("é")));
}

#[test]
fn precedes_agrees_with_std_string_order() {
    let samples = ["", "a", "A", "ab", "abc", "abd", "b", "é", "zz", "a.b", "a b", "_", "10", "9"];
    for a in samples {
        for b in samples {
            assert_eq!(chars_precede(&chars(a), &chars(b)), a < b, "{:?} < {:?}", a, b);
        }
    }
}

#[test]
fn contains_finds_contiguous_runs() {
    assert!(chars_contain(&chars("foobar"), &chars("oba")));
    assert!(chars_contain(&chars("foobar"), &chars("foo")));
    assert!(chars_contain(&chars("foobar"), &chars("bar")));
    assert!(chars_contain(&chars("foo"), &chars("foo")));
    assert!(chars_contain(&chars("foo"), &chars("")));
    assert!(chars_contain(&chars(""), &chars("")));
    assert!(!chars_contain(&chars("foo"), &chars("fooo")));
    assert!(!chars_contain(&chars("Foo"), &chars("foo")));
    assert!(!chars_contain(&chars("fobar"), &chars("oo")));
    assert!(!chars_contain(&chars(""), &chars("a")));
}

#[test]
fn contains_agrees_with_std() {
    let hays = ["", "a", "aa", "aab", "abab", "foobar", "..", "x.y.z"];
    let needles = ["", "a", "b", "ab", "ba", "aab", "bar", ".", "..", "y.z", "z."];
    for h in hays {
        for n in needles {
            assert_eq!(chars_contain(&chars(h), &chars(n)), h.contains(n), "{:?} in {:?}", n, h);
        }
    }
}

#[test]
fn same_chars_is_equality() {
    assert!(same_chars(&chars("png"), &chars("png")));
    assert!(same_chars(&chars(""), &chars("")));
    assert!(!same_chars(&chars("png"), &chars("pn")));
    assert!(!same_chars(&chars("png"), &chars("pnG")));
}

#[test]
fn decimal_has_no_leading_zeros() {
    assert_eq!(to_text(&decimal_chars(0)), "0");
    assert_eq!(to_text(&decimal_chars(7)), "7");
    assert_eq!(to_text(&decimal_chars(10)), "10");
    assert_eq!(to_text(&decimal_chars(1024)), "1024");
    assert_eq!(to_text(&decimal_chars(300)), "300");
    assert_eq!(to_text(&decimal_chars(u64::MAX)), "18446744073709551615");
}

#[test]
fn decimal_agrees_with_std() {
    let mut n: u64 = 1;
    while n < u64::MAX / 7 {
        assert_eq!(to_text(&decimal_chars(n)), format!("{}", n));
        assert_eq!(to_text(&decimal_chars(n - 1)), format!("{}", n - 1));
        n = n * 7 + 3;
    }
}

#[test]
fn sub_chars_and_append_chars() {
    let v = chars("hello world");
    assert_eq!(sub_chars(&v, 0, 5), chars("hello"));
    assert_eq!(sub_chars(&v, 6, 11), chars("world"));
    assert_eq!(sub_chars(&v, 3, 3), chars(""));
    assert_eq!(copy_chars(&v), v);
    let mut out = chars("ab");
    append_chars(&mut out, &chars("cd"));
    append_chars(&mut out, &chars(""));
    assert_eq!(out, chars("abcd"));
}
