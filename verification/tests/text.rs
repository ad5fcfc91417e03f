use mushroom_password_manager::text::{
    chars_of, finds, joined, same_text, stands_at, string_of, strip, take_until,
};

fn chars(s: &str) -> Vec<char> {
    s.chars().collect()
}

#[test]
fn a_text_and_its_characters() {
    assert_eq!(chars_of("aé€😀"), vec!['a', 'é', '€', '😀']);
    assert_eq!(chars_of(""), Vec::<char>::new());
    assert_eq!(string_of(&vec!['a', 'é', '€', '😀']), "aé€😀");
    assert_eq!(string_of(&Vec::new()), "");
    assert_eq!(string_of(&chars_of("aller-retour")), "aller-retour");
}

#[test]
fn texts_are_the_same_by_their_characters() {
    assert!(same_text("", ""));
    assert!(same_text("abc", "abc"));
    assert!(!same_text("abc", "abd"));
    assert!(!same_text("abc", "ab"));
    assert!(!same_text("abc", "ABC"));
    assert!(!same_text("", " "));
}

#[test]
fn joining_puts_one_text_behind_the_other() {
    assert_eq!(joined("ab", "cd"), "abcd");
    assert_eq!(joined("", "cd"), "cd");
    assert_eq!(joined("ab", ""), "ab");
    assert_eq!(joined("", ""), "");
}

#[test]
fn a_pattern_stands_at_a_position() {
    let s = chars("abcabc");
    assert!(stands_at(&s, &chars("abc"), 0));
    assert!(stands_at(&s, &chars("abc"), 3));
    assert!(!stands_at(&s, &chars("abc"), 1));
    assert!(!stands_at(&s, &chars("abc"), 4));
    assert!(stands_at(&s, &chars("c"), 5));
    assert!(!stands_at(&s, &chars("c"), 6));
    assert!(stands_at(&s, &chars(""), 0));
    assert!(stands_at(&s, &chars(""), 6));
    assert!(!stands_at(&s, &chars(""), 7));
    assert!(!stands_at(&s, &chars("abc"), usize::MAX));
    assert!(stands_at(&s, &s, 0));
    assert!(!stands_at(&s, &chars("abcabcd"), 0));
}

#[test]
fn a_pattern_is_found_wherever_it_stands() {
    assert!(finds(&chars("hello world"), &chars("hello")));
    assert!(finds(&chars("hello world"), &chars("o w")));
    assert!(finds(&chars("hello world"), &chars("world")));
    assert!(finds(&chars("hello world"), &chars("")));
    assert!(finds(&chars(""), &chars("")));
    assert!(finds(&chars("aab"), &chars("ab")));
    assert!(!finds(&chars("hello world"), &chars("worlds")));
    assert!(!finds(&chars("hello"), &chars("hello world")));
    assert!(!finds(&chars(""), &chars("a")));
    assert!(!finds(&chars("abab"), &chars("bb")));
}

#[test]
fn stripping_takes_every_occurrence_out() {
    assert_eq!(strip(&chars("a--b--c"), &chars("--")), chars("abc"));
    assert_eq!(strip(&chars("--a--"), &chars("--")), chars("a"));
    assert_eq!(strip(&chars("----"), &chars("--")), chars(""));
    assert_eq!(strip(&chars("abc"), &chars("--")), chars("abc"));
    assert_eq!(strip(&chars(""), &chars("--")), chars(""));
    assert_eq!(strip(&chars("abc"), &chars("abc")), chars(""));
    assert_eq!(strip(&chars("ab"), &chars("abc")), chars("ab"));
}

#[test]
fn stripping_goes_from_the_left_without_overlap_and_once() {
    assert_eq!(strip(&chars("aaa"), &chars("aa")), chars("a"));
    assert_eq!(strip(&chars("ababa"), &chars("aba")), chars("ba"));
    assert_eq!(strip(&chars("aabb"), &chars("ab")), chars("ab"));
}

#[test]
fn stripping_the_empty_pattern_changes_nothing() {
    assert_eq!(strip(&chars("abc"), &chars("")), chars("abc"));
    assert_eq!(strip(&chars(""), &chars("")), chars(""));
}

#[test]
fn stripping_agrees_with_replacing_by_nothing() {
    let texts = ["", "a", "aaaa", "abcabc", "xxabxxab", "https://www.www.a.b", "hthttp://tp://", "wwwww."];
    let patterns = ["a", "aa", "ab", "abc", "www.", "http://", "https://", "x", "."];
    for text in texts {
        for pattern in patterns {
            let expected = text.replace(pattern, "");
            assert_eq!(string_of(&strip(&chars(text), &chars(pattern))), expected);
        }
    }
}

#[test]
fn taking_until_a_stop() {
    let s = chars("ab/cd/ef");
    assert_eq!(take_until(&s, 0, '/'), chars("ab"));
    assert_eq!(take_until(&s, 1, '/'), chars("b"));
    assert_eq!(take_until(&s, 2, '/'), chars(""));
    assert_eq!(take_until(&s, 3, '/'), chars("cd"));
    assert_eq!(take_until(&s, 6, '/'), chars("ef"));
    assert_eq!(take_until(&s, 8, '/'), chars(""));
    assert_eq!(take_until(&s, 0, '.'), chars("ab/cd/ef"));
}

#[test]
fn taking_from_beyond_the_end_gives_nothing() {
    let s = chars("ab");
    assert_eq!(take_until(&s, 3, '/'), chars(""));
    assert_eq!(take_until(&s, usize::MAX, '/'), chars(""));
    assert_eq!(take_until(&Vec::new(), 0, '/'), chars(""));
}

#[test]
fn taking_until_a_stop_agrees_with_splitting() {
    for text in ["", "a", "a.b", ".a", "a.", "a..b", "...", "no stop"] {
        let expected = text.split('.').next().unwrap_or("");
        assert_eq!(string_of(&take_until(&chars(text), 0, '.')), expected);
    }
}
