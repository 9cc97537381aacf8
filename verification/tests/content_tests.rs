use gitlab_cli::commands::content::{apply_change, replace_all, rewrite};
use gitlab_cli::text::{chars_of, string_of};

fn replaced(text: &str, old: &str, new: &str) -> String {
    string_of(&replace_all(&chars_of(text), &chars_of(old), &chars_of(new)))
}

fn list(items: &[&str]) -> Vec<String> {
    items.iter().map(|t| t.to_string()).collect()
}

#[test]
fn every_occurrence_is_replaced() {
    assert_eq!(replaced("a-b-c", "-", "+"), "a+b+c");
    assert_eq!(replaced("version = 1.0\nversion = 1.0\n", "1.0", "2.0"), "version = 2.0\nversion = 2.0\n");
    assert_eq!(replaced("abc", "x", "y"), "abc");
    assert_eq!(replaced("", "x", "y"), "");
    assert_eq!(replaced("abc", "abc", ""), "");
    assert_eq!(replaced("abc", "abcd", "x"), "abc");
}

#[test]
fn occurrences_do_not_overlap_and_are_found_from_the_left() {
    assert_eq!(replaced("aaa", "aa", "b"), "ba");
    assert_eq!(replaced("aaaa", "aa", "b"), "bb");
    assert_eq!(replaced("ababa", "aba", "x"), "xba");
    assert_eq!(replaced("aa", "a", "aa"), "aaaa");
}

#[test]
fn an_empty_pattern_occurs_between_all_characters() {
    assert_eq!(replaced("abc", "", "-"), "-a-b-c-");
    assert_eq!(replaced("", "", "-"), "-");
}

#[test]
fn replacement_agrees_with_the_standard_library() {
    let texts = ["", "a", "aaa", "abcabc", "héllo wörld héllo", "x.y.z", "日本語日本"];
    let patterns = ["", "a", "aa", "abc", "é", "l", ".", "日本", "zzz"];
    let news = ["", "b", "aa", "日"];
    for text in texts {
        for old in patterns {
            for new in news {
                assert_eq!(replaced(text, old, new), text.replace(old, new), "{:?} {:?} {:?}", text, old, new);
            }
        }
    }
}

#[test]
fn a_change_has_exactly_two_parts() {
    let content = || chars_of("host: localhost");
    assert_eq!(string_of(&apply_change(content(), "localhost:example.com")), "host: example.com");
    // three parts, one part: nothing changes
    assert_eq!(string_of(&apply_change(content(), "host:name:other")), "host: localhost");
    assert_eq!(string_of(&apply_change(content(), "localhost")), "host: localhost");
    assert_eq!(string_of(&apply_change(content(), "")), "host: localhost");
    // an empty new part removes
    assert_eq!(string_of(&apply_change(content(), "local:")), "host: host");
    // an empty old part occurs everywhere
    assert_eq!(string_of(&apply_change(chars_of("ab"), ":-")), "-a-b-");
}

#[test]
fn changes_are_applied_in_order() {
    assert_eq!(rewrite("a", &list(&["a:b", "b:c"])), "c");
    assert_eq!(rewrite("a", &list(&["b:c", "a:b"])), "b");
    assert_eq!(rewrite("name = old", &list(&["bad", "old:new", "a:b:c", "name:title"])), "title = new");
    assert_eq!(rewrite("unchanged", &list(&[])), "unchanged");
}
