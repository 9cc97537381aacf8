use gitlab_cli::commands::tags::{add_topics, clean_topics, has_topic, parse_topics, remove_topics};

fn list(items: &[&str]) -> Vec<String> {
    items.iter().map(|t| t.to_string()).collect()
}

#[test]
fn adding_puts_new_topics_behind_the_old_ones() {
    assert_eq!(
        add_topics(&list(&["test", "example"]), &list(&["backend"])),
        list(&["test", "example", "backend"])
    );
    assert_eq!(add_topics(&list(&[]), &list(&["b", "a"])), list(&["b", "a"]));
    assert_eq!(add_topics(&list(&["a"]), &list(&[])), list(&["a"]));
}

#[test]
fn adding_a_topic_that_is_there_changes_nothing() {
    assert_eq!(
        add_topics(&list(&["test", "example"]), &list(&["example"])),
        list(&["test", "example"])
    );
    assert_eq!(
        add_topics(&list(&["x"]), &list(&["y", "x", "y", "z"])),
        list(&["x", "y", "z"])
    );
}

#[test]
fn adding_twice_is_adding_once() {
    let current = list(&["a", "x"]);
    let new = list(&["x", "y"]);
    let once = add_topics(&current, &new);
    let twice = add_topics(&once, &new);
    assert_eq!(once, list(&["a", "x", "y"]));
    assert_eq!(twice, once);
}

#[test]
fn topics_are_compared_exactly() {
    assert_eq!(
        add_topics(&list(&["Backend"]), &list(&["backend", "backend "])),
        list(&["Backend", "backend", "backend "])
    );
    assert_eq!(remove_topics(&list(&["Backend", "backend"]), &list(&["backend"])), list(&["Backend"]));
}

#[test]
fn adding_leaves_no_topic_twice_and_none_empty() {
    assert_eq!(add_topics(&list(&["a", "a"]), &list(&["b"])), list(&["a", "b"]));
    assert_eq!(add_topics(&list(&["a", "", "b", "a", ""]), &list(&["c"])), list(&["a", "b", "c"]));
    assert_eq!(add_topics(&list(&["a"]), &list(&["b", "", "b", "a"])), list(&["a", "b"]));
    assert_eq!(add_topics(&list(&["x", "y", "x", "y"]), &list(&[])), list(&["x", "y"]));
    assert_eq!(add_topics(&list(&["", ""]), &list(&[""])), list(&[]));
}

#[test]
fn removing_leaves_no_topic_twice_and_none_empty() {
    assert_eq!(remove_topics(&list(&["a", "a"]), &list(&["b"])), list(&["a"]));
    assert_eq!(remove_topics(&list(&["a", "", "b", "a", "c"]), &list(&["b"])), list(&["a", "c"]));
    assert_eq!(remove_topics(&list(&["a", "b", "a"]), &list(&["a"])), list(&["b"]));
    assert_eq!(remove_topics(&list(&["", ""]), &list(&[])), list(&[]));
}

#[test]
fn removing_keeps_the_rest_in_order() {
    assert_eq!(
        remove_topics(&list(&["test", "example"]), &list(&["test"])),
        list(&["example"])
    );
    assert_eq!(
        remove_topics(&list(&["a", "b", "c", "b", "d"]), &list(&["b", "d"])),
        list(&["a", "c"])
    );
    assert_eq!(
        remove_topics(&list(&["d", "c", "b", "a"]), &list(&["c"])),
        list(&["d", "b", "a"])
    );
    assert_eq!(remove_topics(&list(&["a"]), &list(&["a"])), list(&[]));
}

#[test]
fn removing_a_topic_that_is_not_there_changes_nothing() {
    assert_eq!(
        remove_topics(&list(&["test", "example"]), &list(&["backend"])),
        list(&["test", "example"])
    );
    assert_eq!(remove_topics(&list(&[]), &list(&["backend"])), list(&[]));
    assert_eq!(remove_topics(&list(&["a", "b"]), &list(&[])), list(&["a", "b"]));
}

#[test]
fn asked_topics_are_trimmed_and_empty_ones_dropped() {
    assert_eq!(
        clean_topics(&list(&[" backend", "team:core ", "", "   ", "a b"])),
        list(&["backend", "team:core", "a b"])
    );
    assert_eq!(clean_topics(&list(&["", " "])), list(&[]));
    assert_eq!(clean_topics(&list(&[])), list(&[]));
}

#[test]
fn a_cell_of_topics_is_split_at_commas() {
    assert_eq!(parse_topics("backend,service"), list(&["backend", "service"]));
    assert_eq!(parse_topics("frontend"), list(&["frontend"]));
    assert_eq!(parse_topics(" a , b ,, c,"), list(&["a", "b", "c"]));
    assert_eq!(parse_topics(""), list(&[]));
}

#[test]
fn membership_of_a_topic() {
    assert!(has_topic(&list(&["a", "b"]), &"b".to_string()));
    assert!(!has_topic(&list(&["a", "b"]), &"B".to_string()));
    assert!(!has_topic(&list(&[]), &"".to_string()));
}
