use gitlab_cli::models::identity::{contains_number, keep_distinct, Identified};
use gitlab_cli::models::user::User;

fn user(id: u64, username: &str) -> User {
    User {
        id,
        username: username.to_string(),
        name: username.to_string(),
        state: "active".to_string(),
        email: None,
    }
}

#[test]
fn the_first_of_each_number_is_kept_in_order() {
    let kept = keep_distinct(vec![
        user(3, "c"),
        user(1, "a"),
        user(3, "c2"),
        user(2, "b"),
        user(1, "a2"),
        user(3, "c3"),
    ]);
    assert_eq!(kept, vec![user(3, "c"), user(1, "a"), user(2, "b")]);
}

#[test]
fn a_list_without_repetitions_is_kept_as_it_is() {
    let users = vec![user(2, "b"), user(1, "a"), user(9, "z")];
    assert_eq!(keep_distinct(users.clone()), users);
    assert_eq!(keep_distinct(Vec::<User>::new()), vec![]);
}

#[test]
fn keeping_distinct_twice_is_keeping_once() {
    let once = keep_distinct(vec![user(1, "a"), user(1, "b"), user(2, "c")]);
    assert_eq!(keep_distinct(once.clone()), once);
}

#[test]
fn numbers_are_found_in_a_list() {
    let users = vec![user(2, "b"), user(1, "a")];
    assert!(contains_number(&users, 1));
    assert!(contains_number(&users, 2));
    assert!(!contains_number(&users, 3));
    assert_eq!(users[0].id(), 2);
}
