use gitlab_cli::gitlab::client::GitLabClient;
use gitlab_cli::gitlab::exchange::{Body, Expect, Failure, Method, Payload, Reply, Request};
use gitlab_cli::gitlab::files::FilesApi;
use gitlab_cli::gitlab::projects::ProjectsApi;
use gitlab_cli::gitlab::users::UsersApi;
use gitlab_cli::models::project::Project;
use gitlab_cli::models::user::User;

fn client() -> GitLabClient {
    GitLabClient::new("https://gitlab.example.com/api/v4", "test-token")
}

fn project(id: u64, path: &str, topics: &[&str]) -> Project {
    Project {
        id,
        path_with_namespace: path.to_string(),
        name: "Test Project".to_string(),
        description: Some("A test project".to_string()),
        default_branch: Some("main".to_string()),
        visibility: "private".to_string(),
        web_url: format!("https://example.com/{}", path),
        topics: topics.iter().map(|t| t.to_string()).collect(),
    }
}

fn user(id: u64, username: &str) -> User {
    User {
        id,
        username: username.to_string(),
        name: "Test User".to_string(),
        state: "active".to_string(),
        email: Some("test@example.com".to_string()),
    }
}

fn refused(body: &str) -> Reply {
    Reply::Refused {
        reason: "HTTP status client error (404 Not Found)".to_string(),
        body: Some(body.to_string()),
    }
}

#[test]
fn project_is_fetched_by_number() {
    assert_eq!(
        client().projects().get_by_id(456),
        Request {
            method: Method::Get,
            url: "https://gitlab.example.com/api/v4/projects/456".to_string(),
            body: Body::Empty,
            expect: Expect::Project,
        }
    );
}

#[test]
fn project_path_is_one_segment_of_the_url() {
    let request = client().projects().get_by_path("group/sub group/project-a_b.c~d");
    assert_eq!(request.method, Method::Get);
    assert_eq!(
        request.url,
        "https://gitlab.example.com/api/v4/projects/group%2Fsub%20group%2Fproject-a_b.c~d"
    );
    assert_eq!(request.expect, Expect::Project);
}

#[test]
fn bytes_outside_ascii_are_percent_encoded_in_upper_case() {
    let request = client().projects().get_by_path("grüße/é");
    assert_eq!(
        request.url,
        "https://gitlab.example.com/api/v4/projects/gr%C3%BC%C3%9Fe%2F%C3%A9"
    );
}

#[test]
fn topics_are_replaced_as_a_whole() {
    let topics = vec!["test".to_string(), "example".to_string()];
    assert_eq!(
        client().projects().update_topics(456, &topics),
        Request {
            method: Method::Put,
            url: "https://gitlab.example.com/api/v4/projects/456".to_string(),
            body: Body::Topics { topics },
            expect: Expect::Project,
        }
    );
}

#[test]
fn user_is_fetched_by_number_or_searched_by_username() {
    assert_eq!(
        client().users().get_by_id(123),
        Request {
            method: Method::Get,
            url: "https://gitlab.example.com/api/v4/users/123".to_string(),
            body: Body::Empty,
            expect: Expect::User,
        }
    );
    assert_eq!(
        client().users().get_by_username("test.user"),
        Request {
            method: Method::Get,
            url: "https://gitlab.example.com/api/v4/users?username=test.user".to_string(),
            body: Body::Empty,
            expect: Expect::Users,
        }
    );
}

#[test]
fn membership_is_removed_by_one_delete() {
    assert_eq!(
        client().users().remove_from_project(123, 456),
        Request {
            method: Method::Delete,
            url: "https://gitlab.example.com/api/v4/projects/456/members/123".to_string(),
            body: Body::Empty,
            expect: Expect::Nothing,
        }
    );
}

#[test]
fn file_probe_names_the_branch() {
    assert_eq!(
        client().files().file_exists(456, "docs/READ ME.md", "main"),
        Request {
            method: Method::Get,
            url: "https://gitlab.example.com/api/v4/projects/456/repository/files/docs%2FREAD%20ME.md?ref=main"
                .to_string(),
            body: Body::Empty,
            expect: Expect::Nothing,
        }
    );
    assert_eq!(
        client().files().get_file_content(456, "a.txt", "dev").expect,
        Expect::File
    );
    assert_eq!(
        client().files().get_file_content(456, "a.txt", "dev").url,
        "https://gitlab.example.com/api/v4/projects/456/repository/files/a.txt?ref=dev"
    );
}

#[test]
fn file_is_created_by_post_and_updated_by_put_with_base64_content() {
    let created = client()
        .files()
        .create_file(456, "dir/file.txt", "main", "Add file", "hello");
    assert_eq!(
        created,
        Request {
            method: Method::Post,
            url: "https://gitlab.example.com/api/v4/projects/456/repository/files/dir%2Ffile.txt"
                .to_string(),
            body: Body::Commit {
                branch: "main".to_string(),
                content: "aGVsbG8=".to_string(),
                commit_message: "Add file".to_string(),
            },
            expect: Expect::Nothing,
        }
    );
    let updated = client()
        .files()
        .update_file(456, "dir/file.txt", "main", "Add file", "hello");
    assert_eq!(updated.method, Method::Put);
    assert_eq!(updated.url, created.url);
    assert_eq!(updated.body, created.body);
}

#[test]
fn content_is_encoded_with_padding() {
    assert_eq!(FilesApi::encode(""), Some("".to_string()));
    assert_eq!(FilesApi::encode("a"), Some("YQ==".to_string()));
    assert_eq!(FilesApi::encode("ab"), Some("YWI=".to_string()));
    assert_eq!(FilesApi::encode("abc"), Some("YWJj".to_string()));
    assert_eq!(FilesApi::encode("é?>"), Some("w6k/Pg==".to_string()));
}

#[test]
fn probe_finds_the_file_only_on_success() {
    assert!(FilesApi::found(&Reply::Success(Payload::Nothing)));
    assert!(!FilesApi::found(&refused("{\"message\":\"404 File Not Found\"}")));
    assert!(!FilesApi::found(&Reply::Unreachable {
        reason: "connection refused".to_string()
    }));
    assert!(!FilesApi::found(&Reply::Refused {
        reason: "HTTP status server error (500)".to_string(),
        body: None
    }));
    assert!(!FilesApi::found(&Reply::Malformed { reason: "EOF while parsing".to_string() }));
}

#[test]
fn write_follows_the_probe() {
    let api = client();
    let probe_failed = Reply::Unreachable { reason: "timeout".to_string() };
    let request = api.files().write_file(
        FilesApi::found(&probe_failed),
        1,
        "f",
        "main",
        "m",
        "YQ==",
    );
    assert_eq!(request.method, Method::Post);
    let probe_ok = Reply::Success(Payload::Nothing);
    let request = api
        .files()
        .write_file(FilesApi::found(&probe_ok), 1, "f", "main", "m", "YQ==");
    assert_eq!(request.method, Method::Put);
}

#[test]
fn fetched_content_is_decoded_to_text() {
    let reply = Reply::Success(Payload::File { content: "aGVsbG8gd29ybGQ=".to_string() });
    assert_eq!(FilesApi::read_content(reply), Ok("hello world".to_string()));
    let reply = Reply::Success(Payload::File { content: "w6k/Pg==".to_string() });
    assert_eq!(FilesApi::read_content(reply), Ok("é?>".to_string()));
}

#[test]
fn fetched_content_that_is_no_base64_or_no_text_is_refused() {
    let reply = Reply::Success(Payload::File { content: "not base64!".to_string() });
    assert_eq!(FilesApi::read_content(reply), Err(Failure::NotBase64));
    let reply = Reply::Success(Payload::File { content: "aGVsbG8".to_string() });
    assert_eq!(FilesApi::read_content(reply), Err(Failure::NotBase64));
    // 0xff 0xfe is no UTF-8
    let reply = Reply::Success(Payload::File { content: "//4=".to_string() });
    assert_eq!(FilesApi::read_content(reply), Err(Failure::NotText));
    let reply = Reply::Success(Payload::Nothing);
    assert_eq!(FilesApi::read_content(reply), Err(Failure::Unexpected));
    assert_eq!(
        FilesApi::read_content(refused("gone")),
        Err(Failure::Refused {
            reason: "HTTP status client error (404 Not Found)".to_string(),
            body: Some("gone".to_string())
        })
    );
}

#[test]
fn replies_are_read_as_what_was_asked_for() {
    let p = project(456, "test/project", &["test", "example"]);
    assert_eq!(
        ProjectsApi::read_project(Reply::Success(Payload::Project(p.clone()))),
        Ok(p.clone())
    );
    assert_eq!(
        ProjectsApi::read_project(Reply::Success(Payload::Projects(vec![p.clone()]))),
        Err(Failure::Unexpected)
    );
    assert_eq!(
        ProjectsApi::read_project(Reply::Malformed { reason: "expected value".to_string() }),
        Err(Failure::Malformed { reason: "expected value".to_string() })
    );
    assert_eq!(
        ProjectsApi::read_project(Reply::Unreachable { reason: "dns".to_string() }),
        Err(Failure::Unreachable { reason: "dns".to_string() })
    );
    let u = user(123, "test.user");
    assert_eq!(UsersApi::read_user(Reply::Success(Payload::User(u.clone()))), Ok(u.clone()));
    assert_eq!(
        UsersApi::read_user(Reply::Success(Payload::Nothing)),
        Err(Failure::Unexpected)
    );
}

#[test]
fn search_by_username_takes_the_first_user_found() {
    let first = user(123, "test.user");
    let second = user(124, "test.user2");
    assert_eq!(
        UsersApi::read_first_user(
            Reply::Success(Payload::Users(vec![first.clone(), second])),
            "test.user"
        ),
        Ok(first)
    );
    let failure = UsersApi::read_first_user(Reply::Success(Payload::Users(vec![])), "nobody")
        .unwrap_err();
    assert_eq!(failure, Failure::UserNotFound { username: "nobody".to_string() });
    assert_eq!(failure.message(), "User not found: nobody");
}

#[test]
fn failures_have_words() {
    assert_eq!(Failure::Unreachable { reason: "connection reset".to_string() }.message(), "connection reset");
    assert_eq!(
        Failure::Refused { reason: "HTTP 403".to_string(), body: Some("forbidden".to_string()) }
            .message(),
        "HTTP 403"
    );
    assert_eq!(Failure::Malformed { reason: "EOF".to_string() }.message(), "EOF");
    assert_eq!(Failure::Unexpected.message(), "Unexpected reply");
    assert_eq!(
        Failure::GrantFailed { members: "m".to_string(), invitations: "i".to_string() }.message(),
        "Failed to add user to project. Members endpoint error: m. Invitations endpoint error: i"
    );
    assert_eq!(Failure::TooManyPages.message(), "Too many pages");
    assert_eq!(Failure::NotBase64.message(), "File content is not base64");
    assert_eq!(Failure::NotText.message(), "File content is not valid text");
}

fn object(entries: Vec<(&str, serde_json::Value)>) -> String {
    let mut map = serde_json::Map::new();
    for (key, value) in entries {
        map.insert(key.to_string(), value);
    }
    serde_json::to_string(&serde_json::Value::Object(map)).unwrap()
}

fn text(value: &str) -> serde_json::Value {
    serde_json::Value::String(value.to_string())
}

#[test]
fn topics_travel_as_one_json_array() {
    let body = Body::Topics {
        topics: vec!["test".to_string(), "example".to_string(), "backend".to_string()],
    };
    assert_eq!(
        body.json(),
        Some("{\"topics\":[\"test\",\"example\",\"backend\"]}".to_string())
    );
    assert_eq!(Body::Topics { topics: vec![] }.json(), Some("{\"topics\":[]}".to_string()));
    assert_eq!(
        Body::Topics { topics: vec!["example".to_string()] }.json(),
        Some("{\"topics\":[\"example\"]}".to_string())
    );
    assert_eq!(Body::Empty.json(), None);
}

#[test]
fn the_user_travels_as_a_number_to_members_and_as_text_to_invitations() {
    assert_eq!(
        Body::Member { user_id: 123, access_level: 30 }.json(),
        Some("{\"access_level\":30,\"user_id\":123}".to_string())
    );
    assert_eq!(
        Body::Invitation { user_id: "123".to_string(), access_level: 30 }.json(),
        Some("{\"access_level\":30,\"user_id\":\"123\"}".to_string())
    );
}

#[test]
fn a_commit_travels_with_branch_message_and_content() {
    let body = Body::Commit {
        branch: "main".to_string(),
        content: "aGVsbG8=".to_string(),
        commit_message: "Add \"file\"\n".to_string(),
    };
    assert_eq!(
        body.json(),
        Some(
            "{\"branch\":\"main\",\"commit_message\":\"Add \\\"file\\\"\\n\",\"content\":\"aGVsbG8=\"}"
                .to_string()
        )
    );
}

#[test]
fn bodies_are_what_a_json_writer_makes_of_them() {
    let topics = vec!["a\"b".to_string(), "c\\d".to_string(), "é\u{1}\t".to_string(), "".to_string()];
    assert_eq!(
        Body::Topics { topics: topics.clone() }.json().unwrap(),
        object(vec![(
            "topics",
            serde_json::Value::Array(topics.iter().map(|t| text(t)).collect())
        )])
    );
    assert_eq!(
        Body::Member { user_id: u64::MAX, access_level: 0 }.json().unwrap(),
        object(vec![
            ("user_id", serde_json::Value::from(u64::MAX)),
            ("access_level", serde_json::Value::from(0u64))
        ])
    );
    assert_eq!(
        Body::Invitation { user_id: "7".to_string(), access_level: 50 }.json().unwrap(),
        object(vec![("user_id", text("7")), ("access_level", serde_json::Value::from(50u64))])
    );
    assert_eq!(
        Body::Commit {
            branch: "feature/x".to_string(),
            content: "YQ==".to_string(),
            commit_message: "Update \u{1F600} file".to_string(),
        }
        .json()
        .unwrap(),
        object(vec![
            ("branch", text("feature/x")),
            ("content", text("YQ==")),
            ("commit_message", text("Update \u{1F600} file"))
        ])
    );
}
