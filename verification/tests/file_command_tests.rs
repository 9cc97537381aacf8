use gitlab_cli::commands::driver::{Action, Event};
use gitlab_cli::commands::error::CommandError;
use gitlab_cli::commands::file::{choose_branch, FileCommands, FileSubcommands, UpdateFileArgs};
use gitlab_cli::commands::targets::ProjectTargets;
use gitlab_cli::gitlab::client::GitLabClient;
use gitlab_cli::gitlab::exchange::{Body, Expect, Failure, Method, Payload, Reply, Request};
use gitlab_cli::models::project::Project;

const API: &str = "https://gitlab.example.com/api/v4";

fn client() -> GitLabClient {
    GitLabClient::new(API, "fake-token")
}

fn list(items: &[&str]) -> Vec<String> {
    items.iter().map(|t| t.to_string()).collect()
}

fn project(id: u64, path: &str, default_branch: Option<&str>) -> Project {
    Project {
        id,
        path_with_namespace: path.to_string(),
        name: path.to_string(),
        description: None,
        default_branch: default_branch.map(|b| b.to_string()),
        visibility: "private".to_string(),
        web_url: String::new(),
        topics: vec![],
    }
}

fn update(branch: Option<&str>, changes: Option<&[&str]>, ids: &[&str]) -> FileCommands {
    FileCommands {
        command: FileSubcommands::Update(UpdateFileArgs {
            file_path: "local/config.yml".to_string(),
            target_path: "ci/config.yml".to_string(),
            commit_message: "Update file via gitlab-bulk CLI".to_string(),
            branch: branch.map(|b| b.to_string()),
            projects: ProjectTargets { project_file: None, project_ids: Some(list(ids)), topic: None },
            changes: changes.map(list),
        }),
    }
}

fn carries(p: Project) -> Event {
    Event::Reply(Reply::Success(Payload::Project(p)))
}

fn ok() -> Event {
    Event::Reply(Reply::Success(Payload::Nothing))
}

fn not_found() -> Event {
    Event::Reply(Reply::Refused { reason: "HTTP 404".to_string(), body: Some("404".to_string()) })
}

fn down() -> Event {
    Event::Reply(Reply::Unreachable { reason: "connection refused".to_string() })
}

fn run(command: FileCommands, events: Vec<Event>) -> Vec<Action> {
    let (mut state, action) = command.execute(&client());
    let mut actions = vec![action];
    for event in events {
        if matches!(actions.last(), Some(Action::Finish { .. }) | Some(Action::Abort(_))) {
            break;
        }
        let (next, action) = state.step(event);
        state = next;
        actions.push(action);
    }
    actions
}

fn probe(id: u64, branch: &str) -> Action {
    Action::Send(Request {
        method: Method::Get,
        url: format!("{}/projects/{}/repository/files/ci%2Fconfig.yml?ref={}", API, id, branch),
        body: Body::Empty,
        expect: Expect::Nothing,
    })
}

fn write(method: Method, id: u64, branch: &str, content: &str) -> Action {
    Action::Send(Request {
        method,
        url: format!("{}/projects/{}/repository/files/ci%2Fconfig.yml", API, id),
        body: Body::Commit {
            branch: branch.to_string(),
            content: content.to_string(),
            commit_message: "Update file via gitlab-bulk CLI".to_string(),
        },
        expect: Expect::Nothing,
    })
}

#[test]
fn a_file_that_exists_is_updated_and_one_that_does_not_is_created() {
    let actions = run(
        update(None, None, &["1", "2", "3"]),
        vec![
            carries(project(1, "g/one", Some("main"))),
            carries(project(2, "g/two", Some("master"))),
            carries(project(3, "g/three", None)),
            Event::Text("hello".to_string()),
            ok(),        // probe of 1: found
            ok(),        // update of 1
            not_found(), // probe of 2: not found
            ok(),        // creation in 2
            down(),      // probe of 3: no answer
            ok(),        // creation in 3
        ],
    );
    assert_eq!(actions.len(), 11);
    assert_eq!(actions[3], Action::ReadText { path: "local/config.yml".to_string() });
    assert_eq!(actions[4], probe(1, "main"));
    assert_eq!(actions[5], write(Method::Put, 1, "main", "aGVsbG8="));
    assert_eq!(actions[6], probe(2, "master"));
    assert_eq!(actions[7], write(Method::Post, 2, "master", "aGVsbG8="));
    assert_eq!(actions[8], probe(3, "main"));
    assert_eq!(actions[9], write(Method::Post, 3, "main", "aGVsbG8="));
    assert_eq!(actions[10], Action::Finish { output: vec![] });
}

#[test]
fn the_named_branch_goes_before_the_default_branch() {
    assert_eq!(choose_branch(&Some("dev".to_string()), &project(1, "p", Some("main"))), "dev");
    assert_eq!(choose_branch(&Some("dev".to_string()), &project(1, "p", None)), "dev");
    assert_eq!(choose_branch(&None, &project(1, "p", Some("trunk"))), "trunk");
    assert_eq!(choose_branch(&None, &project(1, "p", None)), "main");
    let actions = run(
        update(Some("release"), None, &["1"]),
        vec![carries(project(1, "g/one", Some("main"))), Event::Text("a".to_string()), ok()],
    );
    assert_eq!(actions[2], probe(1, "release"));
    assert_eq!(actions[3], write(Method::Put, 1, "release", "YQ=="));
}

#[test]
fn the_content_is_changed_before_it_is_encoded() {
    let actions = run(
        update(None, Some(&["world:there", "broken", "l:L"]), &["1"]),
        vec![
            carries(project(1, "g/one", None)),
            Event::Text("hello world".to_string()),
            not_found(),
        ],
    );
    // "heLLo there" in base64
    assert_eq!(actions[3], write(Method::Post, 1, "main", "aGVMTG8gdGhlcmU="));
}

#[test]
fn a_local_file_that_cannot_be_read_ends_the_command() {
    let actions = run(
        update(None, None, &["1"]),
        vec![
            carries(project(1, "g/one", None)),
            Event::TextUnreadable { reason: "No such file or directory".to_string() },
            ok(),
        ],
    );
    assert_eq!(actions.len(), 3);
    let error = CommandError::ContentUnreadable {
        path: "local/config.yml".to_string(),
        reason: "No such file or directory".to_string(),
    };
    assert_eq!(actions[2], Action::Abort(error.clone()));
    assert_eq!(error.message(), "Failed to read file: local/config.yml");
    assert_eq!(error.cause(), Some("No such file or directory".to_string()));
}

#[test]
fn a_failed_write_names_file_and_project_and_stops_the_rest() {
    let refusal = || Event::Reply(Reply::Refused { reason: "HTTP 400".to_string(), body: None });
    let actions = run(
        update(None, None, &["1", "2"]),
        vec![
            carries(project(1, "g/one", None)),
            carries(project(2, "g/two", None)),
            Event::Text("x".to_string()),
            ok(),
            refusal(),
            ok(),
        ],
    );
    assert_eq!(actions.len(), 6);
    let error = CommandError::FileWrite {
        existed: true,
        file: "ci/config.yml".to_string(),
        branch: "main".to_string(),
        project_id: 1,
        project: "g/one".to_string(),
        cause: Failure::Refused { reason: "HTTP 400".to_string(), body: None },
    };
    assert_eq!(actions[5], Action::Abort(error.clone()));
    assert_eq!(error.message(), "Failed to update file ci/config.yml in project g/one");

    let actions = run(
        update(None, None, &["1"]),
        vec![carries(project(1, "g/one", None)), Event::Text("x".to_string()), down(), down()],
    );
    let error = CommandError::FileWrite {
        existed: false,
        file: "ci/config.yml".to_string(),
        branch: "main".to_string(),
        project_id: 1,
        project: "g/one".to_string(),
        cause: Failure::Unreachable { reason: "connection refused".to_string() },
    };
    assert_eq!(actions[4], Action::Abort(error.clone()));
    assert_eq!(error.message(), "Failed to create file ci/config.yml in project g/one");
}

#[test]
fn the_file_is_read_even_where_no_project_was_chosen() {
    let actions = run(update(None, None, &[]), vec![Event::Text("x".to_string())]);
    assert_eq!(
        actions,
        vec![
            Action::ReadText { path: "local/config.yml".to_string() },
            Action::Finish { output: vec![] }
        ]
    );
}

#[test]
fn no_choice_of_projects_is_an_error_of_usage() {
    let command = FileCommands {
        command: FileSubcommands::Update(UpdateFileArgs {
            file_path: "f".to_string(),
            target_path: "t".to_string(),
            commit_message: "m".to_string(),
            branch: None,
            projects: ProjectTargets { project_file: None, project_ids: None, topic: None },
            changes: None,
        }),
    };
    let actions = run(command, vec![]);
    assert_eq!(actions, vec![Action::Abort(CommandError::NoProjects)]);
    assert_eq!(
        CommandError::NoProjects.message(),
        "Either --project-file, --project-ids, or --topic must be provided"
    );
}
