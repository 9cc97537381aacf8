use gitlab_cli::commands::driver::{Action, Event};
use gitlab_cli::commands::error::CommandError;
use gitlab_cli::commands::targets::{
    lookup_project, lookup_user, ProjectResolution, ProjectResolver, ProjectSelection,
    ProjectTargets, TableFile, UserResolution, UserResolver, UserSelection, UserTargets,
};
use gitlab_cli::gitlab::client::GitLabClient;
use gitlab_cli::gitlab::exchange::{Expect, Failure, Payload, Reply};
use gitlab_cli::models::project::Project;
use gitlab_cli::models::user::User;
use gitlab_cli::utils::csv::{ProjectRecord, UserRecord};

const API: &str = "https://gitlab.example.com/api/v4";

fn client() -> GitLabClient {
    GitLabClient::new(API, "test-token")
}

fn list(items: &[&str]) -> Vec<String> {
    items.iter().map(|t| t.to_string()).collect()
}

fn table(path: &str, extension: Option<&str>) -> TableFile {
    TableFile { path: path.to_string(), extension: extension.map(|e| e.to_string()) }
}

fn project(id: u64, path: &str) -> Project {
    Project {
        id,
        path_with_namespace: path.to_string(),
        name: path.to_string(),
        description: None,
        default_branch: None,
        visibility: "private".to_string(),
        web_url: String::new(),
        topics: vec![],
    }
}

fn user(id: u64, username: &str) -> User {
    User {
        id,
        username: username.to_string(),
        name: username.to_string(),
        state: "active".to_string(),
        email: None,
    }
}

fn found(p: Project) -> Event {
    Event::Reply(Reply::Success(Payload::Project(p)))
}

fn not_found() -> Event {
    Event::Reply(Reply::Refused {
        reason: "HTTP status client error (404 Not Found)".to_string(),
        body: Some("{\"message\":\"404 Project Not Found\"}".to_string()),
    })
}

fn url_of(action: &Action) -> String {
    match action {
        Action::Send(request) => request.url.clone(),
        other => panic!("nothing is sent: {:?}", other),
    }
}

/// Feeds the events to the resolution and returns how it ended, with the
/// addresses that were asked for.
fn resolve(begin: ProjectResolution, events: Vec<Event>) -> (ProjectResolution, Vec<String>) {
    let mut asked = Vec::new();
    let mut state = begin;
    for event in events {
        match state {
            ProjectResolution::Next(resolver, action) => {
                asked.push(url_of(&action));
                state = resolver.step(event);
            }
            over => return (over, asked),
        }
    }
    if let ProjectResolution::Next(_, action) = &state {
        asked.push(url_of(action));
    }
    (state, asked)
}

#[test]
fn exactly_one_way_of_choosing_projects_must_be_given() {
    let none = ProjectTargets { project_file: None, project_ids: None, topic: None };
    assert_eq!(none.select(), Err(CommandError::NoProjects));

    let ids = ProjectTargets { project_file: None, project_ids: Some(list(&["1"])), topic: None };
    assert_eq!(ids.select(), Ok(ProjectSelection::Tokens(list(&["1"]))));

    let topic = ProjectTargets { project_file: None, project_ids: None, topic: Some("t".to_string()) };
    assert_eq!(topic.select(), Ok(ProjectSelection::Topic("t".to_string())));

    let file = ProjectTargets {
        project_file: Some(table("p.csv", Some("csv"))),
        project_ids: None,
        topic: None,
    };
    assert_eq!(file.select(), Ok(ProjectSelection::Table { path: "p.csv".to_string() }));

    let two = ProjectTargets {
        project_file: Some(table("p.csv", Some("csv"))),
        project_ids: None,
        topic: Some("t".to_string()),
    };
    assert_eq!(two.select(), Err(CommandError::Conflict));
    let two = ProjectTargets {
        project_file: None,
        project_ids: Some(list(&["1"])),
        topic: Some("t".to_string()),
    };
    assert_eq!(two.select(), Err(CommandError::Conflict));
    let three = ProjectTargets {
        project_file: Some(table("p.txt", Some("txt"))),
        project_ids: Some(list(&[])),
        topic: Some("t".to_string()),
    };
    assert_eq!(three.select(), Err(CommandError::Conflict));
}

#[test]
fn exactly_one_way_of_choosing_users_must_be_given() {
    assert_eq!(
        UserTargets { user_file: None, user_ids: None }.select(),
        Err(CommandError::NoUsers)
    );
    assert_eq!(
        UserTargets { user_file: Some(table("u.csv", Some("csv"))), user_ids: Some(list(&["1"])) }
            .select(),
        Err(CommandError::Conflict)
    );
    assert_eq!(
        UserTargets { user_file: None, user_ids: Some(list(&["1", "jane"])) }.select(),
        Ok(UserSelection::Tokens(list(&["1", "jane"])))
    );
    assert_eq!(
        UserTargets { user_file: Some(table("u.CSV", Some("CSV"))), user_ids: None }.select(),
        Ok(UserSelection::Table { path: "u.CSV".to_string() })
    );
}

#[test]
fn a_table_must_be_a_csv_file() {
    assert_eq!(table("a.csv", Some("csv")).readable(), Ok("a.csv".to_string()));
    assert_eq!(table("a.Csv", Some("Csv")).readable(), Ok("a.Csv".to_string()));
    let error = table("a.xlsx", Some("xlsx")).readable().unwrap_err();
    assert_eq!(error, CommandError::UnsupportedFormat { extension: "xlsx".to_string() });
    assert_eq!(
        error.message(),
        "Unsupported file format: xlsx. Only CSV files are supported."
    );
    let error = table("projects", None).readable().unwrap_err();
    assert_eq!(error, CommandError::UnsupportedFormat { extension: "".to_string() });
    assert_eq!(error.message(), "Unsupported file format: . Only CSV files are supported.");
    assert!(table("a.csv2", Some("csv2")).readable().is_err());
}

#[test]
fn a_token_that_reads_as_a_number_is_looked_up_by_number() {
    let c = client();
    assert_eq!(lookup_project(&c, "456"), c.projects().get_by_id(456));
    assert_eq!(lookup_project(&c, "+456"), c.projects().get_by_id(456));
    assert_eq!(lookup_project(&c, "0456"), c.projects().get_by_id(456));
    assert_eq!(lookup_project(&c, "0"), c.projects().get_by_id(0));
    assert_eq!(lookup_user(&c, "123"), c.users().get_by_id(123));
    assert_eq!(lookup_project(&c, "456").url, format!("{}/projects/456", API));
    assert_eq!(lookup_user(&c, "123").url, format!("{}/users/123", API));
    assert_eq!(lookup_user(&c, "123").expect, Expect::User);
}

#[test]
fn any_other_token_is_looked_up_by_path_or_username() {
    let c = client();
    assert_eq!(lookup_project(&c, "test/project"), c.projects().get_by_path("test/project"));
    assert_eq!(lookup_project(&c, "test/project").url, format!("{}/projects/test%2Fproject", API));
    assert_eq!(lookup_project(&c, "456a").url, format!("{}/projects/456a", API));
    assert_eq!(lookup_project(&c, "-456").url, format!("{}/projects/-456", API));
    assert_eq!(
        lookup_project(&c, "18446744073709551616"),
        c.projects().get_by_path("18446744073709551616")
    );
    assert_eq!(lookup_user(&c, "test.user"), c.users().get_by_username("test.user"));
    assert_eq!(lookup_user(&c, "test.user").url, format!("{}/users?username=test.user", API));
    assert_eq!(lookup_user(&c, "test.user").expect, Expect::Users);
}

#[test]
fn tokens_are_resolved_in_their_order() {
    let begin = ProjectResolver::begin(
        &client(),
        ProjectSelection::Tokens(list(&["7", "group/b", "3"])),
    );
    let (end, asked) = resolve(
        begin,
        vec![found(project(7, "group/a")), found(project(8, "group/b")), found(project(3, "group/c"))],
    );
    assert_eq!(
        end,
        ProjectResolution::Done(vec![
            project(7, "group/a"),
            project(8, "group/b"),
            project(3, "group/c")
        ])
    );
    assert_eq!(
        asked,
        vec![
            format!("{}/projects/7", API),
            format!("{}/projects/group%2Fb", API),
            format!("{}/projects/3", API),
        ]
    );
}

#[test]
fn the_first_failed_lookup_ends_the_resolution() {
    let begin = ProjectResolver::begin(
        &client(),
        ProjectSelection::Tokens(list(&["7", "missing/project", "3"])),
    );
    let (end, asked) = resolve(
        begin,
        vec![found(project(7, "group/a")), not_found(), found(project(3, "group/c"))],
    );
    assert_eq!(
        end,
        ProjectResolution::Failed(CommandError::Lookup {
            target: "missing/project".to_string(),
            cause: Failure::Refused {
                reason: "HTTP status client error (404 Not Found)".to_string(),
                body: Some("{\"message\":\"404 Project Not Found\"}".to_string()),
            },
        })
    );
    assert_eq!(asked.len(), 2);
}

#[test]
fn no_tokens_resolve_to_nothing_without_a_request() {
    assert_eq!(
        ProjectResolver::begin(&client(), ProjectSelection::Tokens(vec![])),
        ProjectResolution::Done(vec![])
    );
    assert_eq!(
        UserResolver::begin(&client(), UserSelection::Tokens(vec![])),
        UserResolution::Done(vec![])
    );
}

#[test]
fn a_topic_is_resolved_page_by_page() {
    let begin = ProjectResolver::begin(&client(), ProjectSelection::Topic("team/core".to_string()));
    let page = |ps: Vec<Project>| Event::Reply(Reply::Success(Payload::Projects(ps)));
    let (end, asked) = resolve(
        begin,
        vec![page(vec![project(1, "a"), project(2, "b")]), page(vec![project(3, "c")]), page(vec![])],
    );
    assert_eq!(
        end,
        ProjectResolution::Done(vec![project(1, "a"), project(2, "b"), project(3, "c")])
    );
    assert_eq!(
        asked,
        vec![
            format!("{}/projects?topic=team%2Fcore&per_page=100&page=1", API),
            format!("{}/projects?topic=team%2Fcore&per_page=100&page=2", API),
            format!("{}/projects?topic=team%2Fcore&per_page=100&page=3", API),
        ]
    );
}

#[test]
fn a_failed_page_names_the_listing() {
    let begin = ProjectResolver::begin(&client(), ProjectSelection::Topic("t".to_string()));
    let (end, _) = resolve(begin, vec![Event::Reply(Reply::Unreachable { reason: "dns".to_string() })]);
    assert_eq!(
        end,
        ProjectResolution::Failed(CommandError::Lookup {
            target: format!("{}/projects?topic=t&per_page=100", API),
            cause: Failure::Unreachable { reason: "dns".to_string() },
        })
    );
}

#[test]
fn a_table_of_projects_is_loaded_by_the_driver() {
    let begin = || ProjectResolver::begin(&client(), ProjectSelection::Table { path: "p.csv".to_string() });
    let resolver = match begin() {
        ProjectResolution::Next(resolver, action) => {
            assert_eq!(action, Action::LoadProjects { path: "p.csv".to_string() });
            resolver
        }
        other => panic!("{:?}", other),
    };
    let row = ProjectRecord {
        id: 5,
        path_with_namespace: "g/p".to_string(),
        name: "P".to_string(),
        description: None,
        default_branch: Some("trunk".to_string()),
        visibility: None,
        web_url: None,
        topics: Some("a, b".to_string()),
    };
    match resolver.clone().step(Event::ProjectRows(vec![row])) {
        ProjectResolution::Done(projects) => {
            assert_eq!(projects.len(), 1);
            assert_eq!(projects[0].id, 5);
            assert_eq!(projects[0].visibility, "private");
            assert_eq!(projects[0].topics, vec!["a", "b"]);
            assert_eq!(projects[0].default_branch, Some("trunk".to_string()));
        }
        other => panic!("{:?}", other),
    }
    assert_eq!(
        resolver.clone().step(Event::TableMissing),
        ProjectResolution::Failed(CommandError::TableMissing { path: "p.csv".to_string() })
    );
    assert_eq!(
        resolver.clone().step(Event::TableUnreadable { reason: "bad row".to_string() }),
        ProjectResolution::Failed(CommandError::TableUnreadable {
            path: "p.csv".to_string(),
            reason: "bad row".to_string()
        })
    );
    assert_eq!(
        resolver.clone().step(Event::UserRows(vec![])),
        ProjectResolution::Failed(CommandError::Unexpected)
    );
    assert_eq!(
        resolver.step(Event::Text("x".to_string())),
        ProjectResolution::Failed(CommandError::Unexpected)
    );
}

#[test]
fn users_are_resolved_by_number_or_by_username() {
    let mut state = UserResolver::begin(&client(), UserSelection::Tokens(list(&["123", "jane.smith"])));
    let mut asked = Vec::new();
    let events = vec![
        Event::Reply(Reply::Success(Payload::User(user(123, "john.doe")))),
        Event::Reply(Reply::Success(Payload::Users(vec![user(456, "jane.smith"), user(9, "x")]))),
    ];
    for event in events {
        match state {
            UserResolution::Next(resolver, action) => {
                asked.push(url_of(&action));
                state = resolver.step(event);
            }
            other => panic!("{:?}", other),
        }
    }
    assert_eq!(state, UserResolution::Done(vec![user(123, "john.doe"), user(456, "jane.smith")]));
    assert_eq!(
        asked,
        vec![format!("{}/users/123", API), format!("{}/users?username=jane.smith", API)]
    );
}

#[test]
fn a_username_that_nobody_has_ends_the_resolution() {
    let begin = UserResolver::begin(&client(), UserSelection::Tokens(list(&["ghost", "123"])));
    let resolver = match begin {
        UserResolution::Next(resolver, _) => resolver,
        other => panic!("{:?}", other),
    };
    assert_eq!(
        resolver.clone().step(Event::Reply(Reply::Success(Payload::Users(vec![])))),
        UserResolution::Failed(CommandError::Lookup {
            target: "ghost".to_string(),
            cause: Failure::UserNotFound { username: "ghost".to_string() },
        })
    );
    // a single user is no answer to a search
    assert_eq!(
        resolver.step(Event::Reply(Reply::Success(Payload::User(user(1, "ghost"))))),
        UserResolution::Failed(CommandError::Lookup {
            target: "ghost".to_string(),
            cause: Failure::Unexpected,
        })
    );
}

#[test]
fn a_table_of_users_is_loaded_by_the_driver() {
    let resolver = match UserResolver::begin(&client(), UserSelection::Table { path: "u.csv".to_string() }) {
        UserResolution::Next(resolver, action) => {
            assert_eq!(action, Action::LoadUsers { path: "u.csv".to_string() });
            resolver
        }
        other => panic!("{:?}", other),
    };
    let row = UserRecord { id: 1, username: "a".to_string(), name: "A".to_string(), email: None };
    assert_eq!(
        resolver.clone().step(Event::UserRows(vec![row])),
        UserResolution::Done(vec![user(1, "a")].into_iter().map(|mut u| { u.name = "A".to_string(); u }).collect())
    );
    assert_eq!(
        resolver.step(Event::TableMissing),
        UserResolution::Failed(CommandError::TableMissing { path: "u.csv".to_string() })
    );
}

#[test]
fn a_project_named_twice_is_resolved_once() {
    let begin = ProjectResolver::begin(
        &client(),
        ProjectSelection::Tokens(list(&["7", "group/a", "3", "7"])),
    );
    let (end, asked) = resolve(
        begin,
        vec![
            found(project(7, "group/a")),
            found(project(7, "group/a")),
            found(project(3, "group/c")),
            found(project(7, "group/a")),
        ],
    );
    assert_eq!(end, ProjectResolution::Done(vec![project(7, "group/a"), project(3, "group/c")]));
    assert_eq!(asked.len(), 4);
}

#[test]
fn rows_and_pages_give_each_project_once() {
    let resolver = match ProjectResolver::begin(&client(), ProjectSelection::Table { path: "p.csv".to_string() }) {
        ProjectResolution::Next(resolver, _) => resolver,
        other => panic!("{:?}", other),
    };
    let row = |id: u64, name: &str| ProjectRecord {
        id,
        path_with_namespace: name.to_string(),
        name: name.to_string(),
        description: None,
        default_branch: None,
        visibility: None,
        web_url: None,
        topics: None,
    };
    match resolver.step(Event::ProjectRows(vec![row(2, "b"), row(1, "a"), row(2, "b again"), row(1, "a")])) {
        ProjectResolution::Done(projects) => {
            let names: Vec<&str> = projects.iter().map(|p| p.name.as_str()).collect();
            assert_eq!(names, vec!["b", "a"]);
        }
        other => panic!("{:?}", other),
    }
    let begin = ProjectResolver::begin(&client(), ProjectSelection::Topic("t".to_string()));
    let page = |ps: Vec<Project>| Event::Reply(Reply::Success(Payload::Projects(ps)));
    let (end, _) = resolve(
        begin,
        vec![page(vec![project(1, "a"), project(2, "b")]), page(vec![project(2, "b"), project(3, "c")]), page(vec![])],
    );
    assert_eq!(
        end,
        ProjectResolution::Done(vec![project(1, "a"), project(2, "b"), project(3, "c")])
    );
}

#[test]
fn a_user_named_twice_is_resolved_once() {
    let mut state = UserResolver::begin(&client(), UserSelection::Tokens(list(&["jane.smith", "456", "123"])));
    let events = vec![
        Event::Reply(Reply::Success(Payload::Users(vec![user(456, "jane.smith")]))),
        Event::Reply(Reply::Success(Payload::User(user(456, "jane.smith")))),
        Event::Reply(Reply::Success(Payload::User(user(123, "john.doe")))),
    ];
    for event in events {
        match state {
            UserResolution::Next(resolver, _) => state = resolver.step(event),
            other => panic!("{:?}", other),
        }
    }
    assert_eq!(state, UserResolution::Done(vec![user(456, "jane.smith"), user(123, "john.doe")]));
}
