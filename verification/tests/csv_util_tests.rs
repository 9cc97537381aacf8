use gitlab_cli::commands::error::CommandError;
use gitlab_cli::models::project::Project;
use gitlab_cli::utils::csv::{project_from, user_from, CsvReader, ProjectRecord, UserRecord};
use std::path::Path;

fn cell(record: &csv::StringRecord, headers: &csv::StringRecord, name: &str) -> Option<String> {
    let index = headers.iter().position(|h| h == name)?;
    match record.get(index) {
        Some("") | None => None,
        Some(text) => Some(text.to_string()),
    }
}

fn user_rows(text: &str) -> Vec<UserRecord> {
    let mut reader = csv::Reader::from_reader(text.as_bytes());
    let headers = reader.headers().unwrap().clone();
    reader
        .records()
        .map(|record| {
            let record = record.unwrap();
            UserRecord {
                id: cell(&record, &headers, "id").unwrap().parse().unwrap(),
                username: cell(&record, &headers, "username").unwrap(),
                name: cell(&record, &headers, "name").unwrap(),
                email: cell(&record, &headers, "email"),
            }
        })
        .collect()
}

fn project_rows(text: &str) -> Vec<ProjectRecord> {
    let mut reader = csv::Reader::from_reader(text.as_bytes());
    let headers = reader.headers().unwrap().clone();
    reader
        .records()
        .map(|record| {
            let record = record.unwrap();
            ProjectRecord {
                id: cell(&record, &headers, "id").unwrap().parse().unwrap(),
                path_with_namespace: cell(&record, &headers, "path_with_namespace").unwrap(),
                name: cell(&record, &headers, "name").unwrap(),
                description: cell(&record, &headers, "description"),
                default_branch: cell(&record, &headers, "default_branch"),
                visibility: cell(&record, &headers, "visibility"),
                web_url: cell(&record, &headers, "web_url"),
                topics: cell(&record, &headers, "topics"),
            }
        })
        .collect()
}

#[test]
fn test_read_users_from_csv() {
    let text = "id,username,name,email\n\
                123,john.doe,John Doe,john.doe@example.com\n\
                456,jane.smith,Jane Smith,jane.smith@example.com\n";

    let reader = CsvReader::new("users.csv", true).unwrap();
    let users = reader.read_users(user_rows(text));

    // Verify the results
    assert_eq!(users.len(), 2);

    assert_eq!(users[0].id, 123);
    assert_eq!(users[0].username, "john.doe");
    assert_eq!(users[0].name, "John Doe");
    assert_eq!(users[0].email, Some("john.doe@example.com".to_string()));

    assert_eq!(users[1].id, 456);
    assert_eq!(users[1].username, "jane.smith");
    assert_eq!(users[1].name, "Jane Smith");
    assert_eq!(users[1].email, Some("jane.smith@example.com".to_string()));
}

#[test]
fn test_read_projects_from_csv() {
    let text = "id,path_with_namespace,name,description,default_branch,visibility,web_url,topics\n\
                123,group/project-a,Project A,Example project A,main,private,https://example.com/group/project-a,\"backend,service\"\n\
                456,group/project-b,Project B,Example project B,master,public,https://example.com/group/project-b,frontend\n";

    let reader = CsvReader::new("projects.csv", true).unwrap();
    let projects = reader.read_projects(project_rows(text));

    // Verify the results
    assert_eq!(projects.len(), 2);

    assert_eq!(projects[0].id, 123);
    assert_eq!(projects[0].path_with_namespace, "group/project-a");
    assert_eq!(projects[0].name, "Project A");
    assert_eq!(
        projects[0].description,
        Some("Example project A".to_string())
    );
    assert_eq!(projects[0].default_branch, Some("main".to_string()));
    assert_eq!(projects[0].visibility, "private");
    assert_eq!(projects[0].web_url, "https://example.com/group/project-a");
    assert_eq!(projects[0].topics, vec!["backend", "service"]);

    assert_eq!(projects[1].id, 456);
    assert_eq!(projects[1].path_with_namespace, "group/project-b");
    assert_eq!(projects[1].name, "Project B");
    assert_eq!(
        projects[1].description,
        Some("Example project B".to_string())
    );
    assert_eq!(projects[1].default_branch, Some("master".to_string()));
    assert_eq!(projects[1].visibility, "public");
    assert_eq!(projects[1].web_url, "https://example.com/group/project-b");
    assert_eq!(projects[1].topics, vec!["frontend"]);
}

#[test]
fn test_read_users_from_invalid_file() {
    // Try to open a non-existent file
    let found = Path::new("nonexistent.csv").exists();
    let result = CsvReader::new("nonexistent.csv", found);
    assert!(result.is_err());

    // Error message should mention the file path
    let err = result.unwrap_err().message();
    assert!(err.contains("nonexistent.csv"));
}

#[test]
fn a_table_that_was_found_keeps_its_path() {
    let reader = CsvReader::new("targets/users.csv", true).unwrap();
    assert_eq!(reader.path(), "targets/users.csv");
    assert_eq!(
        CsvReader::new("targets/users.csv", false),
        Err(CommandError::TableMissing { path: "targets/users.csv".to_string() })
    );
}

#[test]
fn a_user_from_a_table_is_active() {
    let user = user_from(UserRecord {
        id: 7,
        username: "u".to_string(),
        name: "U".to_string(),
        email: None,
    });
    assert_eq!(user.id, 7);
    assert_eq!(user.username, "u");
    assert_eq!(user.name, "U");
    assert_eq!(user.state, "active");
    assert_eq!(user.email, None);
}

#[test]
fn a_project_row_without_optional_cells_gets_the_defaults() {
    let text = "id,path_with_namespace,name\n123456,test/project,Test Project\n";
    let rows = project_rows(text);
    let project = project_from(rows[0].clone());
    assert_eq!(
        project,
        Project {
            id: 123456,
            path_with_namespace: "test/project".to_string(),
            name: "Test Project".to_string(),
            description: None,
            default_branch: None,
            visibility: "private".to_string(),
            web_url: "".to_string(),
            topics: vec![],
        }
    );
}

#[test]
fn topics_of_a_cell_are_trimmed_and_empty_ones_dropped() {
    let record = |topics: &str| ProjectRecord {
        id: 1,
        path_with_namespace: "g/p".to_string(),
        name: "P".to_string(),
        description: None,
        default_branch: None,
        visibility: Some("internal".to_string()),
        web_url: Some("https://example.com/g/p".to_string()),
        topics: Some(topics.to_string()),
    };
    assert_eq!(project_from(record(" backend , service ,, ")).topics, vec!["backend", "service"]);
    assert_eq!(project_from(record("")).topics, Vec::<String>::new());
    assert_eq!(project_from(record(" , ,")).topics, Vec::<String>::new());
    assert_eq!(project_from(record("a,a")).topics, vec!["a", "a"]);
    assert_eq!(project_from(record("team:backend")).visibility, "internal");
    assert_eq!(project_from(record("x")).web_url, "https://example.com/g/p");
}

#[test]
fn rows_keep_their_order() {
    let reader = CsvReader::new("users.csv", true).unwrap();
    let rows: Vec<UserRecord> = (0..5)
        .map(|i| UserRecord {
            id: 10 - i,
            username: format!("user{}", i),
            name: format!("User {}", i),
            email: None,
        })
        .collect();
    let users = reader.read_users(rows);
    let ids: Vec<u64> = users.iter().map(|u| u.id).collect();
    assert_eq!(ids, vec![10, 9, 8, 7, 6]);
    assert_eq!(reader.read_projects(vec![]), vec![]);
}
