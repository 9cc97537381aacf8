//! The tabular source of targets: rows as a reader of CSV files hands them
//! over, and the entities they stand for.

use vstd::prelude::*;
use crate::commands::error::{CommandError, CommandErrorView};
use crate::commands::tags::{parse_topics, topics_of_cell};
use crate::models::project::{optional_text, Project, ProjectView};
use crate::models::user::{User, UserView};
use crate::text::{lemma_views_push, owned, views};

verus! {

/// One row of a table of users. `email` is absent where the cell is empty or
/// the table has no such column.
#[derive(Debug, Clone, PartialEq, Eq)]
pub struct UserRecord {
    pub id: u64,
    pub username: String,
    pub name: String,
    pub email: Option<String>,
}

/// What a [`UserRecord`] holds, as mathematical values.
pub struct UserRecordView {
    pub id: u64,
    pub username: Seq<char>,
    pub name: Seq<char>,
    pub email: Option<Seq<char>>,
}

impl View for UserRecord {
    type V = UserRecordView;

    open spec fn view(&self) -> UserRecordView {
        UserRecordView {
            id: self.id,
            username: self.username@,
            name: self.name@,
            email: optional_text(self.email),
        }
    }
}

/// One row of a table of projects. An optional field is absent where the
/// cell is empty or the table has no such column. `topics` is one cell that
/// holds the topics, separated by commas.
#[derive(Debug, Clone, PartialEq, Eq)]
pub struct ProjectRecord {
    pub id: u64,
    pub path_with_namespace: String,
    pub name: String,
    pub description: Option<String>,
    pub default_branch: Option<String>,
    pub visibility: Option<String>,
    pub web_url: Option<String>,
    pub topics: Option<String>,
}

/// What a [`ProjectRecord`] holds, as mathematical values.
pub struct ProjectRecordView {
    pub id: u64,
    pub path_with_namespace: Seq<char>,
    pub name: Seq<char>,
    pub description: Option<Seq<char>>,
    pub default_branch: Option<Seq<char>>,
    pub visibility: Option<Seq<char>>,
    pub web_url: Option<Seq<char>>,
    pub topics: Option<Seq<char>>,
}

impl View for ProjectRecord {
    type V = ProjectRecordView;

    open spec fn view(&self) -> ProjectRecordView {
        ProjectRecordView {
            id: self.id,
            path_with_namespace: self.path_with_namespace@,
            name: self.name@,
            description: optional_text(self.description),
            default_branch: optional_text(self.default_branch),
            visibility: optional_text(self.visibility),
            web_url: optional_text(self.web_url),
            topics: optional_text(self.topics),
        }
    }
}

/// The user that a row stands for. A user from a table counts as active.
pub open spec fn user_of(record: UserRecordView) -> UserView {
    UserView {
        id: record.id,
        username: record.username,
        name: record.name,
        state: "active"@,
        email: record.email,
    }
}

/// The project that a row stands for. Without a visibility the project
/// counts as private, without an address the address is empty, and the
/// topics are those written in the cell of topics, none without that cell.
pub open spec fn project_of(record: ProjectRecordView) -> ProjectView {
    ProjectView {
        id: record.id,
        path_with_namespace: record.path_with_namespace,
        name: record.name,
        description: record.description,
        default_branch: record.default_branch,
        visibility: match record.visibility {
            Some(v) => v,
            None => "private"@,
        },
        web_url: match record.web_url {
            Some(u) => u,
            None => Seq::empty(),
        },
        topics: match record.topics {
            Some(cell) => topics_of_cell(cell),
            None => Seq::empty(),
        },
    }
}

/// The users that rows stand for, row by row.
pub open spec fn users_of(records: Seq<UserRecordView>) -> Seq<UserView> {
    records.map_values(|r: UserRecordView| user_of(r))
}

/// The projects that rows stand for, row by row.
pub open spec fn projects_of(records: Seq<ProjectRecordView>) -> Seq<ProjectView> {
    records.map_values(|r: ProjectRecordView| project_of(r))
}

/// The user that a row stands for.
pub fn user_from(record: UserRecord) -> (user: User)
    ensures
        user@ == user_of(record@),
{
    User {
        id: record.id,
        username: record.username,
        name: record.name,
        state: owned("active"),
        email: record.email,
    }
}

/// The project that a row stands for.
pub fn project_from(record: ProjectRecord) -> (project: Project)
    ensures
        project@ == project_of(record@),
{
    let topics = match &record.topics {
        Some(cell) => parse_topics(cell.as_str()),
        None => {
            let none: Vec<String> = Vec::new();
            assert(views(none@) == Seq::<Seq<char>>::empty());
            none
        },
    };
    Project {
        id: record.id,
        path_with_namespace: record.path_with_namespace,
        name: record.name,
        description: record.description,
        default_branch: record.default_branch,
        visibility: match record.visibility {
            Some(v) => v,
            None => owned("private"),
        },
        web_url: match record.web_url {
            Some(u) => u,
            None => String::new(),
        },
        topics,
    }
}

/// A table of targets whose file was found.
#[derive(Debug, Clone, PartialEq, Eq)]
pub struct CsvReader {
    path: String,
}

impl CsvReader {
    /// The path of the file.
    pub closed spec fn location(&self) -> Seq<char> {
        self.path@
    }

    /// The table at `path`. `found` says whether a file is there: without
    /// one there is no table, and the error names the path.
    pub fn new(path: &str, found: bool) -> (reader: Result<CsvReader, CommandError>)
        ensures
            found ==> reader is Ok && reader->Ok_0.location() == path@,
            !found ==> reader is Err && reader->Err_0@ == (CommandErrorView::TableMissing {
                path: path@,
            }),
    {
        if found {
            Ok(CsvReader { path: owned(path) })
        } else {
            Err(CommandError::TableMissing { path: owned(path) })
        }
    }

    /// The path of the file.
    pub fn path(&self) -> (path: &str)
        ensures
            path@ == self.location(),
    {
        self.path.as_str()
    }

    /// The users that the rows of the table stand for, in the order of the rows.
    pub fn read_users(&self, rows: Vec<UserRecord>) -> (users: Vec<User>)
        ensures
            views(users@) == users_of(views(rows@)),
    {
        let ghost all = rows@;
        let mut users: Vec<User> = Vec::new();
        assert(views(users@) == users_of(views(all.take(0))));
        for record in iter: rows
            invariant
                iter.seq() == all,
                views(users@) == users_of(views(all.take(iter.index()))),
        {
            let ghost k = iter.index();
            let user = user_from(record);
            proof {
                lemma_views_push(users@, user);
                assert(all.take(k + 1) == all.take(k).push(all[k]));
                assert(users_of(views(all.take(k + 1))) == users_of(views(all.take(k))).push(
                    user_of(all[k]@),
                ));
            }
            users.push(user);
        }
        assert(all.take(all.len() as int) == all);
        users
    }

    /// The projects that the rows of the table stand for, in the order of
    /// the rows.
    pub fn read_projects(&self, rows: Vec<ProjectRecord>) -> (projects: Vec<Project>)
        ensures
            views(projects@) == projects_of(views(rows@)),
    {
        let ghost all = rows@;
        let mut projects: Vec<Project> = Vec::new();
        assert(views(projects@) == projects_of(views(all.take(0))));
        for record in iter: rows
            invariant
                iter.seq() == all,
                views(projects@) == projects_of(views(all.take(iter.index()))),
        {
            let ghost k = iter.index();
            let project = project_from(record);
            proof {
                lemma_views_push(projects@, project);
                assert(all.take(k + 1) == all.take(k).push(all[k]));
                assert(projects_of(views(all.take(k + 1))) == projects_of(
                    views(all.take(k)),
                ).push(project_of(all[k]@)));
            }
            projects.push(project);
        }
        assert(all.take(all.len() as int) == all);
        projects
    }
}

} // verus!
