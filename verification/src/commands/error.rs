//! Why a command ended without having done its work.

use vstd::prelude::*;
use crate::gitlab::exchange::{Failure, FailureView};
use crate::text::{join, owned};

verus! {

/// Why a command ended without having done its work. The first variants are
/// errors of usage, found before anything is sent; the others say which
/// target failed, and why.
#[derive(Debug, Clone, PartialEq, Eq)]
pub enum CommandError {
    /// No way of choosing the projects was given.
    NoProjects,
    /// No way of choosing the users was given.
    NoUsers,
    /// More than one way of choosing the targets was given.
    Conflict,
    /// No topic was left after the white space around each was removed.
    NoTopics,
    /// The table of targets is not a CSV file. `extension` is the one its
    /// name has, empty if it has none.
    UnsupportedFormat { extension: String },
    /// No file is at the path of the table of targets.
    TableMissing { path: String },
    /// The table of targets could not be read.
    TableUnreadable { path: String, reason: String },
    /// The file to upload could not be read as text.
    ContentUnreadable { path: String, reason: String },
    /// The file to upload is too large for its encoded form to be held.
    ContentTooLarge { path: String },
    /// A target could not be looked up. `target` is the token that names
    /// it, or the address of the listing that was to give it.
    Lookup { target: String, cause: Failure },
    /// The topics of a project could not be replaced. The project is given
    /// by its number and by its path.
    Topics { project_id: u64, project: String, cause: Failure },
    /// A file could not be written: `existed` says whether it was an update.
    FileWrite {
        existed: bool,
        file: String,
        branch: String,
        project_id: u64,
        project: String,
        cause: Failure,
    },
    /// A membership could not be granted. User and project are each given
    /// by number and by name.
    Grant { user_id: u64, user: String, project_id: u64, project: String, cause: Failure },
    /// A membership could not be revoked.
    Revoke { user_id: u64, user: String, project_id: u64, project: String, cause: Failure },
    /// What the driver reported does not answer what it was asked to do.
    Unexpected,
}

/// What a [`CommandError`] holds, as mathematical values.
pub enum CommandErrorView {
    NoProjects,
    NoUsers,
    Conflict,
    NoTopics,
    UnsupportedFormat { extension: Seq<char> },
    TableMissing { path: Seq<char> },
    TableUnreadable { path: Seq<char>, reason: Seq<char> },
    ContentUnreadable { path: Seq<char>, reason: Seq<char> },
    ContentTooLarge { path: Seq<char> },
    Lookup { target: Seq<char>, cause: FailureView },
    Topics { project_id: u64, project: Seq<char>, cause: FailureView },
    FileWrite {
        existed: bool,
        file: Seq<char>,
        branch: Seq<char>,
        project_id: u64,
        project: Seq<char>,
        cause: FailureView,
    },
    Grant { user_id: u64, user: Seq<char>, project_id: u64, project: Seq<char>, cause: FailureView },
    Revoke {
        user_id: u64,
        user: Seq<char>,
        project_id: u64,
        project: Seq<char>,
        cause: FailureView,
    },
    Unexpected,
}

impl View for CommandError {
    type V = CommandErrorView;

    open spec fn view(&self) -> CommandErrorView {
        match self {
            CommandError::NoProjects => CommandErrorView::NoProjects,
            CommandError::NoUsers => CommandErrorView::NoUsers,
            CommandError::Conflict => CommandErrorView::Conflict,
            CommandError::NoTopics => CommandErrorView::NoTopics,
            CommandError::UnsupportedFormat { extension } => CommandErrorView::UnsupportedFormat {
                extension: extension@,
            },
            CommandError::TableMissing { path } => CommandErrorView::TableMissing { path: path@ },
            CommandError::TableUnreadable { path, reason } => CommandErrorView::TableUnreadable {
                path: path@,
                reason: reason@,
            },
            CommandError::ContentUnreadable {
                path,
                reason,
            } => CommandErrorView::ContentUnreadable { path: path@, reason: reason@ },
            CommandError::ContentTooLarge { path } => CommandErrorView::ContentTooLarge {
                path: path@,
            },
            CommandError::Lookup { target, cause } => CommandErrorView::Lookup {
                target: target@,
                cause: cause@,
            },
            CommandError::Topics { project_id, project, cause } => CommandErrorView::Topics {
                project_id: *project_id,
                project: project@,
                cause: cause@,
            },
            CommandError::FileWrite {
                existed,
                file,
                branch,
                project_id,
                project,
                cause,
            } => CommandErrorView::FileWrite {
                existed: *existed,
                file: file@,
                branch: branch@,
                project_id: *project_id,
                project: project@,
                cause: cause@,
            },
            CommandError::Grant {
                user_id,
                user,
                project_id,
                project,
                cause,
            } => CommandErrorView::Grant {
                user_id: *user_id,
                user: user@,
                project_id: *project_id,
                project: project@,
                cause: cause@,
            },
            CommandError::Revoke {
                user_id,
                user,
                project_id,
                project,
                cause,
            } => CommandErrorView::Revoke {
                user_id: *user_id,
                user: user@,
                project_id: *project_id,
                project: project@,
                cause: cause@,
            },
            CommandError::Unexpected => CommandErrorView::Unexpected,
        }
    }
}

impl CommandErrorView {
    /// The error in words. An error about a target names the target; the
    /// cause below it has words of its own.
    pub open spec fn message(self) -> Seq<char> {
        match self {
            CommandErrorView::NoProjects =>
                "Either --project-file, --project-ids, or --topic must be provided"@,
            CommandErrorView::NoUsers => "Either --user-file or --user-ids must be provided"@,
            CommandErrorView::Conflict => "Only one way of choosing the targets may be given"@,
            CommandErrorView::NoTopics => "No valid topics provided"@,
            CommandErrorView::UnsupportedFormat { extension } => "Unsupported file format: "@
                + extension + ". Only CSV files are supported."@,
            CommandErrorView::TableMissing { path } => "CSV file not found: "@ + path,
            CommandErrorView::TableUnreadable { path, reason } => "Failed to read CSV file: "@
                + path,
            CommandErrorView::ContentUnreadable { path, reason } => "Failed to read file: "@
                + path,
            CommandErrorView::ContentTooLarge { path } => "File too large: "@ + path,
            CommandErrorView::Lookup { target, cause } => cause.message(),
            CommandErrorView::Topics { project, cause, .. } => "Failed to update topics for project "@
                + project,
            CommandErrorView::FileWrite { existed, file, project, cause, .. } => (if existed {
                "Failed to update file "@
            } else {
                "Failed to create file "@
            }) + file + " in project "@ + project,
            CommandErrorView::Grant { user, project, cause, .. } => "Failed to add user "@ + user
                + " to project "@ + project,
            CommandErrorView::Revoke { user, project, cause, .. } => "Failed to remove user "@ + user
                + " from project "@ + project,
            CommandErrorView::Unexpected => "Unexpected event"@,
        }
    }

    /// What lies below the error, if anything: the failure of the call to
    /// the remote API, or the reason a file could not be read.
    pub open spec fn cause(self) -> Option<Seq<char>> {
        match self {
            CommandErrorView::TableUnreadable { path, reason } => Some(reason),
            CommandErrorView::ContentUnreadable { path, reason } => Some(reason),
            CommandErrorView::Topics { project, cause, .. } => Some(cause.message()),
            CommandErrorView::FileWrite { existed, file, project, cause, .. } => Some(
                cause.message(),
            ),
            CommandErrorView::Grant { user, project, cause, .. } => Some(cause.message()),
            CommandErrorView::Revoke { user, project, cause, .. } => Some(cause.message()),
            _ => None,
        }
    }
}

fn about(prefix: &str, first: &str, middle: &str, second: &str) -> (text: String)
    ensures
        text@ == prefix@ + first@ + middle@ + second@,
{
    let mut text = join(prefix, first);
    text.append(middle);
    text.append(second);
    text
}

impl CommandError {
    /// The error in words.
    pub fn message(&self) -> (text: String)
        ensures
            text@ == self@.message(),
    {
        match self {
            CommandError::NoProjects => owned(
                "Either --project-file, --project-ids, or --topic must be provided",
            ),
            CommandError::NoUsers => owned("Either --user-file or --user-ids must be provided"),
            CommandError::Conflict => owned("Only one way of choosing the targets may be given"),
            CommandError::NoTopics => owned("No valid topics provided"),
            CommandError::UnsupportedFormat { extension } => {
                let mut text = join("Unsupported file format: ", extension.as_str());
                text.append(". Only CSV files are supported.");
                text
            },
            CommandError::TableMissing { path } => join("CSV file not found: ", path.as_str()),
            CommandError::TableUnreadable { path, reason } => join(
                "Failed to read CSV file: ",
                path.as_str(),
            ),
            CommandError::ContentUnreadable { path, reason } => join(
                "Failed to read file: ",
                path.as_str(),
            ),
            CommandError::ContentTooLarge { path } => join("File too large: ", path.as_str()),
            CommandError::Lookup { target, cause } => cause.message(),
            CommandError::Topics { project, cause, .. } => join(
                "Failed to update topics for project ",
                project.as_str(),
            ),
            CommandError::FileWrite { existed, file, project, cause, .. } => {
                if *existed {
                    about("Failed to update file ", file.as_str(), " in project ", project.as_str())
                } else {
                    about("Failed to create file ", file.as_str(), " in project ", project.as_str())
                }
            },
            CommandError::Grant { user, project, cause, .. } => about(
                "Failed to add user ",
                user.as_str(),
                " to project ",
                project.as_str(),
            ),
            CommandError::Revoke { user, project, cause, .. } => about(
                "Failed to remove user ",
                user.as_str(),
                " from project ",
                project.as_str(),
            ),
            CommandError::Unexpected => owned("Unexpected event"),
        }
    }

    /// What lies below the error, if anything.
    pub fn cause(&self) -> (text: Option<String>)
        ensures
            match self@.cause() {
                Some(t) => text is Some && text->Some_0@ == t,
                None => text is None,
            },
    {
        match self {
            CommandError::TableUnreadable { path, reason } => Some(reason.clone()),
            CommandError::ContentUnreadable { path, reason } => Some(reason.clone()),
            CommandError::Topics { project, cause, .. } => Some(cause.message()),
            CommandError::FileWrite { existed, file, project, cause, .. } => Some(
                cause.message(),
            ),
            CommandError::Grant { user, project, cause, .. } => Some(cause.message()),
            CommandError::Revoke { user, project, cause, .. } => Some(cause.message()),
            _ => None,
        }
    }
}

} // verus!
