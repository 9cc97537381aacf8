//! The command on files: writing one local file into the repository of each
//! project, as a new file where there is none and as an update where there is.

use vstd::prelude::*;
use vstd::utf8::encode_utf8;
use crate::commands::content::{rewrite, rewritten};
use crate::commands::driver::{Action, ActionView, Event, EventView, Line, LineView};
use crate::commands::error::{CommandError, CommandErrorView};
use crate::commands::targets::{
    optional_texts, ProjectResolution, ProjectResolutionView, ProjectResolver,
    ProjectResolverView, ProjectTargets, ProjectTargetsView,
};
use crate::encoding::base64_fits;
use crate::gitlab::client::GitLabClient;
use crate::gitlab::exchange::{failure_of, Failure};
use crate::gitlab::files::{encoded_content, file_found, file_probe, file_write, FilesApi};
use crate::models::project::{optional_text, Project, ProjectView};
use crate::text::{owned, views};

verus! {

/// The arguments of the command that writes a file.
#[derive(Debug, Clone, PartialEq, Eq)]
pub struct UpdateFileArgs {
    /// The path of the local file whose content is written.
    pub file_path: String,
    /// The path of the file in each repository.
    pub target_path: String,
    /// The message of the commit.
    pub commit_message: String,
    /// The branch to write to; without one, each project's own default.
    pub branch: Option<String>,
    /// The projects to write to.
    pub projects: ProjectTargets,
    /// The changes to make to the content before it is written, each
    /// written `old:new`.
    pub changes: Option<Vec<String>>,
}

/// The commands on files.
#[derive(Debug, Clone, PartialEq, Eq)]
pub enum FileSubcommands {
    Update(UpdateFileArgs),
}

/// A command on files.
#[derive(Debug, Clone, PartialEq, Eq)]
pub struct FileCommands {
    pub command: FileSubcommands,
}

/// What a command on files holds, as mathematical values.
pub struct FileCommandsView {
    pub file_path: Seq<char>,
    pub target_path: Seq<char>,
    pub commit_message: Seq<char>,
    pub branch: Option<Seq<char>>,
    pub projects: ProjectTargetsView,
    pub changes: Option<Seq<Seq<char>>>,
}

impl View for UpdateFileArgs {
    type V = FileCommandsView;

    open spec fn view(&self) -> FileCommandsView {
        FileCommandsView {
            file_path: self.file_path@,
            target_path: self.target_path@,
            commit_message: self.commit_message@,
            branch: optional_text(self.branch),
            projects: self.projects@,
            changes: optional_texts(self.changes),
        }
    }
}

impl View for FileCommands {
    type V = FileCommandsView;

    open spec fn view(&self) -> FileCommandsView {
        match self.command {
            FileSubcommands::Update(args) => args@,
        }
    }
}

/// What is written, before the content is known.
#[derive(Debug, Clone, PartialEq, Eq)]
pub struct UploadPlan {
    pub file_path: String,
    pub target_path: String,
    pub commit_message: String,
    pub branch: Option<String>,
    pub changes: Option<Vec<String>>,
}

/// What an [`UploadPlan`] holds, as mathematical values.
pub struct UploadPlanView {
    pub file_path: Seq<char>,
    pub target_path: Seq<char>,
    pub commit_message: Seq<char>,
    pub branch: Option<Seq<char>>,
    pub changes: Option<Seq<Seq<char>>>,
}

impl View for UploadPlan {
    type V = UploadPlanView;

    open spec fn view(&self) -> UploadPlanView {
        UploadPlanView {
            file_path: self.file_path@,
            target_path: self.target_path@,
            commit_message: self.commit_message@,
            branch: optional_text(self.branch),
            changes: optional_texts(self.changes),
        }
    }
}

/// What is written: the same file, message and content for every project.
#[derive(Debug, Clone, PartialEq, Eq)]
pub struct Upload {
    pub target_path: String,
    pub commit_message: String,
    pub branch: Option<String>,
    /// The content as it travels.
    pub encoded: String,
}

/// What an [`Upload`] holds, as mathematical values.
pub struct UploadView {
    pub target_path: Seq<char>,
    pub commit_message: Seq<char>,
    pub branch: Option<Seq<char>>,
    pub encoded: Seq<char>,
}

impl View for Upload {
    type V = UploadView;

    open spec fn view(&self) -> UploadView {
        UploadView {
            target_path: self.target_path@,
            commit_message: self.commit_message@,
            branch: optional_text(self.branch),
            encoded: self.encoded@,
        }
    }
}

/// The branch of `project` that is written to: the one the caller named,
/// else the project's default branch, else `main`.
pub open spec fn branch_for(named: Option<Seq<char>>, project: ProjectView) -> Seq<char> {
    match named {
        Some(branch) => branch,
        None => match project.default_branch {
            Some(branch) => branch,
            None => "main"@,
        },
    }
}

/// The content that is written: the text of the local file after the
/// changes, if any were given.
pub open spec fn final_content(text: Seq<char>, changes: Option<Seq<Seq<char>>>) -> Seq<char> {
    match changes {
        Some(list) => rewritten(text, list),
        None => text,
    }
}

/// The branch of `project` that is written to.
pub fn choose_branch(named: &Option<String>, project: &Project) -> (branch: String)
    ensures
        branch@ == branch_for(optional_text(*named), project@),
{
    match named {
        Some(branch) => branch.clone(),
        None => match &project.default_branch {
            Some(branch) => branch.clone(),
            None => owned("main"),
        },
    }
}

/// A command on files under way.
#[derive(Debug, Clone, PartialEq, Eq)]
pub enum FileRun {
    /// The projects are being resolved.
    Resolving { client: GitLabClient, plan: UploadPlan, resolver: ProjectResolver },
    /// The local file has been asked for.
    Reading { client: GitLabClient, plan: UploadPlan, projects: Vec<Project> },
    /// The project behind the first `done` has been probed for the file.
    Probing { client: GitLabClient, upload: Upload, projects: Vec<Project>, done: usize },
    /// The file has been sent to the project behind the first `done`, as an
    /// update if `exists`.
    Writing {
        client: GitLabClient,
        upload: Upload,
        projects: Vec<Project>,
        done: usize,
        exists: bool,
    },
    /// The command is over.
    Over,
}

/// What a [`FileRun`] holds, as mathematical values.
pub enum FileRunView {
    Resolving { base: Seq<char>, plan: UploadPlanView, resolver: ProjectResolverView },
    Reading { base: Seq<char>, plan: UploadPlanView, projects: Seq<ProjectView> },
    Probing { base: Seq<char>, upload: UploadView, projects: Seq<ProjectView>, done: nat },
    Writing {
        base: Seq<char>,
        upload: UploadView,
        projects: Seq<ProjectView>,
        done: nat,
        exists: bool,
    },
    Over,
}

impl View for FileRun {
    type V = FileRunView;

    open spec fn view(&self) -> FileRunView {
        match self {
            FileRun::Resolving { client, plan, resolver } => FileRunView::Resolving {
                base: client.base(),
                plan: plan@,
                resolver: resolver@,
            },
            FileRun::Reading { client, plan, projects } => FileRunView::Reading {
                base: client.base(),
                plan: plan@,
                projects: views(projects@),
            },
            FileRun::Probing { client, upload, projects, done } => FileRunView::Probing {
                base: client.base(),
                upload: upload@,
                projects: views(projects@),
                done: *done as nat,
            },
            FileRun::Writing { client, upload, projects, done, exists } => FileRunView::Writing {
                base: client.base(),
                upload: upload@,
                projects: views(projects@),
                done: *done as nat,
                exists: *exists,
            },
            FileRun::Over => FileRunView::Over,
        }
    }
}

impl FileRunView {
    /// The command over, with its last action.
    pub open spec fn over(action: ActionView) -> (FileRunView, ActionView) {
        (FileRunView::Over, action)
    }

    /// Where the command stands when the first `done` of `projects` have the
    /// file: done if that is all of them, else at the probe of the next.
    pub open spec fn uploading(
        base: Seq<char>,
        upload: UploadView,
        projects: Seq<ProjectView>,
        done: nat,
    ) -> (FileRunView, ActionView) {
        if done >= projects.len() {
            Self::over(ActionView::Finish { output: Seq::empty() })
        } else {
            (
                FileRunView::Probing { base, upload, projects, done },
                ActionView::Send(
                    file_probe(
                        base,
                        projects[done as int].id,
                        upload.target_path,
                        branch_for(upload.branch, projects[done as int]),
                    ),
                ),
            )
        }
    }

    /// Where the command stands while its projects are resolved. Once they
    /// are, the local file is read.
    pub open spec fn resolving(
        base: Seq<char>,
        plan: UploadPlanView,
        resolution: ProjectResolutionView,
    ) -> (FileRunView, ActionView) {
        match resolution {
            ProjectResolutionView::Next(resolver, action) => (
                FileRunView::Resolving { base, plan, resolver },
                action,
            ),
            ProjectResolutionView::Done(projects) => (
                FileRunView::Reading { base, plan, projects },
                ActionView::ReadText { path: plan.file_path },
            ),
            ProjectResolutionView::Failed(error) => Self::over(ActionView::Abort(error)),
        }
    }

    /// How `command` begins. An error of usage ends it before anything is
    /// asked of the driver.
    pub open spec fn begin(base: Seq<char>, command: FileCommandsView) -> (
        FileRunView,
        ActionView,
    ) {
        match command.projects.selection() {
            Err(error) => Self::over(ActionView::Abort(error)),
            Ok(selection) => Self::resolving(
                base,
                UploadPlanView {
                    file_path: command.file_path,
                    target_path: command.target_path,
                    commit_message: command.commit_message,
                    branch: command.branch,
                    changes: command.changes,
                },
                ProjectResolverView::begin(base, selection),
            ),
        }
    }

    /// Where the command stands after `event`.
    ///
    /// The text of the local file is changed as the caller asked and
    /// encoded once; every project gets the same. For each project the file
    /// is probed first: if the probe finds it, it is updated, and if the
    /// probe does not find it, for whatever reason, it is created. A write
    /// that fails ends the command with an error that names the file and
    /// the project, and the projects behind it are not touched.
    pub open spec fn after(self, event: EventView) -> (FileRunView, ActionView) {
        match self {
            FileRunView::Resolving { base, plan, resolver } => Self::resolving(
                base,
                plan,
                resolver.after(event),
            ),
            FileRunView::Reading { base, plan, projects } => match event {
                EventView::Text(text) => {
                    let content = final_content(text, plan.changes);
                    if base64_fits(encode_utf8(content).len()) {
                        Self::uploading(
                            base,
                            UploadView {
                                target_path: plan.target_path,
                                commit_message: plan.commit_message,
                                branch: plan.branch,
                                encoded: encoded_content(content),
                            },
                            projects,
                            0,
                        )
                    } else {
                        Self::over(
                            ActionView::Abort(
                                CommandErrorView::ContentTooLarge { path: plan.file_path },
                            ),
                        )
                    }
                },
                EventView::TextUnreadable { reason } => Self::over(
                    ActionView::Abort(
                        CommandErrorView::ContentUnreadable { path: plan.file_path, reason },
                    ),
                ),
                _ => Self::over(ActionView::Abort(CommandErrorView::Unexpected)),
            },
            FileRunView::Probing { base, upload, projects, done } => match event {
                EventView::Reply(reply) => if done >= projects.len() {
                    Self::over(ActionView::Abort(CommandErrorView::Unexpected))
                } else {
                    (
                        FileRunView::Writing {
                            base,
                            upload,
                            projects,
                            done,
                            exists: file_found(reply),
                        },
                        ActionView::Send(
                            file_write(
                                base,
                                file_found(reply),
                                projects[done as int].id,
                                upload.target_path,
                                branch_for(upload.branch, projects[done as int]),
                                upload.commit_message,
                                upload.encoded,
                            ),
                        ),
                    )
                },
                _ => Self::over(ActionView::Abort(CommandErrorView::Unexpected)),
            },
            FileRunView::Writing { base, upload, projects, done, exists } => match event {
                EventView::Reply(reply) => if done >= projects.len() {
                    Self::over(ActionView::Abort(CommandErrorView::Unexpected))
                } else if reply.succeeded() {
                    Self::uploading(base, upload, projects, done + 1)
                } else {
                    Self::over(
                        ActionView::Abort(
                            CommandErrorView::FileWrite {
                                existed: exists,
                                file: upload.target_path,
                                branch: branch_for(upload.branch, projects[done as int]),
                                project_id: projects[done as int].id,
                                project: projects[done as int].path_with_namespace,
                                cause: failure_of(reply),
                            },
                        ),
                    )
                },
                _ => Self::over(ActionView::Abort(CommandErrorView::Unexpected)),
            },
            FileRunView::Over => Self::over(ActionView::Abort(CommandErrorView::Unexpected)),
        }
    }
}

impl FileRun {
    fn uploading(client: GitLabClient, upload: Upload, projects: Vec<Project>, done: usize) -> (next:
        (FileRun, Action))
        ensures
            (next.0@, next.1@) == FileRunView::uploading(
                client.base(),
                upload@,
                views(projects@),
                done as nat,
            ),
    {
        if done >= projects.len() {
            let output: Vec<Line> = Vec::new();
            assert(views(output@) == Seq::<LineView>::empty());
            (FileRun::Over, Action::Finish { output })
        } else {
            let branch = choose_branch(&upload.branch, &projects[done]);
            let request = client.files().file_exists(
                projects[done].id,
                upload.target_path.as_str(),
                branch.as_str(),
            );
            (FileRun::Probing { client, upload, projects, done }, Action::Send(request))
        }
    }

    fn resolving(client: GitLabClient, plan: UploadPlan, resolution: ProjectResolution) -> (next: (
        FileRun,
        Action,
    ))
        ensures
            (next.0@, next.1@) == FileRunView::resolving(client.base(), plan@, resolution@),
    {
        match resolution {
            ProjectResolution::Next(resolver, action) => (
                FileRun::Resolving { client, plan, resolver },
                action,
            ),
            ProjectResolution::Done(projects) => {
                let path = plan.file_path.clone();
                (FileRun::Reading { client, plan, projects }, Action::ReadText { path })
            },
            ProjectResolution::Failed(error) => (FileRun::Over, Action::Abort(error)),
        }
    }

    /// Takes what the driver reports and says what it is to do next.
    pub fn step(self, event: Event) -> (next: (FileRun, Action))
        ensures
            (next.0@, next.1@) == self@.after(event@),
    {
        match self {
            FileRun::Resolving { client, plan, resolver } => {
                let resolution = resolver.step(event);
                Self::resolving(client, plan, resolution)
            },
            FileRun::Reading { client, plan, projects } => match event {
                Event::Text(text) => {
                    let content = match &plan.changes {
                        Some(list) => rewrite(text.as_str(), list),
                        None => text,
                    };
                    match FilesApi::encode(content.as_str()) {
                        Some(encoded) => Self::uploading(
                            client,
                            Upload {
                                target_path: plan.target_path,
                                commit_message: plan.commit_message,
                                branch: plan.branch,
                                encoded,
                            },
                            projects,
                            0,
                        ),
                        None => (
                            FileRun::Over,
                            Action::Abort(CommandError::ContentTooLarge { path: plan.file_path }),
                        ),
                    }
                },
                Event::TextUnreadable { reason } => (
                    FileRun::Over,
                    Action::Abort(
                        CommandError::ContentUnreadable { path: plan.file_path, reason },
                    ),
                ),
                _ => (FileRun::Over, Action::Abort(CommandError::Unexpected)),
            },
            FileRun::Probing { client, upload, projects, done } => match event {
                Event::Reply(reply) => {
                    if done >= projects.len() {
                        return (FileRun::Over, Action::Abort(CommandError::Unexpected));
                    }
                    let exists = FilesApi::found(&reply);
                    let branch = choose_branch(&upload.branch, &projects[done]);
                    let request = client.files().write_file(
                        exists,
                        projects[done].id,
                        upload.target_path.as_str(),
                        branch.as_str(),
                        upload.commit_message.as_str(),
                        upload.encoded.as_str(),
                    );
                    (
                        FileRun::Writing { client, upload, projects, done, exists },
                        Action::Send(request),
                    )
                },
                _ => (FileRun::Over, Action::Abort(CommandError::Unexpected)),
            },
            FileRun::Writing { client, upload, projects, done, exists } => match event {
                Event::Reply(reply) => {
                    if done >= projects.len() {
                        return (FileRun::Over, Action::Abort(CommandError::Unexpected));
                    }
                    if reply.succeeded() {
                        Self::uploading(client, upload, projects, done + 1)
                    } else {
                        (
                            FileRun::Over,
                            Action::Abort(
                                CommandError::FileWrite {
                                    existed: exists,
                                    branch: choose_branch(&upload.branch, &projects[done]),
                                    file: upload.target_path,
                                    project_id: projects[done].id,
                                    project: projects[done].path_with_namespace.clone(),
                                    cause: Failure::of_reply(reply),
                                },
                            ),
                        )
                    }
                },
                _ => (FileRun::Over, Action::Abort(CommandError::Unexpected)),
            },
            FileRun::Over => (FileRun::Over, Action::Abort(CommandError::Unexpected)),
        }
    }
}

impl FileCommands {
    /// Begins the command: the first thing the driver is to do, and the
    /// state that takes its report.
    pub fn execute(self, client: &GitLabClient) -> (next: (FileRun, Action))
        ensures
            (next.0@, next.1@) == FileRunView::begin(client.base(), self@),
    {
        match self.command {
            FileSubcommands::Update(args) => match args.projects.select() {
                Err(error) => (FileRun::Over, Action::Abort(error)),
                Ok(selection) => {
                    let plan = UploadPlan {
                        file_path: args.file_path,
                        target_path: args.target_path,
                        commit_message: args.commit_message,
                        branch: args.branch,
                        changes: args.changes,
                    };
                    let resolution = ProjectResolver::begin(client, selection);
                    FileRun::resolving(client.duplicate(), plan, resolution)
                },
            },
        }
    }
}

} // verus!
