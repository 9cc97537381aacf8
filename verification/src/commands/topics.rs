//! The commands on topics: adding topics to projects, removing topics from
//! them, and listing the topics they have.

use vstd::prelude::*;
use crate::commands::driver::{Action, ActionView, Event, EventView, Line, LineView};
use crate::commands::error::{CommandError, CommandErrorView};
use crate::commands::report::{report_topics, topics_report};
use crate::commands::tags::{
    add_topics, clean_topics, cleaned, is_set, lemma_added, lemma_without, remove_topics,
    with_added, without,
};
use crate::commands::targets::{
    reported,
    ProjectResolution, ProjectResolutionView, ProjectResolver, ProjectResolverView,
    ProjectTargets, ProjectTargetsView,
};
use crate::gitlab::client::GitLabClient;
use crate::gitlab::exchange::ReplyView;
use crate::gitlab::projects::{project_in, topics_update, ProjectsApi};
use crate::models::project::{Project, ProjectView};
use crate::text::{copy_strings, views};

verus! {

/// The arguments of the command that adds topics.
#[derive(Debug, Clone, PartialEq, Eq)]
pub struct AddTopicsArgs {
    /// The topics to add, as the caller wrote them.
    pub topics: Vec<String>,
    /// The projects to add them to.
    pub projects: ProjectTargets,
}

/// The arguments of the command that removes topics.
#[derive(Debug, Clone, PartialEq, Eq)]
pub struct RemoveTopicsArgs {
    /// The topics to remove, as the caller wrote them.
    pub topics: Vec<String>,
    /// The projects to remove them from.
    pub projects: ProjectTargets,
}

/// The arguments of the command that lists topics.
#[derive(Debug, Clone, PartialEq, Eq)]
pub struct ListTopicsArgs {
    /// The projects whose topics are listed.
    pub projects: ProjectTargets,
}

/// The three commands on topics.
#[derive(Debug, Clone, PartialEq, Eq)]
pub enum TopicsSubcommands {
    Add(AddTopicsArgs),
    Remove(RemoveTopicsArgs),
    List(ListTopicsArgs),
}

/// A command on topics.
#[derive(Debug, Clone, PartialEq, Eq)]
pub struct TopicsCommands {
    pub command: TopicsSubcommands,
}

/// What a command on topics holds, as mathematical values.
pub enum TopicsCommandsView {
    Add { topics: Seq<Seq<char>>, projects: ProjectTargetsView },
    Remove { topics: Seq<Seq<char>>, projects: ProjectTargetsView },
    List { projects: ProjectTargetsView },
}

impl View for TopicsCommands {
    type V = TopicsCommandsView;

    open spec fn view(&self) -> TopicsCommandsView {
        match self.command {
            TopicsSubcommands::Add(args) => TopicsCommandsView::Add {
                topics: views(args.topics@),
                projects: args.projects@,
            },
            TopicsSubcommands::Remove(args) => TopicsCommandsView::Remove {
                topics: views(args.topics@),
                projects: args.projects@,
            },
            TopicsSubcommands::List(args) => TopicsCommandsView::List { projects: args.projects@ },
        }
    }
}

/// What is to happen to the topics of each project.
#[derive(Debug, Clone, PartialEq, Eq)]
pub enum TopicChange {
    /// These topics are added.
    Add(Vec<String>),
    /// These topics are removed.
    Remove(Vec<String>),
    /// Nothing: the topics are shown.
    Show,
}

/// What a [`TopicChange`] holds, as mathematical values.
pub enum TopicChangeView {
    Add(Seq<Seq<char>>),
    Remove(Seq<Seq<char>>),
    Show,
}

impl View for TopicChange {
    type V = TopicChangeView;

    open spec fn view(&self) -> TopicChangeView {
        match self {
            TopicChange::Add(topics) => TopicChangeView::Add(views(topics@)),
            TopicChange::Remove(topics) => TopicChangeView::Remove(views(topics@)),
            TopicChange::Show => TopicChangeView::Show,
        }
    }
}

impl TopicChangeView {
    /// The topics that a project with the topics `current` is to have.
    pub open spec fn applied(self, current: Seq<Seq<char>>) -> Seq<Seq<char>> {
        match self {
            TopicChangeView::Add(topics) => with_added(current, topics),
            TopicChangeView::Remove(topics) => without(current, topics),
            TopicChangeView::Show => current,
        }
    }
}

/// Whatever topics a project has, what an addition or a removal submits for
/// it is a set: no topic stands twice in it and none is empty.
pub proof fn lemma_submitted_is_a_set(change: TopicChangeView, current: Seq<Seq<char>>)
    requires
        !(change is Show),
    ensures
        is_set(change.applied(current)),
        change.applied(current).no_duplicates(),
{
    match change {
        TopicChangeView::Add(topics) => lemma_added(current, topics),
        TopicChangeView::Remove(topics) => lemma_without(current, topics),
        TopicChangeView::Show => {},
    }
}

impl TopicChange {
    /// The topics that a project with the topics `current` is to have.
    pub fn apply(&self, current: &Vec<String>) -> (topics: Vec<String>)
        ensures
            views(topics@) == self@.applied(views(current@)),
    {
        match self {
            TopicChange::Add(new) => add_topics(current, new),
            TopicChange::Remove(removed) => remove_topics(current, removed),
            TopicChange::Show => copy_strings(current),
        }
    }
}

/// A command on topics under way.
#[derive(Debug, Clone, PartialEq, Eq)]
pub enum TopicsRun {
    /// The projects are being resolved.
    Resolving { client: GitLabClient, change: TopicChange, resolver: ProjectResolver },
    /// The topics of the project behind the first `done` have been sent.
    Updating { client: GitLabClient, change: TopicChange, projects: Vec<Project>, done: usize },
    /// The command is over.
    Over,
}

/// What a [`TopicsRun`] holds, as mathematical values.
pub enum TopicsRunView {
    Resolving { base: Seq<char>, change: TopicChangeView, resolver: ProjectResolverView },
    Updating { base: Seq<char>, change: TopicChangeView, projects: Seq<ProjectView>, done: nat },
    Over,
}

impl View for TopicsRun {
    type V = TopicsRunView;

    open spec fn view(&self) -> TopicsRunView {
        match self {
            TopicsRun::Resolving { client, change, resolver } => TopicsRunView::Resolving {
                base: client.base(),
                change: change@,
                resolver: resolver@,
            },
            TopicsRun::Updating { client, change, projects, done } => TopicsRunView::Updating {
                base: client.base(),
                change: change@,
                projects: views(projects@),
                done: *done as nat,
            },
            TopicsRun::Over => TopicsRunView::Over,
        }
    }
}

impl TopicsRunView {
    /// The command over, with its last action.
    pub open spec fn over(action: ActionView) -> (TopicsRunView, ActionView) {
        (TopicsRunView::Over, action)
    }

    /// Where the command stands when the first `done` of `projects` have
    /// their new topics: done if that is all of them, else at the request
    /// that replaces the topics of the next project by what the change makes
    /// of the topics it has.
    pub open spec fn updating(
        base: Seq<char>,
        change: TopicChangeView,
        projects: Seq<ProjectView>,
        done: nat,
    ) -> (TopicsRunView, ActionView) {
        if done >= projects.len() {
            Self::over(ActionView::Finish { output: Seq::empty() })
        } else {
            (
                TopicsRunView::Updating { base, change, projects, done },
                ActionView::Send(
                    topics_update(
                        base,
                        projects[done as int].id,
                        change.applied(projects[done as int].topics),
                    ),
                ),
            )
        }
    }

    /// Where the command stands once its projects are resolved.
    pub open spec fn resolved(
        base: Seq<char>,
        change: TopicChangeView,
        projects: Seq<ProjectView>,
    ) -> (TopicsRunView, ActionView) {
        match change {
            TopicChangeView::Show => Self::over(ActionView::Finish { output: topics_report(projects) }),
            _ => Self::updating(base, change, projects, 0),
        }
    }

    /// Where the command stands while its projects are resolved.
    pub open spec fn resolving(
        base: Seq<char>,
        change: TopicChangeView,
        resolution: ProjectResolutionView,
    ) -> (TopicsRunView, ActionView) {
        match resolution {
            ProjectResolutionView::Next(resolver, action) => (
                TopicsRunView::Resolving { base, change, resolver },
                action,
            ),
            ProjectResolutionView::Done(projects) => Self::resolved(base, change, projects),
            ProjectResolutionView::Failed(error) => Self::over(ActionView::Abort(error)),
        }
    }

    /// How the change to the projects chosen by `targets` begins. An error
    /// of usage ends it before anything is asked of the driver.
    pub open spec fn chosen(
        base: Seq<char>,
        change: TopicChangeView,
        targets: ProjectTargetsView,
    ) -> (TopicsRunView, ActionView) {
        match targets.selection() {
            Err(error) => Self::over(ActionView::Abort(error)),
            Ok(selection) => {
                if (change matches TopicChangeView::Add(topics) && topics.len() == 0) || (
                change matches TopicChangeView::Remove(topics) && topics.len() == 0) {
                    Self::over(ActionView::Abort(CommandErrorView::NoTopics))
                } else {
                    Self::resolving(base, change, ProjectResolverView::begin(base, selection))
                }
            },
        }
    }

    /// How `command` begins. The topics that were asked for are made ready
    /// first.
    pub open spec fn begin(base: Seq<char>, command: TopicsCommandsView) -> (
        TopicsRunView,
        ActionView,
    ) {
        match command {
            TopicsCommandsView::Add { topics, projects } => Self::chosen(
                base,
                TopicChangeView::Add(cleaned(topics)),
                projects,
            ),
            TopicsCommandsView::Remove { topics, projects } => Self::chosen(
                base,
                TopicChangeView::Remove(cleaned(topics)),
                projects,
            ),
            TopicsCommandsView::List { projects } => Self::chosen(
                base,
                TopicChangeView::Show,
                projects,
            ),
        }
    }

    /// Where the command stands after `event`.
    ///
    /// While the projects are resolved the resolution goes on. After that
    /// each reply answers the request for one project: a project in the
    /// reply lets the command go on to the next, anything else ends the
    /// command with an error that names the project, and the projects behind
    /// it are not touched.
    pub open spec fn after(self, event: EventView) -> (TopicsRunView, ActionView) {
        match self {
            TopicsRunView::Resolving { base, change, resolver } => Self::resolving(
                base,
                change,
                resolver.after(event),
            ),
            TopicsRunView::Updating { base, change, projects, done } => match event {
                EventView::Reply(reply) => if done >= projects.len() {
                    Self::over(ActionView::Abort(CommandErrorView::Unexpected))
                } else {
                    match project_in(reply) {
                        Ok(_) => Self::updating(base, change, projects, done + 1),
                        Err(cause) => Self::over(
                            ActionView::Abort(
                                CommandErrorView::Topics {
                                    project_id: projects[done as int].id,
                                    project: projects[done as int].path_with_namespace,
                                    cause,
                                },
                            ),
                        ),
                    }
                },
                _ => Self::over(ActionView::Abort(CommandErrorView::Unexpected)),
            },
            TopicsRunView::Over => Self::over(ActionView::Abort(CommandErrorView::Unexpected)),
        }
    }
}

/// Where a command on topics stands after the driver has reported
/// `events`, one after another. Once the command is over, what is reported
/// is not looked at.
pub open spec fn topics_after(
    state: TopicsRunView,
    action: ActionView,
    events: Seq<EventView>,
) -> (TopicsRunView, ActionView)
    decreases events.len(),
{
    if events.len() == 0 || action.is_final() {
        (state, action)
    } else {
        let next = state.after(events.first());
        topics_after(next.0, next.1, events.drop_first())
    }
}

/// The projects get their new topics one after the other, in their order:
/// after replies that each carry a project, the command stands at the
/// project behind those that are done, with the request that replaces its
/// topics by what the change makes of them, or is done if none is left.
pub proof fn lemma_updates_in_order(
    base: Seq<char>,
    change: TopicChangeView,
    projects: Seq<ProjectView>,
    done: nat,
    replies: Seq<ReplyView>,
)
    requires
        done + replies.len() <= projects.len(),
        forall|i: int| 0 <= i < replies.len() ==> project_in(#[trigger] replies[i]) is Ok,
    ensures
        ({
            let start = TopicsRunView::updating(base, change, projects, done);
            topics_after(start.0, start.1, reported(replies)) == TopicsRunView::updating(
                base,
                change,
                projects,
                done + replies.len(),
            )
        }),
    decreases replies.len(),
{
    if replies.len() > 0 {
        assert(reported(replies).first() == EventView::Reply(replies.first()));
        assert(reported(replies).drop_first() == reported(replies.drop_first()));
        assert(project_in(replies[0]) is Ok);
        assert forall|i: int| 0 <= i < replies.drop_first().len() implies project_in(
            #[trigger] replies.drop_first()[i],
        ) is Ok by {
            assert(replies.drop_first()[i] == replies[i + 1]);
        }
        lemma_updates_in_order(base, change, projects, done + 1, replies.drop_first());
    }
}

/// The first update that fails ends the command: the error names the
/// project and carries the failure, and the projects behind it get no
/// request, whatever the driver reports after it.
pub proof fn lemma_updates_stop_at_failure(
    base: Seq<char>,
    change: TopicChangeView,
    projects: Seq<ProjectView>,
    done: nat,
    failed: ReplyView,
    later: Seq<EventView>,
)
    requires
        done < projects.len(),
        project_in(failed) is Err,
    ensures
        ({
            let start = TopicsRunView::updating(base, change, projects, done);
            topics_after(start.0, start.1, seq![EventView::Reply(failed)] + later) == (
                TopicsRunView::Over,
                ActionView::Abort(
                    CommandErrorView::Topics {
                        project_id: projects[done as int].id,
                        project: projects[done as int].path_with_namespace,
                        cause: project_in(failed)->Err_0,
                    },
                ),
            )
        }),
{
    let start = TopicsRunView::updating(base, change, projects, done);
    let events = seq![EventView::Reply(failed)] + later;
    assert(events.first() == EventView::Reply(failed));
    assert(events.drop_first() == later);
    let next = start.0.after(EventView::Reply(failed));
    assert(next.1.is_final());
    assert(topics_after(start.0, start.1, events) == topics_after(next.0, next.1, later));
}

impl TopicsRun {
    fn updating(client: GitLabClient, change: TopicChange, projects: Vec<Project>, done: usize) -> (next:
        (TopicsRun, Action))
        ensures
            (next.0@, next.1@) == TopicsRunView::updating(
                client.base(),
                change@,
                views(projects@),
                done as nat,
            ),
    {
        if done >= projects.len() {
            let output: Vec<Line> = Vec::new();
            assert(views(output@) == Seq::<LineView>::empty());
            (TopicsRun::Over, Action::Finish { output })
        } else {
            let topics = change.apply(&projects[done].topics);
            let request = client.projects().update_topics(projects[done].id, &topics);
            (TopicsRun::Updating { client, change, projects, done }, Action::Send(request))
        }
    }

    fn resolving(client: GitLabClient, change: TopicChange, resolution: ProjectResolution) -> (next:
        (TopicsRun, Action))
        ensures
            (next.0@, next.1@) == TopicsRunView::resolving(client.base(), change@, resolution@),
    {
        match resolution {
            ProjectResolution::Next(resolver, action) => (
                TopicsRun::Resolving { client, change, resolver },
                action,
            ),
            ProjectResolution::Done(projects) => match change {
                TopicChange::Show => (
                    TopicsRun::Over,
                    Action::Finish { output: report_topics(&projects) },
                ),
                _ => Self::updating(client, change, projects, 0),
            },
            ProjectResolution::Failed(error) => (TopicsRun::Over, Action::Abort(error)),
        }
    }

    fn chosen(client: &GitLabClient, change: TopicChange, targets: ProjectTargets) -> (next: (
        TopicsRun,
        Action,
    ))
        ensures
            (next.0@, next.1@) == TopicsRunView::chosen(client.base(), change@, targets@),
    {
        match targets.select() {
            Err(error) => (TopicsRun::Over, Action::Abort(error)),
            Ok(selection) => {
                let empty = match &change {
                    TopicChange::Add(topics) => {
                        assert(views(topics@).len() == topics.len());
                        topics.len() == 0
                    },
                    TopicChange::Remove(topics) => {
                        assert(views(topics@).len() == topics.len());
                        topics.len() == 0
                    },
                    TopicChange::Show => false,
                };
                if empty {
                    (TopicsRun::Over, Action::Abort(CommandError::NoTopics))
                } else {
                    let resolution = ProjectResolver::begin(client, selection);
                    Self::resolving(client.duplicate(), change, resolution)
                }
            },
        }
    }

    /// Takes what the driver reports and says what it is to do next.
    pub fn step(self, event: Event) -> (next: (TopicsRun, Action))
        ensures
            (next.0@, next.1@) == self@.after(event@),
    {
        match self {
            TopicsRun::Resolving { client, change, resolver } => {
                let resolution = resolver.step(event);
                Self::resolving(client, change, resolution)
            },
            TopicsRun::Updating { client, change, projects, done } => match event {
                Event::Reply(reply) => {
                    if done >= projects.len() {
                        return (TopicsRun::Over, Action::Abort(CommandError::Unexpected));
                    }
                    match ProjectsApi::read_project(reply) {
                        Ok(_) => Self::updating(client, change, projects, done + 1),
                        Err(cause) => (
                            TopicsRun::Over,
                            Action::Abort(
                                CommandError::Topics {
                                    project_id: projects[done].id,
                                    project: projects[done].path_with_namespace.clone(),
                                    cause,
                                },
                            ),
                        ),
                    }
                },
                _ => (TopicsRun::Over, Action::Abort(CommandError::Unexpected)),
            },
            TopicsRun::Over => (TopicsRun::Over, Action::Abort(CommandError::Unexpected)),
        }
    }
}

impl TopicsCommands {
    /// Begins the command: the first thing the driver is to do, and the
    /// state that takes its report.
    pub fn execute(self, client: &GitLabClient) -> (next: (TopicsRun, Action))
        ensures
            (next.0@, next.1@) == TopicsRunView::begin(client.base(), self@),
    {
        match self.command {
            TopicsSubcommands::Add(args) => {
                let topics = clean_topics(&args.topics);
                TopicsRun::chosen(client, TopicChange::Add(topics), args.projects)
            },
            TopicsSubcommands::Remove(args) => {
                let topics = clean_topics(&args.topics);
                TopicsRun::chosen(client, TopicChange::Remove(topics), args.projects)
            },
            TopicsSubcommands::List(args) => TopicsRun::chosen(
                client,
                TopicChange::Show,
                args.projects,
            ),
        }
    }
}

} // verus!
