//! The command on projects: listing them, all or those with one topic.

use vstd::prelude::*;
use crate::commands::driver::{Action, ActionView, Event, EventView};
use crate::commands::error::{CommandError, CommandErrorView};
use crate::commands::report::{projects_report, report_projects};
use crate::gitlab::client::GitLabClient;
use crate::gitlab::projects::{
    after_page, all_projects, first_page, page_request, projects_with_topic, PageStep,
    PageStepView, Pager, PagerView,
};
use crate::models::project::optional_text;
use crate::text::{is_word, lower_chars, lowered, owned};

verus! {

/// The arguments of the command that lists projects.
#[derive(Debug, Clone, PartialEq, Eq)]
pub struct ListProjectsArgs {
    /// The topic that the projects must have; without one, all projects.
    pub topic: Option<String>,
    /// How each project is shown: `detailed`, in whatever case, for a block
    /// of lines, anything else for one line.
    pub format: String,
}

/// The commands on projects.
#[derive(Debug, Clone, PartialEq, Eq)]
pub enum ProjectsSubcommands {
    List(ListProjectsArgs),
}

/// A command on projects.
#[derive(Debug, Clone, PartialEq, Eq)]
pub struct ProjectsCommands {
    pub command: ProjectsSubcommands,
}

/// What a command on projects holds, as mathematical values.
pub struct ProjectsCommandsView {
    pub topic: Option<Seq<char>>,
    pub format: Seq<char>,
}

impl View for ProjectsCommands {
    type V = ProjectsCommandsView;

    open spec fn view(&self) -> ProjectsCommandsView {
        match self.command {
            ProjectsSubcommands::List(args) => ProjectsCommandsView {
                topic: optional_text(args.topic),
                format: args.format@,
            },
        }
    }
}

/// Whether `format` asks for each project in full.
pub open spec fn is_detailed(format: Seq<char>) -> bool {
    lowered(format) == "detailed"@
}

/// A command on projects under way.
#[derive(Debug, Clone, PartialEq, Eq)]
pub enum ProjectsRun {
    /// A page of the listing has been asked for.
    Listing { pager: Pager, detailed: bool },
    /// The command is over.
    Over,
}

/// What a [`ProjectsRun`] holds, as mathematical values.
pub enum ProjectsRunView {
    Listing { pager: PagerView, detailed: bool },
    Over,
}

impl View for ProjectsRun {
    type V = ProjectsRunView;

    open spec fn view(&self) -> ProjectsRunView {
        match self {
            ProjectsRun::Listing { pager, detailed } => ProjectsRunView::Listing {
                pager: pager@,
                detailed: *detailed,
            },
            ProjectsRun::Over => ProjectsRunView::Over,
        }
    }
}

impl ProjectsRunView {
    /// Where the command stands with the listing at `step`: at the request
    /// for the next page, or over with the report of all that was listed.
    pub open spec fn listing(listing: Seq<char>, step: PageStepView, detailed: bool) -> (
        ProjectsRunView,
        ActionView,
    ) {
        match step {
            PageStepView::More(pager) => (
                ProjectsRunView::Listing { pager, detailed },
                ActionView::Send(page_request(pager.listing, pager.page)),
            ),
            PageStepView::Done(items) => (
                ProjectsRunView::Over,
                ActionView::Finish { output: projects_report(items, detailed) },
            ),
            PageStepView::Failed(cause) => (
                ProjectsRunView::Over,
                ActionView::Abort(CommandErrorView::Lookup { target: listing, cause }),
            ),
        }
    }

    /// How `command` begins: with the first page of the listing.
    pub open spec fn begin(base: Seq<char>, command: ProjectsCommandsView) -> (
        ProjectsRunView,
        ActionView,
    ) {
        let listing = match command.topic {
            Some(topic) => projects_with_topic(base, topic),
            None => all_projects(base),
        };
        Self::listing(listing, PageStepView::More(first_page(listing)), is_detailed(command.format))
    }

    /// Where the command stands after `event`.
    pub open spec fn after(self, event: EventView) -> (ProjectsRunView, ActionView) {
        match self {
            ProjectsRunView::Listing { pager, detailed } => match event {
                EventView::Reply(reply) => Self::listing(
                    pager.listing,
                    after_page(pager, reply),
                    detailed,
                ),
                _ => (ProjectsRunView::Over, ActionView::Abort(CommandErrorView::Unexpected)),
            },
            ProjectsRunView::Over => (
                ProjectsRunView::Over,
                ActionView::Abort(CommandErrorView::Unexpected),
            ),
        }
    }
}

impl ProjectsRun {
    fn listing(listing: String, step: PageStep, detailed: bool) -> (next: (ProjectsRun, Action))
        ensures
            (next.0@, next.1@) == ProjectsRunView::listing(listing@, step@, detailed),
    {
        match step {
            PageStep::More(pager) => {
                let request = pager.request();
                (ProjectsRun::Listing { pager, detailed }, Action::Send(request))
            },
            PageStep::Done(items) => (
                ProjectsRun::Over,
                Action::Finish { output: report_projects(&items, detailed) },
            ),
            PageStep::Failed(cause) => (
                ProjectsRun::Over,
                Action::Abort(CommandError::Lookup { target: listing, cause }),
            ),
        }
    }

    /// Takes what the driver reports and says what it is to do next.
    pub fn step(self, event: Event) -> (next: (ProjectsRun, Action))
        ensures
            (next.0@, next.1@) == self@.after(event@),
    {
        match self {
            ProjectsRun::Listing { pager, detailed } => match event {
                Event::Reply(reply) => {
                    let listing = owned(pager.listing());
                    Self::listing(listing, pager.accept(reply), detailed)
                },
                _ => (ProjectsRun::Over, Action::Abort(CommandError::Unexpected)),
            },
            ProjectsRun::Over => (ProjectsRun::Over, Action::Abort(CommandError::Unexpected)),
        }
    }
}

impl ProjectsCommands {
    /// Begins the command: the first thing the driver is to do, and the
    /// state that takes its report.
    pub fn execute(self, client: &GitLabClient) -> (next: (ProjectsRun, Action))
        ensures
            (next.0@, next.1@) == ProjectsRunView::begin(client.base(), self@),
    {
        match self.command {
            ProjectsSubcommands::List(args) => {
                let word = lower_chars(args.format.as_str());
                let detailed = is_word(&word, "detailed");
                let pager = match &args.topic {
                    Some(topic) => client.projects().find_by_topic(topic.as_str()),
                    None => client.projects().list(),
                };
                ProjectsRun::listing(owned(pager.listing()), PageStep::More(pager), detailed)
            },
        }
    }
}

} // verus!
