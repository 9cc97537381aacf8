//! The two sides of a command under way: what the library asks the driver to
//! do next, and what the driver reports back.

use vstd::prelude::*;
use crate::commands::error::{CommandError, CommandErrorView};
use crate::gitlab::exchange::{Reply, ReplyView, Request, RequestView};
use crate::text::views;
use crate::utils::csv::{ProjectRecord, ProjectRecordView, UserRecord, UserRecordView};

verus! {

/// One line of what a command shows.
#[derive(Debug, Clone, PartialEq, Eq)]
pub enum Line {
    /// A line of plain text.
    Plain(String),
    /// One project in short: its number, its path and its topics, each in a
    /// colour of its own.
    Entry { id: String, path: String, topics: String },
}

/// What a [`Line`] holds, as mathematical values.
pub enum LineView {
    Plain(Seq<char>),
    Entry { id: Seq<char>, path: Seq<char>, topics: Seq<char> },
}

impl View for Line {
    type V = LineView;

    open spec fn view(&self) -> LineView {
        match self {
            Line::Plain(text) => LineView::Plain(text@),
            Line::Entry { id, path, topics } => LineView::Entry {
                id: id@,
                path: path@,
                topics: topics@,
            },
        }
    }
}

/// What the driver is to do next.
#[derive(Debug, Clone, PartialEq, Eq)]
pub enum Action {
    /// Send the request and report the reply.
    Send(Request),
    /// Read the table of projects at `path` and report its rows.
    LoadProjects { path: String },
    /// Read the table of users at `path` and report its rows.
    LoadUsers { path: String },
    /// Read the file at `path` as text and report it.
    ReadText { path: String },
    /// The command is done: show `output`.
    Finish { output: Vec<Line> },
    /// The command has failed.
    Abort(CommandError),
}

/// What an [`Action`] holds, as mathematical values.
pub enum ActionView {
    Send(RequestView),
    LoadProjects { path: Seq<char> },
    LoadUsers { path: Seq<char> },
    ReadText { path: Seq<char> },
    Finish { output: Seq<LineView> },
    Abort(CommandErrorView),
}

impl View for Action {
    type V = ActionView;

    open spec fn view(&self) -> ActionView {
        match self {
            Action::Send(request) => ActionView::Send(request@),
            Action::LoadProjects { path } => ActionView::LoadProjects { path: path@ },
            Action::LoadUsers { path } => ActionView::LoadUsers { path: path@ },
            Action::ReadText { path } => ActionView::ReadText { path: path@ },
            Action::Finish { output } => ActionView::Finish { output: views(output@) },
            Action::Abort(error) => ActionView::Abort(error@),
        }
    }
}

impl ActionView {
    /// Whether the command is over with this action.
    pub open spec fn is_final(self) -> bool {
        self is Finish || self is Abort
    }
}

/// What the driver reports back.
#[derive(Debug, Clone, PartialEq, Eq)]
pub enum Event {
    /// How the request ended.
    Reply(Reply),
    /// The rows of the table of projects.
    ProjectRows(Vec<ProjectRecord>),
    /// The rows of the table of users.
    UserRows(Vec<UserRecord>),
    /// No file is at the path of the table.
    TableMissing,
    /// The table could not be read.
    TableUnreadable { reason: String },
    /// The text of the file.
    Text(String),
    /// The file could not be read as text.
    TextUnreadable { reason: String },
}

/// What an [`Event`] holds, as mathematical values.
pub enum EventView {
    Reply(ReplyView),
    ProjectRows(Seq<ProjectRecordView>),
    UserRows(Seq<UserRecordView>),
    TableMissing,
    TableUnreadable { reason: Seq<char> },
    Text(Seq<char>),
    TextUnreadable { reason: Seq<char> },
}

impl View for Event {
    type V = EventView;

    open spec fn view(&self) -> EventView {
        match self {
            Event::Reply(reply) => EventView::Reply(reply@),
            Event::ProjectRows(rows) => EventView::ProjectRows(views(rows@)),
            Event::UserRows(rows) => EventView::UserRows(views(rows@)),
            Event::TableMissing => EventView::TableMissing,
            Event::TableUnreadable { reason } => EventView::TableUnreadable { reason: reason@ },
            Event::Text(text) => EventView::Text(text@),
            Event::TextUnreadable { reason } => EventView::TextUnreadable { reason: reason@ },
        }
    }
}

} // verus!
