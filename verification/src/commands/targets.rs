//! Choosing the targets of a command: from a list of identifiers, from a
//! table, or by a topic; and resolving the choice into projects or users.

use vstd::prelude::*;
use crate::commands::driver::{Action, ActionView, Event, EventView};
use crate::commands::error::{CommandError, CommandErrorView};
use crate::gitlab::client::GitLabClient;
use crate::gitlab::exchange::{Failure, FailureView, Reply, ReplyView, Request, RequestView};
use crate::gitlab::projects::{
    after_page, first_page, page_request, project_by_id, project_by_path, project_in,
    projects_with_topic, PageStep, PageStepView, Pager, PagerView, ProjectsApi,
};
use crate::gitlab::users::{
    first_user_in, user_by_id, user_by_username, user_in, UsersApi,
};
use crate::models::identity::{distinct, keep_distinct};
use crate::models::project::{optional_text, Project, ProjectView};
use crate::models::user::{User, UserView};
use crate::number::{decimal, lemma_decimal_parses, parse_u64, parsed_u64};
use crate::text::{is_word, lemma_views_push, lower_chars, lowered, owned, views};
use crate::utils::csv::{projects_of, users_of, CsvReader};

verus! {

/// A table of targets, as named by the caller: the path of its file, and the
/// extension that the name of the file has, if it has one.
#[derive(Debug, Clone, PartialEq, Eq)]
pub struct TableFile {
    pub path: String,
    pub extension: Option<String>,
}

/// What a [`TableFile`] holds, as mathematical values.
pub struct TableFileView {
    pub path: Seq<char>,
    pub extension: Option<Seq<char>>,
}

impl View for TableFile {
    type V = TableFileView;

    open spec fn view(&self) -> TableFileView {
        TableFileView { path: self.path@, extension: optional_text(self.extension) }
    }
}

/// The texts of an optional list of strings.
pub open spec fn optional_texts(list: Option<Vec<String>>) -> Option<Seq<Seq<char>>> {
    match list {
        Some(items) => Some(views(items@)),
        None => None,
    }
}

/// The view of an optional table.
pub open spec fn optional_table(file: Option<TableFile>) -> Option<TableFileView> {
    match file {
        Some(f) => Some(f@),
        None => None,
    }
}

/// The ways in which the caller may choose projects. Exactly one is to be
/// given.
#[derive(Debug, Clone, PartialEq, Eq)]
pub struct ProjectTargets {
    /// A table of projects.
    pub project_file: Option<TableFile>,
    /// A list of tokens, each the number or the path of a project.
    pub project_ids: Option<Vec<String>>,
    /// A topic: the projects tagged with it.
    pub topic: Option<String>,
}

/// What [`ProjectTargets`] holds, as mathematical values.
pub struct ProjectTargetsView {
    pub project_file: Option<TableFileView>,
    pub project_ids: Option<Seq<Seq<char>>>,
    pub topic: Option<Seq<char>>,
}

impl View for ProjectTargets {
    type V = ProjectTargetsView;

    open spec fn view(&self) -> ProjectTargetsView {
        ProjectTargetsView {
            project_file: optional_table(self.project_file),
            project_ids: optional_texts(self.project_ids),
            topic: optional_text(self.topic),
        }
    }
}

/// The ways in which the caller may choose users. Exactly one is to be given.
#[derive(Debug, Clone, PartialEq, Eq)]
pub struct UserTargets {
    /// A table of users.
    pub user_file: Option<TableFile>,
    /// A list of tokens, each the number or the username of a user.
    pub user_ids: Option<Vec<String>>,
}

/// What [`UserTargets`] holds, as mathematical values.
pub struct UserTargetsView {
    pub user_file: Option<TableFileView>,
    pub user_ids: Option<Seq<Seq<char>>>,
}

impl View for UserTargets {
    type V = UserTargetsView;

    open spec fn view(&self) -> UserTargetsView {
        UserTargetsView {
            user_file: optional_table(self.user_file),
            user_ids: optional_texts(self.user_ids),
        }
    }
}

/// The one way in which the projects of a command are chosen.
#[derive(Debug, Clone, PartialEq, Eq)]
pub enum ProjectSelection {
    /// The rows of the table at `path`.
    Table { path: String },
    /// The projects that the tokens name, in the order of the tokens.
    Tokens(Vec<String>),
    /// The projects tagged with the topic.
    Topic(String),
}

/// What a [`ProjectSelection`] holds, as mathematical values.
pub enum ProjectSelectionView {
    Table { path: Seq<char> },
    Tokens(Seq<Seq<char>>),
    Topic(Seq<char>),
}

impl View for ProjectSelection {
    type V = ProjectSelectionView;

    open spec fn view(&self) -> ProjectSelectionView {
        match self {
            ProjectSelection::Table { path } => ProjectSelectionView::Table { path: path@ },
            ProjectSelection::Tokens(tokens) => ProjectSelectionView::Tokens(views(tokens@)),
            ProjectSelection::Topic(topic) => ProjectSelectionView::Topic(topic@),
        }
    }
}

/// The one way in which the users of a command are chosen.
#[derive(Debug, Clone, PartialEq, Eq)]
pub enum UserSelection {
    /// The rows of the table at `path`.
    Table { path: String },
    /// The users that the tokens name, in the order of the tokens.
    Tokens(Vec<String>),
}

/// What a [`UserSelection`] holds, as mathematical values.
pub enum UserSelectionView {
    Table { path: Seq<char> },
    Tokens(Seq<Seq<char>>),
}

impl View for UserSelection {
    type V = UserSelectionView;

    open spec fn view(&self) -> UserSelectionView {
        match self {
            UserSelection::Table { path } => UserSelectionView::Table { path: path@ },
            UserSelection::Tokens(tokens) => UserSelectionView::Tokens(views(tokens@)),
        }
    }
}

/// The extension of a table's file, empty if it has none.
pub open spec fn extension_of(file: TableFileView) -> Seq<char> {
    match file.extension {
        Some(e) => e,
        None => Seq::empty(),
    }
}

/// The path of a table that can be read: its file must have the extension
/// `csv`, in whatever case.
pub open spec fn readable_table(file: TableFileView) -> Result<Seq<char>, CommandErrorView> {
    if lowered(extension_of(file)) == "csv"@ {
        Ok(file.path)
    } else {
        Err(CommandErrorView::UnsupportedFormat { extension: extension_of(file) })
    }
}

impl ProjectTargetsView {
    /// How many ways of choosing were given.
    pub open spec fn given(self) -> nat {
        (if self.project_file is Some {
            1nat
        } else {
            0nat
        }) + (if self.project_ids is Some {
            1nat
        } else {
            0nat
        }) + (if self.topic is Some {
            1nat
        } else {
            0nat
        })
    }

    /// The one way that was given. None given, or more than one, is an
    /// error of usage, and so is a table that is no CSV file.
    pub open spec fn selection(self) -> Result<ProjectSelectionView, CommandErrorView> {
        if self.given() == 0 {
            Err(CommandErrorView::NoProjects)
        } else if self.given() > 1 {
            Err(CommandErrorView::Conflict)
        } else if self.project_file is Some {
            match readable_table(self.project_file->Some_0) {
                Ok(path) => Ok(ProjectSelectionView::Table { path }),
                Err(e) => Err(e),
            }
        } else if self.project_ids is Some {
            Ok(ProjectSelectionView::Tokens(self.project_ids->Some_0))
        } else {
            Ok(ProjectSelectionView::Topic(self.topic->Some_0))
        }
    }
}

impl UserTargetsView {
    /// The one way that was given. None given, or both, is an error of
    /// usage, and so is a table that is no CSV file.
    pub open spec fn selection(self) -> Result<UserSelectionView, CommandErrorView> {
        if self.user_file is None && self.user_ids is None {
            Err(CommandErrorView::NoUsers)
        } else if self.user_file is Some && self.user_ids is Some {
            Err(CommandErrorView::Conflict)
        } else if self.user_file is Some {
            match readable_table(self.user_file->Some_0) {
                Ok(path) => Ok(UserSelectionView::Table { path }),
                Err(e) => Err(e),
            }
        } else {
            Ok(UserSelectionView::Tokens(self.user_ids->Some_0))
        }
    }
}

impl TableFile {
    /// The path of the table if it can be read, else the error of usage.
    pub fn readable(self) -> (path: Result<String, CommandError>)
        ensures
            match readable_table(self@) {
                Ok(p) => path is Ok && path->Ok_0@ == p,
                Err(e) => path is Err && path->Err_0@ == e,
            },
    {
        let extension = match self.extension {
            Some(e) => e,
            None => String::new(),
        };
        let word = lower_chars(extension.as_str());
        if is_word(&word, "csv") {
            Ok(self.path)
        } else {
            Err(CommandError::UnsupportedFormat { extension })
        }
    }
}

impl ProjectTargets {
    /// The one way of choosing projects that was given, or the error of usage.
    pub fn select(self) -> (selection: Result<ProjectSelection, CommandError>)
        ensures
            match self@.selection() {
                Ok(s) => selection is Ok && selection->Ok_0@ == s,
                Err(e) => selection is Err && selection->Err_0@ == e,
            },
    {
        match (self.project_file, self.project_ids, self.topic) {
            (None, None, None) => Err(CommandError::NoProjects),
            (Some(file), None, None) => match file.readable() {
                Ok(path) => Ok(ProjectSelection::Table { path }),
                Err(e) => Err(e),
            },
            (None, Some(tokens), None) => Ok(ProjectSelection::Tokens(tokens)),
            (None, None, Some(topic)) => Ok(ProjectSelection::Topic(topic)),
            _ => Err(CommandError::Conflict),
        }
    }
}

impl UserTargets {
    /// The one way of choosing users that was given, or the error of usage.
    pub fn select(self) -> (selection: Result<UserSelection, CommandError>)
        ensures
            match self@.selection() {
                Ok(s) => selection is Ok && selection->Ok_0@ == s,
                Err(e) => selection is Err && selection->Err_0@ == e,
            },
    {
        match (self.user_file, self.user_ids) {
            (None, None) => Err(CommandError::NoUsers),
            (Some(file), None) => match file.readable() {
                Ok(path) => Ok(UserSelection::Table { path }),
                Err(e) => Err(e),
            },
            (None, Some(tokens)) => Ok(UserSelection::Tokens(tokens)),
            _ => Err(CommandError::Conflict),
        }
    }
}

/// The request that looks up the project that `token` names: by number if
/// the token reads as an unsigned integer, and only else by path.
pub open spec fn project_lookup(base: Seq<char>, token: Seq<char>) -> RequestView {
    match parsed_u64(token) {
        Some(id) => project_by_id(base, id),
        None => project_by_path(base, token),
    }
}

/// The request that looks up the user that `token` names: by number if the
/// token reads as an unsigned integer, and only else by username.
pub open spec fn user_lookup(base: Seq<char>, token: Seq<char>) -> RequestView {
    match parsed_u64(token) {
        Some(id) => user_by_id(base, id),
        None => user_by_username(base, token),
    }
}

/// The user that the reply to the lookup of `token` carries.
pub open spec fn user_found(token: Seq<char>, reply: ReplyView) -> Result<UserView, FailureView> {
    match parsed_u64(token) {
        Some(id) => user_in(reply),
        None => first_user_in(reply, token),
    }
}

/// A token that is the decimal form of a number is looked up by that number,
/// for projects and for users, whatever path or username may read the same.
pub proof fn lemma_number_is_looked_up_by_id(base: Seq<char>, id: u64)
    ensures
        project_lookup(base, decimal(id as nat)) == project_by_id(base, id),
        user_lookup(base, decimal(id as nat)) == user_by_id(base, id),
{
    lemma_decimal_parses(id);
}

/// The request that looks up the project that `token` names.
pub fn lookup_project(client: &GitLabClient, token: &str) -> (request: Request)
    ensures
        request@ == project_lookup(client.base(), token@),
{
    match parse_u64(token) {
        Some(id) => client.projects().get_by_id(id),
        None => client.projects().get_by_path(token),
    }
}

/// The request that looks up the user that `token` names.
pub fn lookup_user(client: &GitLabClient, token: &str) -> (request: Request)
    ensures
        request@ == user_lookup(client.base(), token@),
{
    match parse_u64(token) {
        Some(id) => client.users().get_by_id(id),
        None => client.users().get_by_username(token),
    }
}

/// The user that the reply to the lookup of `token` carries.
pub fn read_lookup_user(token: &str, reply: Reply) -> (user: Result<User, Failure>)
    ensures
        match user_found(token@, reply@) {
            Ok(u) => user is Ok && user->Ok_0@ == u,
            Err(f) => user is Err && user->Err_0@ == f,
        },
{
    match parse_u64(token) {
        Some(_) => UsersApi::read_user(reply),
        None => UsersApi::read_first_user(reply, token),
    }
}

/// The resolution of projects under way. However the projects were chosen,
/// the resolution gives each project once: of several with the same number
/// the first is kept, and the projects stay in the order they were found in.
#[derive(Debug, Clone, PartialEq, Eq)]
pub enum ProjectResolver {
    /// The table at `path` has been asked for.
    Table { path: String },
    /// The token after those already `found` has been looked up.
    Tokens { client: GitLabClient, tokens: Vec<String>, found: Vec<Project> },
    /// A page of the listing has been asked for.
    Listing(Pager),
}

/// What a [`ProjectResolver`] holds, as mathematical values.
pub enum ProjectResolverView {
    Table { path: Seq<char> },
    Tokens { base: Seq<char>, tokens: Seq<Seq<char>>, found: Seq<ProjectView> },
    Listing(PagerView),
}

impl View for ProjectResolver {
    type V = ProjectResolverView;

    open spec fn view(&self) -> ProjectResolverView {
        match self {
            ProjectResolver::Table { path } => ProjectResolverView::Table { path: path@ },
            ProjectResolver::Tokens { client, tokens, found } => ProjectResolverView::Tokens {
                base: client.base(),
                tokens: views(tokens@),
                found: views(found@),
            },
            ProjectResolver::Listing(pager) => ProjectResolverView::Listing(pager@),
        }
    }
}

/// Where the resolution of projects stands.
#[derive(Debug, Clone, PartialEq, Eq)]
pub enum ProjectResolution {
    /// The driver is to do something and report back.
    Next(ProjectResolver, Action),
    /// The projects are resolved.
    Done(Vec<Project>),
    /// The resolution has failed; nothing of it is kept.
    Failed(CommandError),
}

/// What a [`ProjectResolution`] holds, as mathematical values.
pub enum ProjectResolutionView {
    Next(ProjectResolverView, ActionView),
    Done(Seq<ProjectView>),
    Failed(CommandErrorView),
}

impl View for ProjectResolution {
    type V = ProjectResolutionView;

    open spec fn view(&self) -> ProjectResolutionView {
        match self {
            ProjectResolution::Next(resolver, action) => ProjectResolutionView::Next(
                resolver@,
                action@,
            ),
            ProjectResolution::Done(projects) => ProjectResolutionView::Done(views(projects@)),
            ProjectResolution::Failed(error) => ProjectResolutionView::Failed(error@),
        }
    }
}

/// Where the listing at `listing` stands, as a resolution of projects.
pub open spec fn listing_resolution(listing: Seq<char>, step: PageStepView) -> ProjectResolutionView {
    match step {
        PageStepView::More(pager) => ProjectResolutionView::Next(
            ProjectResolverView::Listing(pager),
            ActionView::Send(page_request(pager.listing, pager.page)),
        ),
        PageStepView::Done(items) => ProjectResolutionView::Done(distinct::<Project>(items)),
        PageStepView::Failed(cause) => ProjectResolutionView::Failed(
            CommandErrorView::Lookup { target: listing, cause },
        ),
    }
}

/// Where the lookup of tokens stands once the projects `found` are there:
/// done if every token has its project, and then with each project once;
/// else at the lookup of the next token.
pub open spec fn tokens_resolution(
    base: Seq<char>,
    tokens: Seq<Seq<char>>,
    found: Seq<ProjectView>,
) -> ProjectResolutionView {
    if found.len() >= tokens.len() {
        ProjectResolutionView::Done(distinct::<Project>(found))
    } else {
        ProjectResolutionView::Next(
            ProjectResolverView::Tokens { base, tokens, found },
            ActionView::Send(project_lookup(base, tokens[found.len() as int])),
        )
    }
}

impl ProjectResolverView {
    /// How the resolution of `selection` begins.
    pub open spec fn begin(base: Seq<char>, selection: ProjectSelectionView) -> ProjectResolutionView {
        match selection {
            ProjectSelectionView::Table { path } => ProjectResolutionView::Next(
                ProjectResolverView::Table { path },
                ActionView::LoadProjects { path },
            ),
            ProjectSelectionView::Tokens(tokens) => tokens_resolution(base, tokens, Seq::empty()),
            ProjectSelectionView::Topic(topic) => listing_resolution(
                projects_with_topic(base, topic),
                PageStepView::More(first_page(projects_with_topic(base, topic))),
            ),
        }
    }

    /// Where the resolution stands after `event`.
    ///
    /// A table gives the projects of its rows. A token's project is put
    /// behind those found before it; the first lookup that fails ends the
    /// resolution, and no further token is looked up. A listing goes on page
    /// by page. An event that does not answer what was asked ends the
    /// resolution.
    pub open spec fn after(self, event: EventView) -> ProjectResolutionView {
        match self {
            ProjectResolverView::Table { path } => match event {
                EventView::ProjectRows(rows) => ProjectResolutionView::Done(
                    distinct::<Project>(projects_of(rows)),
                ),
                EventView::TableMissing => ProjectResolutionView::Failed(
                    CommandErrorView::TableMissing { path },
                ),
                EventView::TableUnreadable { reason } => ProjectResolutionView::Failed(
                    CommandErrorView::TableUnreadable { path, reason },
                ),
                _ => ProjectResolutionView::Failed(CommandErrorView::Unexpected),
            },
            ProjectResolverView::Tokens { base, tokens, found } => match event {
                EventView::Reply(reply) => if found.len() >= tokens.len() {
                    ProjectResolutionView::Failed(CommandErrorView::Unexpected)
                } else {
                    match project_in(reply) {
                        Ok(project) => tokens_resolution(base, tokens, found.push(project)),
                        Err(cause) => ProjectResolutionView::Failed(
                            CommandErrorView::Lookup { target: tokens[found.len() as int], cause },
                        ),
                    }
                },
                _ => ProjectResolutionView::Failed(CommandErrorView::Unexpected),
            },
            ProjectResolverView::Listing(pager) => match event {
                EventView::Reply(reply) => listing_resolution(
                    pager.listing,
                    after_page(pager, reply),
                ),
                _ => ProjectResolutionView::Failed(CommandErrorView::Unexpected),
            },
        }
    }
}

/// The replies as the driver reports them.
pub open spec fn reported(replies: Seq<ReplyView>) -> Seq<EventView> {
    replies.map_values(|reply: ReplyView| EventView::Reply(reply))
}

/// Where a resolution of projects stands after the driver has reported
/// `events`, one after another. Once the resolution is over, what is
/// reported is not looked at.
pub open spec fn projects_after(resolution: ProjectResolutionView, events: Seq<EventView>) -> ProjectResolutionView
    decreases events.len(),
{
    if events.len() == 0 {
        resolution
    } else {
        match resolution {
            ProjectResolutionView::Next(resolver, action) => projects_after(
                resolver.after(events.first()),
                events.drop_first(),
            ),
            over => over,
        }
    }
}

/// Tokens are looked up in their order, one at a time: after replies that
/// carry the projects `more`, those projects stand behind the ones found
/// before, in the order of the replies, and the lookup is at the token
/// behind them, or done if none is left.
pub proof fn lemma_tokens_in_order(
    base: Seq<char>,
    tokens: Seq<Seq<char>>,
    found: Seq<ProjectView>,
    replies: Seq<ReplyView>,
    more: Seq<ProjectView>,
)
    requires
        found.len() + more.len() <= tokens.len(),
        replies.len() == more.len(),
        forall|i: int| 0 <= i < replies.len() ==> project_in(#[trigger] replies[i]) == Ok::<
            ProjectView,
            FailureView,
        >(more[i]),
    ensures
        projects_after(tokens_resolution(base, tokens, found), reported(replies))
            == tokens_resolution(base, tokens, found + more),
    decreases replies.len(),
{
    if replies.len() == 0 {
        assert(found + more == found);
    } else {
        let next = found.push(more.first());
        assert(reported(replies).first() == EventView::Reply(replies.first()));
        assert(reported(replies).drop_first() == reported(replies.drop_first()));
        assert(project_in(replies[0]) == Ok::<ProjectView, FailureView>(more[0]));
        assert forall|i: int| 0 <= i < replies.drop_first().len() implies project_in(
            #[trigger] replies.drop_first()[i],
        ) == Ok::<ProjectView, FailureView>(more.drop_first()[i]) by {
            assert(replies.drop_first()[i] == replies[i + 1]);
        }
        lemma_tokens_in_order(base, tokens, next, replies.drop_first(), more.drop_first());
        assert(next + more.drop_first() == found + more);
    }
}

/// The resolution of a list of tokens asks for each token in turn, by
/// number where the token reads as a number and only else by path, and gives
/// the projects in the order of the tokens, each once.
pub proof fn lemma_resolution_follows_tokens(
    base: Seq<char>,
    tokens: Seq<Seq<char>>,
    replies: Seq<ReplyView>,
    projects: Seq<ProjectView>,
    k: int,
)
    requires
        replies.len() == projects.len() == tokens.len(),
        forall|i: int| 0 <= i < replies.len() ==> project_in(#[trigger] replies[i]) == Ok::<
            ProjectView,
            FailureView,
        >(projects[i]),
        0 <= k < tokens.len(),
    ensures
        projects_after(
            ProjectResolverView::begin(base, ProjectSelectionView::Tokens(tokens)),
            reported(replies),
        ) == ProjectResolutionView::Done(distinct::<Project>(projects)),
        projects_after(
            ProjectResolverView::begin(base, ProjectSelectionView::Tokens(tokens)),
            reported(replies.take(k)),
        ) matches ProjectResolutionView::Next(resolver, action) && action == ActionView::Send(
            project_lookup(base, tokens[k]),
        ),
        forall|id: u64|
            parsed_u64(tokens[k]) == Some(id) ==> project_lookup(base, tokens[k]) == project_by_id(
                base,
                id,
            ),
{
    let none = Seq::<ProjectView>::empty();
    lemma_tokens_in_order(base, tokens, none, replies, projects);
    assert(none + projects == projects);
    assert forall|i: int| 0 <= i < replies.take(k).len() implies project_in(
        #[trigger] replies.take(k)[i],
    ) == Ok::<ProjectView, FailureView>(projects.take(k)[i]) by {
        assert(replies.take(k)[i] == replies[i]);
    }
    lemma_tokens_in_order(base, tokens, none, replies.take(k), projects.take(k));
    assert(none + projects.take(k) == projects.take(k));
}

/// The first lookup that fails ends the resolution: the error names the
/// token and carries the failure, nothing of what was found is kept, and no
/// further token is looked up whatever the driver reports after it.
pub proof fn lemma_resolution_fails_fast(
    base: Seq<char>,
    tokens: Seq<Seq<char>>,
    replies: Seq<ReplyView>,
    projects: Seq<ProjectView>,
    failed: ReplyView,
    later: Seq<EventView>,
)
    requires
        replies.len() == projects.len() < tokens.len(),
        forall|i: int| 0 <= i < replies.len() ==> project_in(#[trigger] replies[i]) == Ok::<
            ProjectView,
            FailureView,
        >(projects[i]),
        project_in(failed) is Err,
    ensures
        projects_after(
            ProjectResolverView::begin(base, ProjectSelectionView::Tokens(tokens)),
            reported(replies) + seq![EventView::Reply(failed)] + later,
        ) == ProjectResolutionView::Failed(
            CommandErrorView::Lookup {
                target: tokens[replies.len() as int],
                cause: project_in(failed)->Err_0,
            },
        ),
{
    let none = Seq::<ProjectView>::empty();
    let start = ProjectResolverView::begin(base, ProjectSelectionView::Tokens(tokens));
    lemma_tokens_in_order(base, tokens, none, replies, projects);
    assert(none + projects == projects);
    let failure = ProjectResolutionView::Failed(
        CommandErrorView::Lookup {
            target: tokens[replies.len() as int],
            cause: project_in(failed)->Err_0,
        },
    );
    lemma_projects_after_split(start, reported(replies), seq![EventView::Reply(failed)] + later);
    let rest = seq![EventView::Reply(failed)] + later;
    assert(rest.first() == EventView::Reply(failed));
    assert(rest.drop_first() == later);
    lemma_projects_after_over(failure, later);
    assert(reported(replies) + seq![EventView::Reply(failed)] + later == reported(replies) + rest);
}

/// Reports taken one batch after the other lead where the reports taken
/// together lead.
pub proof fn lemma_projects_after_split(
    resolution: ProjectResolutionView,
    first: Seq<EventView>,
    second: Seq<EventView>,
)
    ensures
        projects_after(resolution, first + second) == projects_after(
            projects_after(resolution, first),
            second,
        ),
    decreases first.len(),
{
    if first.len() == 0 {
        assert(first + second == second);
    } else {
        assert((first + second).first() == first.first());
        assert((first + second).drop_first() == first.drop_first() + second);
        match resolution {
            ProjectResolutionView::Next(resolver, action) => {
                lemma_projects_after_split(
                    resolver.after(first.first()),
                    first.drop_first(),
                    second,
                );
            },
            _ => {
                lemma_projects_after_over(resolution, first);
                lemma_projects_after_over(resolution, first + second);
                lemma_projects_after_over(resolution, second);
            },
        }
    }
}

/// A resolution that is over stays as it is.
pub proof fn lemma_projects_after_over(resolution: ProjectResolutionView, events: Seq<EventView>)
    requires
        !(resolution is Next),
    ensures
        projects_after(resolution, events) == resolution,
{
}

impl ProjectResolver {
    fn listing(listing: String, step: PageStep) -> (resolution: ProjectResolution)
        ensures
            resolution@ == listing_resolution(listing@, step@),
    {
        match step {
            PageStep::More(pager) => {
                let request = pager.request();
                ProjectResolution::Next(ProjectResolver::Listing(pager), Action::Send(request))
            },
            PageStep::Done(items) => ProjectResolution::Done(keep_distinct(items)),
            PageStep::Failed(cause) => ProjectResolution::Failed(
                CommandError::Lookup { target: listing, cause },
            ),
        }
    }

    fn tokens(client: GitLabClient, tokens: Vec<String>, found: Vec<Project>) -> (resolution:
        ProjectResolution)
        ensures
            resolution@ == tokens_resolution(client.base(), views(tokens@), views(found@)),
    {
        if found.len() >= tokens.len() {
            ProjectResolution::Done(keep_distinct(found))
        } else {
            let request = lookup_project(&client, tokens[found.len()].as_str());
            ProjectResolution::Next(
                ProjectResolver::Tokens { client, tokens, found },
                Action::Send(request),
            )
        }
    }

    /// Begins the resolution of `selection`.
    pub fn begin(client: &GitLabClient, selection: ProjectSelection) -> (resolution:
        ProjectResolution)
        ensures
            resolution@ == ProjectResolverView::begin(client.base(), selection@),
    {
        match selection {
            ProjectSelection::Table { path } => {
                let asked = path.clone();
                ProjectResolution::Next(
                    ProjectResolver::Table { path },
                    Action::LoadProjects { path: asked },
                )
            },
            ProjectSelection::Tokens(tokens) => {
                let found: Vec<Project> = Vec::new();
                assert(views(found@) == Seq::<ProjectView>::empty());
                Self::tokens(client.duplicate(), tokens, found)
            },
            ProjectSelection::Topic(topic) => {
                let pager = client.projects().find_by_topic(topic.as_str());
                Self::listing(owned(pager.listing()), PageStep::More(pager))
            },
        }
    }

    /// Takes what the driver reports and says how the resolution goes on.
    pub fn step(self, event: Event) -> (resolution: ProjectResolution)
        ensures
            resolution@ == self@.after(event@),
    {
        match self {
            ProjectResolver::Table { path } => match event {
                Event::ProjectRows(rows) => {
                    match CsvReader::new(path.as_str(), true) {
                        Ok(reader) => ProjectResolution::Done(
                            keep_distinct(reader.read_projects(rows)),
                        ),
                        Err(e) => ProjectResolution::Failed(e),
                    }
                },
                Event::TableMissing => match CsvReader::new(path.as_str(), false) {
                    Ok(_) => ProjectResolution::Failed(CommandError::Unexpected),
                    Err(e) => ProjectResolution::Failed(e),
                },
                Event::TableUnreadable { reason } => ProjectResolution::Failed(
                    CommandError::TableUnreadable { path, reason },
                ),
                _ => ProjectResolution::Failed(CommandError::Unexpected),
            },
            ProjectResolver::Tokens { client, tokens, found } => match event {
                Event::Reply(reply) => {
                    if found.len() >= tokens.len() {
                        return ProjectResolution::Failed(CommandError::Unexpected);
                    }
                    match ProjectsApi::read_project(reply) {
                        Ok(project) => {
                            let mut found = found;
                            proof {
                                lemma_views_push(found@, project);
                            }
                            found.push(project);
                            Self::tokens(client, tokens, found)
                        },
                        Err(cause) => ProjectResolution::Failed(
                            CommandError::Lookup { target: tokens[found.len()].clone(), cause },
                        ),
                    }
                },
                _ => ProjectResolution::Failed(CommandError::Unexpected),
            },
            ProjectResolver::Listing(pager) => match event {
                Event::Reply(reply) => {
                    let listing = owned(pager.listing());
                    Self::listing(listing, pager.accept(reply))
                },
                _ => ProjectResolution::Failed(CommandError::Unexpected),
            },
        }
    }
}

/// The resolution of users under way. However the users were chosen, the
/// resolution gives each user once: of several with the same number the
/// first is kept, and the users stay in the order they were found in.
#[derive(Debug, Clone, PartialEq, Eq)]
pub enum UserResolver {
    /// The table at `path` has been asked for.
    Table { path: String },
    /// The token after those already `found` has been looked up.
    Tokens { client: GitLabClient, tokens: Vec<String>, found: Vec<User> },
}

/// What a [`UserResolver`] holds, as mathematical values.
pub enum UserResolverView {
    Table { path: Seq<char> },
    Tokens { base: Seq<char>, tokens: Seq<Seq<char>>, found: Seq<UserView> },
}

impl View for UserResolver {
    type V = UserResolverView;

    open spec fn view(&self) -> UserResolverView {
        match self {
            UserResolver::Table { path } => UserResolverView::Table { path: path@ },
            UserResolver::Tokens { client, tokens, found } => UserResolverView::Tokens {
                base: client.base(),
                tokens: views(tokens@),
                found: views(found@),
            },
        }
    }
}

/// Where the resolution of users stands.
#[derive(Debug, Clone, PartialEq, Eq)]
pub enum UserResolution {
    /// The driver is to do something and report back.
    Next(UserResolver, Action),
    /// The users are resolved.
    Done(Vec<User>),
    /// The resolution has failed; nothing of it is kept.
    Failed(CommandError),
}

/// What a [`UserResolution`] holds, as mathematical values.
pub enum UserResolutionView {
    Next(UserResolverView, ActionView),
    Done(Seq<UserView>),
    Failed(CommandErrorView),
}

impl View for UserResolution {
    type V = UserResolutionView;

    open spec fn view(&self) -> UserResolutionView {
        match self {
            UserResolution::Next(resolver, action) => UserResolutionView::Next(resolver@, action@),
            UserResolution::Done(users) => UserResolutionView::Done(views(users@)),
            UserResolution::Failed(error) => UserResolutionView::Failed(error@),
        }
    }
}

/// Where the lookup of tokens stands once the users `found` are there: done
/// if every token has its user, and then with each user once; else at the
/// lookup of the next token.
pub open spec fn user_tokens_resolution(
    base: Seq<char>,
    tokens: Seq<Seq<char>>,
    found: Seq<UserView>,
) -> UserResolutionView {
    if found.len() >= tokens.len() {
        UserResolutionView::Done(distinct::<User>(found))
    } else {
        UserResolutionView::Next(
            UserResolverView::Tokens { base, tokens, found },
            ActionView::Send(user_lookup(base, tokens[found.len() as int])),
        )
    }
}

impl UserResolverView {
    /// How the resolution of `selection` begins.
    pub open spec fn begin(base: Seq<char>, selection: UserSelectionView) -> UserResolutionView {
        match selection {
            UserSelectionView::Table { path } => UserResolutionView::Next(
                UserResolverView::Table { path },
                ActionView::LoadUsers { path },
            ),
            UserSelectionView::Tokens(tokens) => user_tokens_resolution(
                base,
                tokens,
                Seq::empty(),
            ),
        }
    }

    /// Where the resolution stands after `event`.
    ///
    /// A table gives the users of its rows. A token's user is put behind
    /// those found before it; the first lookup that fails ends the
    /// resolution, and no further token is looked up. An event that does not
    /// answer what was asked ends the resolution.
    pub open spec fn after(self, event: EventView) -> UserResolutionView {
        match self {
            UserResolverView::Table { path } => match event {
                EventView::UserRows(rows) => UserResolutionView::Done(
                    distinct::<User>(users_of(rows)),
                ),
                EventView::TableMissing => UserResolutionView::Failed(
                    CommandErrorView::TableMissing { path },
                ),
                EventView::TableUnreadable { reason } => UserResolutionView::Failed(
                    CommandErrorView::TableUnreadable { path, reason },
                ),
                _ => UserResolutionView::Failed(CommandErrorView::Unexpected),
            },
            UserResolverView::Tokens { base, tokens, found } => match event {
                EventView::Reply(reply) => if found.len() >= tokens.len() {
                    UserResolutionView::Failed(CommandErrorView::Unexpected)
                } else {
                    match user_found(tokens[found.len() as int], reply) {
                        Ok(user) => user_tokens_resolution(base, tokens, found.push(user)),
                        Err(cause) => UserResolutionView::Failed(
                            CommandErrorView::Lookup { target: tokens[found.len() as int], cause },
                        ),
                    }
                },
                _ => UserResolutionView::Failed(CommandErrorView::Unexpected),
            },
        }
    }
}

/// Where a resolution of users stands after the driver has reported
/// `events`, one after another. Once the resolution is over, what is
/// reported is not looked at.
pub open spec fn users_after(resolution: UserResolutionView, events: Seq<EventView>) -> UserResolutionView
    decreases events.len(),
{
    if events.len() == 0 {
        resolution
    } else {
        match resolution {
            UserResolutionView::Next(resolver, action) => users_after(
                resolver.after(events.first()),
                events.drop_first(),
            ),
            over => over,
        }
    }
}

/// Tokens are looked up in their order, one at a time: after replies that
/// carry the users `more`, each as its token asks, those users stand behind
/// the ones found before, in the order of the replies, and the lookup is at
/// the token behind them, or done if none is left.
pub proof fn lemma_user_tokens_in_order(
    base: Seq<char>,
    tokens: Seq<Seq<char>>,
    found: Seq<UserView>,
    replies: Seq<ReplyView>,
    more: Seq<UserView>,
)
    requires
        found.len() + more.len() <= tokens.len(),
        replies.len() == more.len(),
        forall|i: int|
            0 <= i < replies.len() ==> user_found(tokens[found.len() + i], #[trigger] replies[i])
                == Ok::<UserView, FailureView>(more[i]),
    ensures
        users_after(user_tokens_resolution(base, tokens, found), reported(replies))
            == user_tokens_resolution(base, tokens, found + more),
    decreases replies.len(),
{
    if replies.len() == 0 {
        assert(found + more == found);
    } else {
        let next = found.push(more.first());
        assert(reported(replies).first() == EventView::Reply(replies.first()));
        assert(reported(replies).drop_first() == reported(replies.drop_first()));
        assert(user_found(tokens[found.len() as int], replies[0]) == Ok::<UserView, FailureView>(
            more[0],
        ));
        assert forall|i: int| 0 <= i < replies.drop_first().len() implies user_found(
            tokens[next.len() + i],
            #[trigger] replies.drop_first()[i],
        ) == Ok::<UserView, FailureView>(more.drop_first()[i]) by {
            assert(replies.drop_first()[i] == replies[i + 1]);
            assert(tokens[next.len() + i] == tokens[found.len() + (i + 1)]);
        }
        lemma_user_tokens_in_order(base, tokens, next, replies.drop_first(), more.drop_first());
        assert(next + more.drop_first() == found + more);
    }
}

impl UserResolver {
    fn tokens(client: GitLabClient, tokens: Vec<String>, found: Vec<User>) -> (resolution:
        UserResolution)
        ensures
            resolution@ == user_tokens_resolution(client.base(), views(tokens@), views(found@)),
    {
        if found.len() >= tokens.len() {
            UserResolution::Done(keep_distinct(found))
        } else {
            let request = lookup_user(&client, tokens[found.len()].as_str());
            UserResolution::Next(UserResolver::Tokens { client, tokens, found }, Action::Send(request))
        }
    }

    /// Begins the resolution of `selection`.
    pub fn begin(client: &GitLabClient, selection: UserSelection) -> (resolution: UserResolution)
        ensures
            resolution@ == UserResolverView::begin(client.base(), selection@),
    {
        match selection {
            UserSelection::Table { path } => {
                let asked = path.clone();
                UserResolution::Next(UserResolver::Table { path }, Action::LoadUsers { path: asked })
            },
            UserSelection::Tokens(tokens) => {
                let found: Vec<User> = Vec::new();
                assert(views(found@) == Seq::<UserView>::empty());
                Self::tokens(client.duplicate(), tokens, found)
            },
        }
    }

    /// Takes what the driver reports and says how the resolution goes on.
    pub fn step(self, event: Event) -> (resolution: UserResolution)
        ensures
            resolution@ == self@.after(event@),
    {
        match self {
            UserResolver::Table { path } => match event {
                Event::UserRows(rows) => {
                    match CsvReader::new(path.as_str(), true) {
                        Ok(reader) => UserResolution::Done(keep_distinct(reader.read_users(rows))),
                        Err(e) => UserResolution::Failed(e),
                    }
                },
                Event::TableMissing => match CsvReader::new(path.as_str(), false) {
                    Ok(_) => UserResolution::Failed(CommandError::Unexpected),
                    Err(e) => UserResolution::Failed(e),
                },
                Event::TableUnreadable { reason } => UserResolution::Failed(
                    CommandError::TableUnreadable { path, reason },
                ),
                _ => UserResolution::Failed(CommandError::Unexpected),
            },
            UserResolver::Tokens { client, tokens, found } => match event {
                Event::Reply(reply) => {
                    if found.len() >= tokens.len() {
                        return UserResolution::Failed(CommandError::Unexpected);
                    }
                    match read_lookup_user(tokens[found.len()].as_str(), reply) {
                        Ok(user) => {
                            let mut found = found;
                            proof {
                                lemma_views_push(found@, user);
                            }
                            found.push(user);
                            Self::tokens(client, tokens, found)
                        },
                        Err(cause) => UserResolution::Failed(
                            CommandError::Lookup { target: tokens[found.len()].clone(), cause },
                        ),
                    }
                },
                _ => UserResolution::Failed(CommandError::Unexpected),
            },
        }
    }
}

} // verus!
