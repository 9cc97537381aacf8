//! The commands on users: granting every chosen user a membership in every
//! chosen project, and revoking it.

use vstd::prelude::*;
use crate::commands::driver::{Action, ActionView, Event, EventView, Line, LineView};
use crate::commands::error::{CommandError, CommandErrorView};
use crate::commands::targets::{
    ProjectResolution, ProjectResolutionView, ProjectResolver, ProjectResolverView,
    ProjectSelection, ProjectSelectionView, ProjectTargets, ProjectTargetsView, UserResolution,
    UserResolutionView, UserResolver, UserResolverView, UserTargets, UserTargetsView,
};
use crate::gitlab::client::GitLabClient;
use crate::gitlab::exchange::{failure_of, Failure};
use crate::gitlab::users::{removal_request, Grant, GrantStep, GrantStepView, GrantView};
use crate::models::project::{Project, ProjectView};
use crate::models::user::{AccessLevel, User, UserView};
use crate::text::views;

verus! {

/// The arguments of the command that grants memberships.
#[derive(Debug, Clone, PartialEq, Eq)]
pub struct AddUserArgs {
    /// The users to add.
    pub users: UserTargets,
    /// The projects to add them to.
    pub projects: ProjectTargets,
    /// The level to grant; without one, maintainer.
    pub role: Option<AccessLevel>,
}

/// The arguments of the command that revokes memberships.
#[derive(Debug, Clone, PartialEq, Eq)]
pub struct RemoveUserArgs {
    /// The users to remove.
    pub users: UserTargets,
    /// The projects to remove them from.
    pub projects: ProjectTargets,
}

/// The two commands on users.
#[derive(Debug, Clone, PartialEq, Eq)]
pub enum UserSubcommands {
    Add(AddUserArgs),
    Remove(RemoveUserArgs),
}

/// A command on users.
#[derive(Debug, Clone, PartialEq, Eq)]
pub struct UserCommands {
    pub command: UserSubcommands,
}

/// What is done to each pair of a user and a project.
#[derive(Debug, Clone, Copy, PartialEq, Eq, Structural)]
pub enum Membership {
    /// The user is made a member at this level.
    Grant(AccessLevel),
    /// The user's membership is ended.
    Revoke,
}

/// The level that is granted where the caller named none.
pub open spec fn default_level() -> AccessLevel {
    AccessLevel::Maintainer
}

/// What a command on users holds, as mathematical values.
pub struct UserCommandsView {
    pub users: UserTargetsView,
    pub projects: ProjectTargetsView,
    pub membership: Membership,
}

impl View for UserCommands {
    type V = UserCommandsView;

    open spec fn view(&self) -> UserCommandsView {
        match self.command {
            UserSubcommands::Add(args) => UserCommandsView {
                users: args.users@,
                projects: args.projects@,
                membership: Membership::Grant(
                    match args.role {
                        Some(level) => level,
                        None => default_level(),
                    },
                ),
            },
            UserSubcommands::Remove(args) => UserCommandsView {
                users: args.users@,
                projects: args.projects@,
                membership: Membership::Revoke,
            },
        }
    }
}

/// A command on users under way. The pairs are taken user by user, and for
/// each user project by project.
#[derive(Debug, Clone, PartialEq, Eq)]
pub enum UserRun {
    /// The users are being resolved; the projects come after them.
    ResolvingUsers {
        client: GitLabClient,
        membership: Membership,
        projects: ProjectSelection,
        resolver: UserResolver,
    },
    /// The projects are being resolved.
    ResolvingProjects {
        client: GitLabClient,
        membership: Membership,
        users: Vec<User>,
        resolver: ProjectResolver,
    },
    /// The grant for the pair of user `user` and project `project` is under way.
    Granting {
        client: GitLabClient,
        level: AccessLevel,
        users: Vec<User>,
        projects: Vec<Project>,
        user: usize,
        project: usize,
        grant: Grant,
    },
    /// The removal for the pair of user `user` and project `project` has
    /// been sent.
    Revoking {
        client: GitLabClient,
        users: Vec<User>,
        projects: Vec<Project>,
        user: usize,
        project: usize,
    },
    /// The command is over.
    Over,
}

/// What a [`UserRun`] holds, as mathematical values.
pub enum UserRunView {
    ResolvingUsers {
        base: Seq<char>,
        membership: Membership,
        projects: ProjectSelectionView,
        resolver: UserResolverView,
    },
    ResolvingProjects {
        base: Seq<char>,
        membership: Membership,
        users: Seq<UserView>,
        resolver: ProjectResolverView,
    },
    Granting {
        base: Seq<char>,
        level: AccessLevel,
        users: Seq<UserView>,
        projects: Seq<ProjectView>,
        user: nat,
        project: nat,
        grant: GrantView,
    },
    Revoking {
        base: Seq<char>,
        users: Seq<UserView>,
        projects: Seq<ProjectView>,
        user: nat,
        project: nat,
    },
    Over,
}

impl View for UserRun {
    type V = UserRunView;

    open spec fn view(&self) -> UserRunView {
        match self {
            UserRun::ResolvingUsers {
                client,
                membership,
                projects,
                resolver,
            } => UserRunView::ResolvingUsers {
                base: client.base(),
                membership: *membership,
                projects: projects@,
                resolver: resolver@,
            },
            UserRun::ResolvingProjects {
                client,
                membership,
                users,
                resolver,
            } => UserRunView::ResolvingProjects {
                base: client.base(),
                membership: *membership,
                users: views(users@),
                resolver: resolver@,
            },
            UserRun::Granting {
                client,
                level,
                users,
                projects,
                user,
                project,
                grant,
            } => UserRunView::Granting {
                base: client.base(),
                level: *level,
                users: views(users@),
                projects: views(projects@),
                user: *user as nat,
                project: *project as nat,
                grant: grant@,
            },
            UserRun::Revoking { client, users, projects, user, project } => UserRunView::Revoking {
                base: client.base(),
                users: views(users@),
                projects: views(projects@),
                user: *user as nat,
                project: *project as nat,
            },
            UserRun::Over => UserRunView::Over,
        }
    }
}

/// The pair that comes after the pair of user `user` and project `project`:
/// the same user with the next project, or the next user with the first
/// project.
pub open spec fn next_pair(projects: nat, user: nat, project: nat) -> (nat, nat) {
    if project + 1 < projects {
        (user, project + 1)
    } else {
        (user + 1, 0)
    }
}

/// The pair that is taken as number `k`, counting from 0: the pairs are
/// taken user by user, and for each user project by project.
pub open spec fn pair_number(projects: nat, k: nat) -> (nat, nat) {
    (k / projects, k % projects)
}

/// The pairs are taken in their order, each exactly once: the pair behind
/// pair number `k` is pair number `k + 1`, the pair of user `user` and
/// project `project` has the number `user * projects + project` and no
/// other, and the numbers below `users * projects` are those of the pairs
/// of one of the users.
pub proof fn lemma_pairs_in_order(users: nat, projects: nat, k: nat, user: nat, project: nat)
    requires
        projects > 0,
        project < projects,
    ensures
        next_pair(projects, pair_number(projects, k).0, pair_number(projects, k).1) == pair_number(
            projects,
            k + 1,
        ),
        pair_number(projects, user * projects + project) == (user, project),
        pair_number(projects, k) == (user, project) ==> k == user * projects + project,
        pair_number(projects, k).0 < users <==> k < users * projects,
        pair_number(projects, k).1 < projects,
{
    let m = projects as int;
    let q = (k as int) / m;
    let r = (k as int) % m;
    vstd::arithmetic::div_mod::lemma_fundamental_div_mod(k as int, m);
    vstd::arithmetic::div_mod::lemma_mod_bound(k as int, m);
    assert(k == m * q + r);
    assert(0 <= r < m);
    assert(q >= 0) by {
        vstd::arithmetic::div_mod::lemma_div_pos_is_pos(k as int, m);
    }
    // the pair after number k
    if r + 1 < m {
        vstd::arithmetic::div_mod::lemma_fundamental_div_mod_converse((k + 1) as int, m, q, r + 1);
    } else {
        assert(k + 1 == (q + 1) * m + 0) by (nonlinear_arith)
            requires
                k == m * q + r,
                r + 1 == m,
        ;
        vstd::arithmetic::div_mod::lemma_fundamental_div_mod_converse((k + 1) as int, m, q + 1, 0);
    }
    // the number of a pair
    vstd::arithmetic::div_mod::lemma_fundamental_div_mod_converse(
        (user * projects + project) as int,
        m,
        user as int,
        project as int,
    );
    if pair_number(projects, k) == (user, project) {
        assert(k == user * projects + project) by (nonlinear_arith)
            requires
                k == m * q + r,
                q == user,
                r == project,
                m == projects,
        ;
    }
    // the pairs of the users
    assert(q < users <==> k < users * projects) by (nonlinear_arith)
        requires
            k == m * q + r,
            0 <= r < m,
            m == projects,
            q >= 0,
    ;
}

impl UserRunView {
    /// The command over, with its last action.
    pub open spec fn over(action: ActionView) -> (UserRunView, ActionView) {
        (UserRunView::Over, action)
    }

    /// Where the command stands when it comes to the pair of user `user` and
    /// project `project`: done if there is no such pair, else at the first
    /// request for it.
    pub open spec fn at_pair(
        base: Seq<char>,
        membership: Membership,
        users: Seq<UserView>,
        projects: Seq<ProjectView>,
        user: nat,
        project: nat,
    ) -> (UserRunView, ActionView) {
        if user >= users.len() || project >= projects.len() {
            Self::over(ActionView::Finish { output: Seq::empty() })
        } else {
            match membership {
                Membership::Grant(level) => {
                    let grant = GrantView::begin(
                        base,
                        users[user as int].id,
                        projects[project as int].id,
                        level,
                    );
                    (
                        UserRunView::Granting { base, level, users, projects, user, project, grant },
                        ActionView::Send(grant.request()),
                    )
                },
                Membership::Revoke => (
                    UserRunView::Revoking { base, users, projects, user, project },
                    ActionView::Send(
                        removal_request(base, users[user as int].id, projects[project as int].id),
                    ),
                ),
            }
        }
    }

    /// Where the command stands once the pair of user `user` and project
    /// `project` is dealt with.
    pub open spec fn past_pair(
        base: Seq<char>,
        membership: Membership,
        users: Seq<UserView>,
        projects: Seq<ProjectView>,
        user: nat,
        project: nat,
    ) -> (UserRunView, ActionView) {
        let next = next_pair(projects.len(), user, project);
        Self::at_pair(base, membership, users, projects, next.0, next.1)
    }

    /// Where the command stands while its projects are resolved.
    pub open spec fn resolving_projects(
        base: Seq<char>,
        membership: Membership,
        users: Seq<UserView>,
        resolution: ProjectResolutionView,
    ) -> (UserRunView, ActionView) {
        match resolution {
            ProjectResolutionView::Next(resolver, action) => (
                UserRunView::ResolvingProjects { base, membership, users, resolver },
                action,
            ),
            ProjectResolutionView::Done(projects) => Self::at_pair(
                base,
                membership,
                users,
                projects,
                0,
                0,
            ),
            ProjectResolutionView::Failed(error) => Self::over(ActionView::Abort(error)),
        }
    }

    /// Where the command stands while its users are resolved. Once they
    /// are, the projects are resolved.
    pub open spec fn resolving_users(
        base: Seq<char>,
        membership: Membership,
        projects: ProjectSelectionView,
        resolution: UserResolutionView,
    ) -> (UserRunView, ActionView) {
        match resolution {
            UserResolutionView::Next(resolver, action) => (
                UserRunView::ResolvingUsers { base, membership, projects, resolver },
                action,
            ),
            UserResolutionView::Done(users) => Self::resolving_projects(
                base,
                membership,
                users,
                ProjectResolverView::begin(base, projects),
            ),
            UserResolutionView::Failed(error) => Self::over(ActionView::Abort(error)),
        }
    }

    /// How `command` begins. An error of usage, in the choice of the users
    /// or of the projects, ends it before anything is asked of the driver.
    pub open spec fn begin(base: Seq<char>, command: UserCommandsView) -> (
        UserRunView,
        ActionView,
    ) {
        match command.users.selection() {
            Err(error) => Self::over(ActionView::Abort(error)),
            Ok(users) => match command.projects.selection() {
                Err(error) => Self::over(ActionView::Abort(error)),
                Ok(projects) => Self::resolving_users(
                    base,
                    command.membership,
                    projects,
                    UserResolverView::begin(base, users),
                ),
            },
        }
    }

    /// Where the command stands after `event`.
    ///
    /// A grant goes through its own steps; once it is granted the next
    /// pair is taken. A removal is one request. A pair that fails ends the
    /// command with an error that names the user and the project, and the
    /// pairs behind it are not touched.
    pub open spec fn after(self, event: EventView) -> (UserRunView, ActionView) {
        match self {
            UserRunView::ResolvingUsers {
                base,
                membership,
                projects,
                resolver,
            } => Self::resolving_users(base, membership, projects, resolver.after(event)),
            UserRunView::ResolvingProjects {
                base,
                membership,
                users,
                resolver,
            } => Self::resolving_projects(base, membership, users, resolver.after(event)),
            UserRunView::Granting {
                base,
                level,
                users,
                projects,
                user,
                project,
                grant,
            } => match event {
                EventView::Reply(reply) => if user >= users.len() || project >= projects.len() {
                    Self::over(ActionView::Abort(CommandErrorView::Unexpected))
                } else {
                    match grant.after(reply) {
                        GrantStepView::Granted => Self::past_pair(
                            base,
                            Membership::Grant(level),
                            users,
                            projects,
                            user,
                            project,
                        ),
                        GrantStepView::Ask(next, request) => (
                            UserRunView::Granting {
                                base,
                                level,
                                users,
                                projects,
                                user,
                                project,
                                grant: next,
                            },
                            ActionView::Send(request),
                        ),
                        GrantStepView::Failed(cause) => Self::over(
                            ActionView::Abort(
                                CommandErrorView::Grant {
                                    user_id: users[user as int].id,
                                    user: users[user as int].username,
                                    project_id: projects[project as int].id,
                                    project: projects[project as int].path_with_namespace,
                                    cause,
                                },
                            ),
                        ),
                    }
                },
                _ => Self::over(ActionView::Abort(CommandErrorView::Unexpected)),
            },
            UserRunView::Revoking { base, users, projects, user, project } => match event {
                EventView::Reply(reply) => if user >= users.len() || project >= projects.len() {
                    Self::over(ActionView::Abort(CommandErrorView::Unexpected))
                } else if reply.succeeded() {
                    Self::past_pair(base, Membership::Revoke, users, projects, user, project)
                } else {
                    Self::over(
                        ActionView::Abort(
                            CommandErrorView::Revoke {
                                user_id: users[user as int].id,
                                user: users[user as int].username,
                                project_id: projects[project as int].id,
                                project: projects[project as int].path_with_namespace,
                                cause: failure_of(reply),
                            },
                        ),
                    )
                },
                _ => Self::over(ActionView::Abort(CommandErrorView::Unexpected)),
            },
            UserRunView::Over => Self::over(ActionView::Abort(CommandErrorView::Unexpected)),
        }
    }
}

impl UserRun {
    fn at_pair(
        client: GitLabClient,
        membership: Membership,
        users: Vec<User>,
        projects: Vec<Project>,
        user: usize,
        project: usize,
    ) -> (next: (UserRun, Action))
        ensures
            (next.0@, next.1@) == UserRunView::at_pair(
                client.base(),
                membership,
                views(users@),
                views(projects@),
                user as nat,
                project as nat,
            ),
    {
        if user >= users.len() || project >= projects.len() {
            let output: Vec<Line> = Vec::new();
            assert(views(output@) == Seq::<LineView>::empty());
            (UserRun::Over, Action::Finish { output })
        } else {
            match membership {
                Membership::Grant(level) => {
                    let grant = client.users().add_to_project(
                        users[user].id,
                        projects[project].id,
                        level,
                    );
                    let request = grant.request();
                    (
                        UserRun::Granting { client, level, users, projects, user, project, grant },
                        Action::Send(request),
                    )
                },
                Membership::Revoke => {
                    let request = client.users().remove_from_project(
                        users[user].id,
                        projects[project].id,
                    );
                    (
                        UserRun::Revoking { client, users, projects, user, project },
                        Action::Send(request),
                    )
                },
            }
        }
    }

    fn past_pair(
        client: GitLabClient,
        membership: Membership,
        users: Vec<User>,
        projects: Vec<Project>,
        user: usize,
        project: usize,
    ) -> (next: (UserRun, Action))
        requires
            user < users.len(),
            project < projects.len(),
        ensures
            (next.0@, next.1@) == UserRunView::past_pair(
                client.base(),
                membership,
                views(users@),
                views(projects@),
                user as nat,
                project as nat,
            ),
    {
        if project + 1 < projects.len() {
            Self::at_pair(client, membership, users, projects, user, project + 1)
        } else {
            Self::at_pair(client, membership, users, projects, user + 1, 0)
        }
    }

    fn resolving_projects(
        client: GitLabClient,
        membership: Membership,
        users: Vec<User>,
        resolution: ProjectResolution,
    ) -> (next: (UserRun, Action))
        ensures
            (next.0@, next.1@) == UserRunView::resolving_projects(
                client.base(),
                membership,
                views(users@),
                resolution@,
            ),
    {
        match resolution {
            ProjectResolution::Next(resolver, action) => (
                UserRun::ResolvingProjects { client, membership, users, resolver },
                action,
            ),
            ProjectResolution::Done(projects) => Self::at_pair(
                client,
                membership,
                users,
                projects,
                0,
                0,
            ),
            ProjectResolution::Failed(error) => (UserRun::Over, Action::Abort(error)),
        }
    }

    fn resolving_users(
        client: GitLabClient,
        membership: Membership,
        projects: ProjectSelection,
        resolution: UserResolution,
    ) -> (next: (UserRun, Action))
        ensures
            (next.0@, next.1@) == UserRunView::resolving_users(
                client.base(),
                membership,
                projects@,
                resolution@,
            ),
    {
        match resolution {
            UserResolution::Next(resolver, action) => (
                UserRun::ResolvingUsers { client, membership, projects, resolver },
                action,
            ),
            UserResolution::Done(users) => {
                let resolution = ProjectResolver::begin(&client, projects);
                Self::resolving_projects(client, membership, users, resolution)
            },
            UserResolution::Failed(error) => (UserRun::Over, Action::Abort(error)),
        }
    }

    /// Takes what the driver reports and says what it is to do next.
    pub fn step(self, event: Event) -> (next: (UserRun, Action))
        ensures
            (next.0@, next.1@) == self@.after(event@),
    {
        match self {
            UserRun::ResolvingUsers { client, membership, projects, resolver } => {
                let resolution = resolver.step(event);
                Self::resolving_users(client, membership, projects, resolution)
            },
            UserRun::ResolvingProjects { client, membership, users, resolver } => {
                let resolution = resolver.step(event);
                Self::resolving_projects(client, membership, users, resolution)
            },
            UserRun::Granting { client, level, users, projects, user, project, grant } => match event {
                Event::Reply(reply) => {
                    if user >= users.len() || project >= projects.len() {
                        return (UserRun::Over, Action::Abort(CommandError::Unexpected));
                    }
                    match grant.step(reply) {
                        GrantStep::Granted => Self::past_pair(
                            client,
                            Membership::Grant(level),
                            users,
                            projects,
                            user,
                            project,
                        ),
                        GrantStep::Ask(next, request) => (
                            UserRun::Granting {
                                client,
                                level,
                                users,
                                projects,
                                user,
                                project,
                                grant: next,
                            },
                            Action::Send(request),
                        ),
                        GrantStep::Failed(cause) => (
                            UserRun::Over,
                            Action::Abort(
                                CommandError::Grant {
                                    user_id: users[user].id,
                                    user: users[user].username.clone(),
                                    project_id: projects[project].id,
                                    project: projects[project].path_with_namespace.clone(),
                                    cause,
                                },
                            ),
                        ),
                    }
                },
                _ => (UserRun::Over, Action::Abort(CommandError::Unexpected)),
            },
            UserRun::Revoking { client, users, projects, user, project } => match event {
                Event::Reply(reply) => {
                    if user >= users.len() || project >= projects.len() {
                        return (UserRun::Over, Action::Abort(CommandError::Unexpected));
                    }
                    if reply.succeeded() {
                        Self::past_pair(client, Membership::Revoke, users, projects, user, project)
                    } else {
                        (
                            UserRun::Over,
                            Action::Abort(
                                CommandError::Revoke {
                                    user_id: users[user].id,
                                    user: users[user].username.clone(),
                                    project_id: projects[project].id,
                                    project: projects[project].path_with_namespace.clone(),
                                    cause: Failure::of_reply(reply),
                                },
                            ),
                        )
                    }
                },
                _ => (UserRun::Over, Action::Abort(CommandError::Unexpected)),
            },
            UserRun::Over => (UserRun::Over, Action::Abort(CommandError::Unexpected)),
        }
    }
}

impl UserCommands {
    /// Begins the command: the first thing the driver is to do, and the
    /// state that takes its report.
    pub fn execute(self, client: &GitLabClient) -> (next: (UserRun, Action))
        ensures
            (next.0@, next.1@) == UserRunView::begin(client.base(), self@),
    {
        let (users, projects, membership) = match self.command {
            UserSubcommands::Add(args) => (
                args.users,
                args.projects,
                Membership::Grant(
                    match args.role {
                        Some(level) => level,
                        None => AccessLevel::Maintainer,
                    },
                ),
            ),
            UserSubcommands::Remove(args) => (args.users, args.projects, Membership::Revoke),
        };
        match users.select() {
            Err(error) => (UserRun::Over, Action::Abort(error)),
            Ok(users) => match projects.select() {
                Err(error) => (UserRun::Over, Action::Abort(error)),
                Ok(projects) => {
                    let resolution = UserResolver::begin(client, users);
                    UserRun::resolving_users(client.duplicate(), membership, projects, resolution)
                },
            },
        }
    }
}

} // verus!
