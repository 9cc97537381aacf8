//! Operations on users: lookup by number or by username, and granting and
//! revoking the membership of a user in a project.

use vstd::prelude::*;
use crate::gitlab::client::GitLabClient;
use crate::gitlab::exchange::{
    failure_of, Body, BodyView, Expect, Failure, FailureView, Method, Payload, PayloadView, Reply,
    ReplyView, Request, RequestView,
};
use crate::models::user::{AccessLevel, User, UserView};
use crate::number::{decimal, decimal_string, push_decimal};
use crate::text::{occurs_in, owned, views};

verus! {

/// The request that fetches the user with number `id`.
pub open spec fn user_by_id(base: Seq<char>, id: u64) -> RequestView {
    RequestView {
        method: Method::Get,
        url: base + "/users/"@ + decimal(id as nat),
        body: BodyView::Empty,
        expect: Expect::User,
    }
}

/// The request that searches the users for `username`.
pub open spec fn user_by_username(base: Seq<char>, username: Seq<char>) -> RequestView {
    RequestView {
        method: Method::Get,
        url: base + "/users?username="@ + username,
        body: BodyView::Empty,
        expect: Expect::Users,
    }
}

/// The request that makes user `user_id` a member of project `project_id`
/// at `level`, through the members endpoint: the user is given by number.
pub open spec fn members_request(
    base: Seq<char>,
    user_id: u64,
    project_id: u64,
    level: AccessLevel,
) -> RequestView {
    RequestView {
        method: Method::Post,
        url: base + "/projects/"@ + decimal(project_id as nat) + "/members"@,
        body: BodyView::Member { user_id, access_level: level.number() as u64 },
        expect: Expect::Nothing,
    }
}

/// The request that invites user `user_id` to project `project_id` at
/// `level`, through the invitations endpoint: the user is given as text, the
/// number written in decimal.
pub open spec fn invitations_request(
    base: Seq<char>,
    user_id: u64,
    project_id: u64,
    level: AccessLevel,
) -> RequestView {
    RequestView {
        method: Method::Post,
        url: base + "/projects/"@ + decimal(project_id as nat) + "/invitations"@,
        body: BodyView::Invitation {
            user_id: decimal(user_id as nat),
            access_level: level.number() as u64,
        },
        expect: Expect::Nothing,
    }
}

/// The request that ends the membership of user `user_id` in project
/// `project_id`.
pub open spec fn removal_request(base: Seq<char>, user_id: u64, project_id: u64) -> RequestView {
    RequestView {
        method: Method::Delete,
        url: base + "/projects/"@ + decimal(project_id as nat) + "/members/"@ + decimal(
            user_id as nat,
        ),
        body: BodyView::Empty,
        expect: Expect::Nothing,
    }
}

/// The user that a reply to a lookup by number carries, or why there is none.
pub open spec fn user_in(reply: ReplyView) -> Result<UserView, FailureView> {
    match reply {
        ReplyView::Success(PayloadView::User(user)) => Ok(user),
        _ => Err(failure_of(reply)),
    }
}

/// The user that a reply to a search for `username` carries: the first of
/// the users found. A search that found none fails, naming the username.
pub open spec fn first_user_in(reply: ReplyView, username: Seq<char>) -> Result<
    UserView,
    FailureView,
> {
    match reply {
        ReplyView::Success(PayloadView::Users(users)) => {
            if users.len() > 0 {
                Ok(users.first())
            } else {
                Err(FailureView::UserNotFound { username })
            }
        },
        _ => Err(failure_of(reply)),
    }
}

/// The text with which an endpoint refused: the body of its response, or a
/// fixed phrase where the body could not be read.
pub open spec fn refusal_text(body: Option<Seq<char>>) -> Seq<char> {
    match body {
        Some(text) => text,
        None => "Unknown error"@,
    }
}

/// The text of a failure: the body with which the endpoint refused, or the
/// reason for which there was no answer that could be read.
pub open spec fn failure_text(reply: ReplyView) -> Seq<char> {
    match reply {
        ReplyView::Refused { reason, body } => refusal_text(body),
        ReplyView::Unreachable { reason } => reason,
        ReplyView::Malformed { reason } => reason,
        ReplyView::Success(_) => Seq::empty(),
    }
}

/// How far a grant has come.
#[derive(Debug, Clone, PartialEq, Eq)]
pub enum Stage {
    /// The members endpoint has been asked.
    Members,
    /// The members endpoint failed and the invitations endpoint has been
    /// asked. `first` is the text of the failure of the members endpoint.
    Invitations { first: String },
}

/// What a [`Stage`] holds, as mathematical values.
pub enum StageView {
    Members,
    Invitations { first: Seq<char> },
}

impl View for Stage {
    type V = StageView;

    open spec fn view(&self) -> StageView {
        match self {
            Stage::Members => StageView::Members,
            Stage::Invitations { first } => StageView::Invitations { first: first@ },
        }
    }
}

/// A grant of membership under way: first through the members endpoint and,
/// if that fails for any reason, once through the invitations endpoint.
#[derive(Debug, Clone, PartialEq, Eq)]
pub struct Grant {
    api_url: String,
    user_id: u64,
    project_id: u64,
    level: AccessLevel,
    stage: Stage,
}

/// What a [`Grant`] holds, as mathematical values.
pub struct GrantView {
    pub base: Seq<char>,
    pub user_id: u64,
    pub project_id: u64,
    pub level: AccessLevel,
    pub stage: StageView,
}

impl View for Grant {
    type V = GrantView;

    closed spec fn view(&self) -> GrantView {
        GrantView {
            base: self.api_url@,
            user_id: self.user_id,
            project_id: self.project_id,
            level: self.level,
            stage: self.stage@,
        }
    }
}

/// Where a grant stands after a reply.
#[derive(Debug, Clone, PartialEq, Eq)]
pub enum GrantStep {
    /// The membership is granted.
    Granted,
    /// The other endpoint is to be asked with this request.
    Ask(Grant, Request),
    /// The grant has failed.
    Failed(Failure),
}

/// What a [`GrantStep`] holds, as mathematical values.
pub enum GrantStepView {
    Granted,
    Ask(GrantView, RequestView),
    Failed(FailureView),
}

impl View for GrantStep {
    type V = GrantStepView;

    open spec fn view(&self) -> GrantStepView {
        match self {
            GrantStep::Granted => GrantStepView::Granted,
            GrantStep::Ask(grant, request) => GrantStepView::Ask(grant@, request@),
            GrantStep::Failed(failure) => GrantStepView::Failed(failure@),
        }
    }
}

impl GrantView {
    /// The grant of `level` in project `project_id` to user `user_id`, before
    /// any reply.
    pub open spec fn begin(base: Seq<char>, user_id: u64, project_id: u64, level: AccessLevel) -> GrantView {
        GrantView { base, user_id, project_id, level, stage: StageView::Members }
    }

    /// The request whose reply the grant waits for.
    pub open spec fn request(self) -> RequestView {
        match self.stage {
            StageView::Members => members_request(
                self.base,
                self.user_id,
                self.project_id,
                self.level,
            ),
            StageView::Invitations { .. } => invitations_request(
                self.base,
                self.user_id,
                self.project_id,
                self.level,
            ),
        }
    }

    /// The grant after the members endpoint has failed with the text `first`.
    pub open spec fn fallen_back(self, first: Seq<char>) -> GrantView {
        GrantView { stage: StageView::Invitations { first }, ..self }
    }

    /// Where the grant stands after `reply` to its request.
    ///
    /// A success ends it, at either endpoint. A failure of the members
    /// endpoint, for whatever reason, leads to the invitations endpoint, and
    /// the text of the failure is kept. A failure of the invitations
    /// endpoint, for whatever reason, fails the grant with the texts of both
    /// failures.
    pub open spec fn after(self, reply: ReplyView) -> GrantStepView {
        match self.stage {
            StageView::Members => if reply.succeeded() {
                GrantStepView::Granted
            } else {
                let next = self.fallen_back(failure_text(reply));
                GrantStepView::Ask(next, next.request())
            },
            StageView::Invitations { first } => if reply.succeeded() {
                GrantStepView::Granted
            } else {
                GrantStepView::Failed(
                    FailureView::GrantFailed { members: first, invitations: failure_text(reply) },
                )
            },
        }
    }
}

/// A success ends a grant wherever it stands: after a success at the
/// members endpoint the invitations endpoint is never asked.
pub proof fn lemma_grant_success_is_final(grant: GrantView, reply: ReplyView)
    requires
        reply.succeeded(),
    ensures
        grant.after(reply) is Granted,
{
}

/// A grant that fails at the members endpoint, for whatever reason, asks the
/// invitations endpoint, with the user's number written as text; and whatever
/// comes back from there, no further request is made.
pub proof fn lemma_grant_falls_back_once(grant: GrantView, first: ReplyView, second: ReplyView)
    requires
        grant.stage is Members,
        !first.succeeded(),
    ensures
        grant.after(first) matches GrantStepView::Ask(next, request) && {
            &&& request == invitations_request(
                grant.base,
                grant.user_id,
                grant.project_id,
                grant.level,
            )
            &&& request.body == BodyView::Invitation {
                user_id: decimal(grant.user_id as nat),
                access_level: grant.level.number() as u64,
            }
            &&& !(next.after(second) is Ask)
            &&& next.after(second) is Granted <==> second.succeeded()
        },
{
}

/// A grant that fails at both endpoints, each for whatever reason, fails
/// with the texts of both failures, and both stand in its message, so that
/// either attempt can be diagnosed.
pub proof fn lemma_grant_failure_holds_both(grant: GrantView, first: ReplyView, second: ReplyView)
    requires
        grant.stage is Members,
        !first.succeeded(),
        !second.succeeded(),
    ensures
        grant.after(first) matches GrantStepView::Ask(next, request) && next.after(second)
            == GrantStepView::Failed(
            FailureView::GrantFailed {
                members: failure_text(first),
                invitations: failure_text(second),
            },
        ),
        ({
            let message = (FailureView::GrantFailed {
                members: failure_text(first),
                invitations: failure_text(second),
            }).message();
            occurs_in(failure_text(first), message) && occurs_in(failure_text(second), message)
        }),
{
    let members = failure_text(first);
    let invitations = failure_text(second);
    let head = "Failed to add user to project. Members endpoint error: "@;
    let middle = ". Invitations endpoint error: "@;
    let message = (FailureView::GrantFailed { members, invitations }).message();
    assert(message == head + members + middle + invitations);
    let at = head.len() as int;
    assert(message.subrange(at, at + members.len()) == members);
    let behind = (head.len() + members.len() + middle.len()) as int;
    assert(message.subrange(behind, behind + invitations.len()) == invitations);
}

fn text_of(reply: Reply) -> (text: String)
    ensures
        text@ == failure_text(reply@),
{
    match reply {
        Reply::Refused { reason, body } => match body {
            Some(text) => text,
            None => owned("Unknown error"),
        },
        Reply::Unreachable { reason } => reason,
        Reply::Malformed { reason } => reason,
        Reply::Success(_) => String::new(),
    }
}

impl Grant {
    /// The request whose reply the grant waits for.
    pub fn request(&self) -> (request: Request)
        ensures
            request@ == self@.request(),
    {
        let mut url = self.api_url.clone();
        url.append("/projects/");
        push_decimal(&mut url, self.project_id);
        match self.stage {
            Stage::Members => {
                url.append("/members");
                Request {
                    method: Method::Post,
                    url,
                    body: Body::Member {
                        user_id: self.user_id,
                        access_level: self.level.as_u64(),
                    },
                    expect: Expect::Nothing,
                }
            },
            Stage::Invitations { .. } => {
                url.append("/invitations");
                Request {
                    method: Method::Post,
                    url,
                    body: Body::Invitation {
                        user_id: decimal_string(self.user_id),
                        access_level: self.level.as_u64(),
                    },
                    expect: Expect::Nothing,
                }
            },
        }
    }

    fn fall_back(self, first: String) -> (step: GrantStep)
        ensures
            step@ == GrantStepView::Ask(
                self@.fallen_back(first@),
                self@.fallen_back(first@).request(),
            ),
    {
        let next = Grant {
            api_url: self.api_url,
            user_id: self.user_id,
            project_id: self.project_id,
            level: self.level,
            stage: Stage::Invitations { first },
        };
        let request = next.request();
        GrantStep::Ask(next, request)
    }

    /// Takes the reply to the last request and says how the grant goes on.
    pub fn step(self, reply: Reply) -> (step: GrantStep)
        ensures
            step@ == self@.after(reply@),
    {
        if reply.succeeded() {
            return GrantStep::Granted;
        }
        let text = text_of(reply);
        match self.stage {
            Stage::Members => self.fall_back(text),
            Stage::Invitations { first } => GrantStep::Failed(
                Failure::GrantFailed { members: first, invitations: text },
            ),
        }
    }
}

/// The operations on users.
pub struct UsersApi<'a> {
    client: &'a GitLabClient,
}

impl<'a> UsersApi<'a> {
    /// The address under which every endpoint lives.
    pub closed spec fn base(&self) -> Seq<char> {
        self.client.base()
    }

    /// The operations on users of `client`.
    pub fn new(client: &'a GitLabClient) -> (api: UsersApi<'a>)
        ensures
            api.base() == client.base(),
    {
        UsersApi { client }
    }

    /// The request that fetches the user with number `id`.
    pub fn get_by_id(&self, id: u64) -> (request: Request)
        ensures
            request@ == user_by_id(self.base(), id),
    {
        let mut url = owned(self.client.api_url());
        url.append("/users/");
        push_decimal(&mut url, id);
        Request { method: Method::Get, url, body: Body::Empty, expect: Expect::User }
    }

    /// The request that searches the users for `username`.
    pub fn get_by_username(&self, username: &str) -> (request: Request)
        ensures
            request@ == user_by_username(self.base(), username@),
    {
        let mut url = owned(self.client.api_url());
        url.append("/users?username=");
        url.append(username);
        Request { method: Method::Get, url, body: Body::Empty, expect: Expect::Users }
    }

    /// Begins the grant of `access_level` in project `project_id` to user
    /// `user_id`. The first request of the grant is `request()` of the result.
    pub fn add_to_project(&self, user_id: u64, project_id: u64, access_level: AccessLevel) -> (grant:
        Grant)
        ensures
            grant@ == GrantView::begin(self.base(), user_id, project_id, access_level),
    {
        Grant {
            api_url: owned(self.client.api_url()),
            user_id,
            project_id,
            level: access_level,
            stage: Stage::Members,
        }
    }

    /// The request that ends the membership of user `user_id` in project
    /// `project_id`.
    pub fn remove_from_project(&self, user_id: u64, project_id: u64) -> (request: Request)
        ensures
            request@ == removal_request(self.base(), user_id, project_id),
    {
        let mut url = owned(self.client.api_url());
        url.append("/projects/");
        push_decimal(&mut url, project_id);
        url.append("/members/");
        push_decimal(&mut url, user_id);
        Request { method: Method::Delete, url, body: Body::Empty, expect: Expect::Nothing }
    }

    /// The user that a reply to a lookup by number carries, or why there is none.
    pub fn read_user(reply: Reply) -> (user: Result<User, Failure>)
        ensures
            match user_in(reply@) {
                Ok(u) => user is Ok && user->Ok_0@ == u,
                Err(f) => user is Err && user->Err_0@ == f,
            },
    {
        match reply {
            Reply::Success(Payload::User(user)) => Ok(user),
            other => Err(Failure::of_reply(other)),
        }
    }

    /// The user that a reply to a search for `username` carries: the first
    /// of those found.
    pub fn read_first_user(reply: Reply, username: &str) -> (user: Result<User, Failure>)
        ensures
            match first_user_in(reply@, username@) {
                Ok(u) => user is Ok && user->Ok_0@ == u,
                Err(f) => user is Err && user->Err_0@ == f,
            },
    {
        match reply {
            Reply::Success(Payload::Users(users)) => {
                let mut users = users;
                if users.len() > 0 {
                    let ghost before = users@;
                    let user = users.swap_remove(0);
                    assert(views(before).first() == before[0]@);
                    Ok(user)
                } else {
                    assert(views(users@).len() == 0);
                    Err(Failure::UserNotFound { username: owned(username) })
                }
            },
            other => Err(Failure::of_reply(other)),
        }
    }
}

} // verus!
