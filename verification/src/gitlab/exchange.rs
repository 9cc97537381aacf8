//! What passes between the library and the driver that talks to the server:
//! the request to send, and the reply that came back.

use vstd::prelude::*;
use crate::models::project::{optional_text, Project, ProjectView};
use crate::models::user::{User, UserView};
use crate::number::{decimal, push_decimal};
use crate::text::{join, joined, owned, views};

verus! {

/// The method of a request.
#[derive(Debug, Clone, Copy, PartialEq, Eq, Structural)]
pub enum Method {
    Get,
    Post,
    Put,
    Delete,
}

/// What the body of a successful reply is to be read as.
#[derive(Debug, Clone, Copy, PartialEq, Eq, Structural)]
pub enum Expect {
    /// The body is not read.
    Nothing,
    /// One project.
    Project,
    /// A list of projects.
    Projects,
    /// One user.
    User,
    /// A list of users.
    Users,
    /// A file of a repository, its content in base64.
    File,
}

/// The body of a request. Each variant is sent as one JSON object whose keys
/// are the names of the fields.
#[derive(Debug, Clone, PartialEq, Eq)]
pub enum Body {
    /// No body.
    Empty,
    /// The complete set of topics a project is to have.
    Topics { topics: Vec<String> },
    /// A membership, the user given by number.
    Member { user_id: u64, access_level: u64 },
    /// An invitation, the user given as text.
    Invitation { user_id: String, access_level: u64 },
    /// A commit of one file, its content in base64.
    Commit { branch: String, content: String, commit_message: String },
}

/// What a [`Body`] holds, as mathematical values.
pub enum BodyView {
    Empty,
    Topics { topics: Seq<Seq<char>> },
    Member { user_id: u64, access_level: u64 },
    Invitation { user_id: Seq<char>, access_level: u64 },
    Commit { branch: Seq<char>, content: Seq<char>, commit_message: Seq<char> },
}

impl View for Body {
    type V = BodyView;

    open spec fn view(&self) -> BodyView {
        match self {
            Body::Empty => BodyView::Empty,
            Body::Topics { topics } => BodyView::Topics { topics: views(topics@) },
            Body::Member { user_id, access_level } => BodyView::Member {
                user_id: *user_id,
                access_level: *access_level,
            },
            Body::Invitation { user_id, access_level } => BodyView::Invitation {
                user_id: user_id@,
                access_level: *access_level,
            },
            Body::Commit { branch, content, commit_message } => BodyView::Commit {
                branch: branch@,
                content: content@,
                commit_message: commit_message@,
            },
        }
    }
}

/// The JSON string that writes `text`: the text between quotes, with what
/// cannot stand between quotes escaped.
pub uninterp spec fn json_string(text: Seq<char>) -> Seq<char>;

/// `Display` of `serde_json::Value::String`: the compact JSON form of a
/// string, which depends on the string alone.
#[verifier::external_body]
fn json_quote(text: &str) -> (json: String)
    ensures
        json@ == json_string(text@),
{
    serde_json::Value::String(text.to_owned()).to_string()
}

/// The JSON strings that write `items`, in order.
pub open spec fn json_strings(items: Seq<Seq<char>>) -> Seq<Seq<char>> {
    items.map_values(|text: Seq<char>| json_string(text))
}

impl BodyView {
    /// The body as it is sent: one JSON object without white space, its
    /// keys in alphabetical order, numbers in decimal. No body is no text.
    pub open spec fn json(self) -> Option<Seq<char>> {
        match self {
            BodyView::Empty => None,
            BodyView::Topics { topics } => Some(
                "{\"topics\":["@ + joined(json_strings(topics), ","@) + "]}"@,
            ),
            BodyView::Member { user_id, access_level } => Some(
                "{\"access_level\":"@ + decimal(access_level as nat) + ",\"user_id\":"@ + decimal(
                    user_id as nat,
                ) + "}"@,
            ),
            BodyView::Invitation { user_id, access_level } => Some(
                "{\"access_level\":"@ + decimal(access_level as nat) + ",\"user_id\":"@
                    + json_string(user_id) + "}"@,
            ),
            BodyView::Commit { branch, content, commit_message } => Some(
                "{\"branch\":"@ + json_string(branch) + ",\"commit_message\":"@ + json_string(
                    commit_message,
                ) + ",\"content\":"@ + json_string(content) + "}"@,
            ),
        }
    }
}

fn push_json_strings(out: &mut String, items: &Vec<String>)
    ensures
        final(out)@ == old(out)@ + joined(json_strings(views(items@)), ","@),
{
    let ghost all = json_strings(views(items@));
    let ghost start = out@;
    let mut i: usize = 0;
    assert(all.take(0) == Seq::<Seq<char>>::empty());
    assert(start + joined(all.take(0), ","@) == start);
    while i < items.len()
        invariant
            i <= items.len(),
            all == json_strings(views(items@)),
            all.len() == items.len(),
            out@ == start + joined(all.take(i as int), ","@),
        decreases items.len() - i,
    {
        let ghost next = all.take(i + 1);
        assert(next.drop_last() == all.take(i as int));
        assert(next.last() == json_string(items@[i as int]@));
        let quoted = json_quote(items[i].as_str());
        if i > 0 {
            out.append(",");
            assert(out@ + quoted@ == start + (joined(all.take(i as int), ","@) + ","@ + quoted@));
        } else {
            assert(joined(all.take(0), ","@) == Seq::<char>::empty());
            assert(out@ + quoted@ == start + quoted@);
        }
        out.append(quoted.as_str());
        i += 1;
    }
    assert(all.take(items.len() as int) == all);
}

impl Body {
    /// The body as it is sent, or nothing where there is no body.
    pub fn json(&self) -> (text: Option<String>)
        ensures
            match self@.json() {
                Some(t) => text is Some && text->Some_0@ == t,
                None => text is None,
            },
    {
        match self {
            Body::Empty => None,
            Body::Topics { topics } => {
                let mut text = owned("{\"topics\":[");
                push_json_strings(&mut text, topics);
                text.append("]}");
                Some(text)
            },
            Body::Member { user_id, access_level } => {
                let mut text = owned("{\"access_level\":");
                push_decimal(&mut text, *access_level);
                text.append(",\"user_id\":");
                push_decimal(&mut text, *user_id);
                text.append("}");
                Some(text)
            },
            Body::Invitation { user_id, access_level } => {
                let mut text = owned("{\"access_level\":");
                push_decimal(&mut text, *access_level);
                text.append(",\"user_id\":");
                let user = json_quote(user_id.as_str());
                text.append(user.as_str());
                text.append("}");
                Some(text)
            },
            Body::Commit { branch, content, commit_message } => {
                let mut text = owned("{\"branch\":");
                let quoted = json_quote(branch.as_str());
                text.append(quoted.as_str());
                text.append(",\"commit_message\":");
                let quoted = json_quote(commit_message.as_str());
                text.append(quoted.as_str());
                text.append(",\"content\":");
                let quoted = json_quote(content.as_str());
                text.append(quoted.as_str());
                text.append("}");
                Some(text)
            },
        }
    }
}

/// One request to the server.
#[derive(Debug, Clone, PartialEq, Eq)]
pub struct Request {
    pub method: Method,
    pub url: String,
    pub body: Body,
    pub expect: Expect,
}

/// What a [`Request`] holds, as mathematical values.
pub struct RequestView {
    pub method: Method,
    pub url: Seq<char>,
    pub body: BodyView,
    pub expect: Expect,
}

impl View for Request {
    type V = RequestView;

    open spec fn view(&self) -> RequestView {
        RequestView { method: self.method, url: self.url@, body: self.body@, expect: self.expect }
    }
}

/// What a successful reply carried, read as the request asked.
#[derive(Debug, Clone, PartialEq, Eq)]
pub enum Payload {
    Nothing,
    Project(Project),
    Projects(Vec<Project>),
    User(User),
    Users(Vec<User>),
    File { content: String },
}

/// What a [`Payload`] holds, as mathematical values.
pub enum PayloadView {
    Nothing,
    Project(ProjectView),
    Projects(Seq<ProjectView>),
    User(UserView),
    Users(Seq<UserView>),
    File { content: Seq<char> },
}

impl View for Payload {
    type V = PayloadView;

    open spec fn view(&self) -> PayloadView {
        match self {
            Payload::Nothing => PayloadView::Nothing,
            Payload::Project(p) => PayloadView::Project(p@),
            Payload::Projects(ps) => PayloadView::Projects(views(ps@)),
            Payload::User(u) => PayloadView::User(u@),
            Payload::Users(us) => PayloadView::Users(views(us@)),
            Payload::File { content } => PayloadView::File { content: content@ },
        }
    }
}

/// How a request ended.
#[derive(Debug, Clone, PartialEq, Eq)]
pub enum Reply {
    /// No response arrived. `reason` is how the transport words the failure.
    Unreachable { reason: String },
    /// A response arrived with a status that is not a success. `reason` is
    /// how the transport words the status, `body` the text of the response
    /// if it could be read.
    Refused { reason: String, body: Option<String> },
    /// A response arrived with a success status, but its body could not be
    /// read as the request asked.
    Malformed { reason: String },
    /// A response arrived with a success status.
    Success(Payload),
}

/// What a [`Reply`] holds, as mathematical values.
pub enum ReplyView {
    Unreachable { reason: Seq<char> },
    Refused { reason: Seq<char>, body: Option<Seq<char>> },
    Malformed { reason: Seq<char> },
    Success(PayloadView),
}

impl View for Reply {
    type V = ReplyView;

    open spec fn view(&self) -> ReplyView {
        match self {
            Reply::Unreachable { reason } => ReplyView::Unreachable { reason: reason@ },
            Reply::Refused { reason, body } => ReplyView::Refused {
                reason: reason@,
                body: optional_text(*body),
            },
            Reply::Malformed { reason } => ReplyView::Malformed { reason: reason@ },
            Reply::Success(payload) => ReplyView::Success(payload@),
        }
    }
}

impl ReplyView {
    /// Whether the request succeeded: a response arrived with a success
    /// status, and what was to be read of it could be read.
    pub open spec fn succeeded(self) -> bool {
        self is Success
    }
}

impl Reply {
    /// Whether the request succeeded.
    pub fn succeeded(&self) -> (yes: bool)
        ensures
            yes == self@.succeeded(),
    {
        match self {
            Reply::Success(_) => true,
            _ => false,
        }
    }
}

/// Why a call to the remote API failed.
#[derive(Debug, Clone, PartialEq, Eq)]
pub enum Failure {
    /// No response arrived.
    Unreachable { reason: String },
    /// The server answered with a status that is not a success.
    Refused { reason: String, body: Option<String> },
    /// The body of the response could not be read.
    Malformed { reason: String },
    /// The reply carried something else than the request asked for.
    Unexpected,
    /// No user has this username.
    UserNotFound { username: String },
    /// Both the members endpoint and the invitations endpoint failed. Each
    /// field is the text of that endpoint's failure: the body with which it
    /// refused, or the reason for which it gave no answer that could be read.
    GrantFailed { members: String, invitations: String },
    /// More pages came back than the page counter can number.
    TooManyPages,
    /// The content of a file was not written in base64.
    NotBase64,
    /// The content of a file was not text.
    NotText,
}

/// What a [`Failure`] holds, as mathematical values.
pub enum FailureView {
    Unreachable { reason: Seq<char> },
    Refused { reason: Seq<char>, body: Option<Seq<char>> },
    Malformed { reason: Seq<char> },
    Unexpected,
    UserNotFound { username: Seq<char> },
    GrantFailed { members: Seq<char>, invitations: Seq<char> },
    TooManyPages,
    NotBase64,
    NotText,
}

impl View for Failure {
    type V = FailureView;

    open spec fn view(&self) -> FailureView {
        match self {
            Failure::Unreachable { reason } => FailureView::Unreachable { reason: reason@ },
            Failure::Refused { reason, body } => FailureView::Refused {
                reason: reason@,
                body: optional_text(*body),
            },
            Failure::Malformed { reason } => FailureView::Malformed { reason: reason@ },
            Failure::Unexpected => FailureView::Unexpected,
            Failure::UserNotFound { username } => FailureView::UserNotFound {
                username: username@,
            },
            Failure::GrantFailed { members, invitations } => FailureView::GrantFailed {
                members: members@,
                invitations: invitations@,
            },
            Failure::TooManyPages => FailureView::TooManyPages,
            Failure::NotBase64 => FailureView::NotBase64,
            Failure::NotText => FailureView::NotText,
        }
    }
}

impl FailureView {
    /// The failure in words. Where both endpoints of a grant failed, the
    /// texts of both failures stand in the message, the members endpoint
    /// first.
    pub open spec fn message(self) -> Seq<char> {
        match self {
            FailureView::Unreachable { reason } => reason,
            FailureView::Refused { reason, body } => reason,
            FailureView::Malformed { reason } => reason,
            FailureView::Unexpected => "Unexpected reply"@,
            FailureView::UserNotFound { username } => "User not found: "@ + username,
            FailureView::GrantFailed { members, invitations } =>
                "Failed to add user to project. Members endpoint error: "@ + members
                + ". Invitations endpoint error: "@ + invitations,
            FailureView::TooManyPages => "Too many pages"@,
            FailureView::NotBase64 => "File content is not base64"@,
            FailureView::NotText => "File content is not valid text"@,
        }
    }
}

impl Failure {
    /// The failure in words.
    pub fn message(&self) -> (text: String)
        ensures
            text@ == self@.message(),
    {
        match self {
            Failure::Unreachable { reason } => owned(reason.as_str()),
            Failure::Refused { reason, body } => owned(reason.as_str()),
            Failure::Malformed { reason } => owned(reason.as_str()),
            Failure::Unexpected => owned("Unexpected reply"),
            Failure::UserNotFound { username } => join("User not found: ", username.as_str()),
            Failure::GrantFailed { members, invitations } => {
                let mut text = join(
                    "Failed to add user to project. Members endpoint error: ",
                    members.as_str(),
                );
                text.append(". Invitations endpoint error: ");
                text.append(invitations.as_str());
                text
            },
            Failure::TooManyPages => owned("Too many pages"),
            Failure::NotBase64 => owned("File content is not base64"),
            Failure::NotText => owned("File content is not valid text"),
        }
    }

    /// The failure that a reply without success amounts to. A reply with a
    /// success status is no failure of the transport: it is `Unexpected`
    /// where the caller found in it something else than it asked for.
    pub fn of_reply(reply: Reply) -> (failure: Failure)
        ensures
            failure@ == failure_of(reply@),
    {
        match reply {
            Reply::Unreachable { reason } => Failure::Unreachable { reason },
            Reply::Refused { reason, body } => Failure::Refused { reason, body },
            Reply::Malformed { reason } => Failure::Malformed { reason },
            Reply::Success(_) => Failure::Unexpected,
        }
    }
}

/// The failure that a reply without success amounts to.
pub open spec fn failure_of(reply: ReplyView) -> FailureView {
    match reply {
        ReplyView::Unreachable { reason } => FailureView::Unreachable { reason },
        ReplyView::Refused { reason, body } => FailureView::Refused { reason, body },
        ReplyView::Malformed { reason } => FailureView::Malformed { reason },
        ReplyView::Success(_) => FailureView::Unexpected,
    }
}

} // verus!
