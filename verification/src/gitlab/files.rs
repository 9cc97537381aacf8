//! Operations on the files of a repository: probing whether a file exists,
//! fetching it, and writing it by creating or updating.

use vstd::prelude::*;
use vstd::utf8::{decode_utf8, encode_utf8, valid_utf8};
use crate::encoding::{
    base64_decode, base64_encode, base64_fits, base64_standard, base64_standard_decoded,
    url_encode, url_encoded, utf8_text,
};
use crate::gitlab::client::GitLabClient;
use crate::gitlab::exchange::{
    failure_of, Body, BodyView, Expect, Failure, FailureView, Method, Payload, PayloadView, Reply,
    ReplyView, Request, RequestView,
};
use crate::number::{decimal, push_decimal};
use crate::text::owned;

verus! {

/// The address of the file at `path` in the repository of project
/// `project_id`, the path written as one segment of the URL.
pub open spec fn file_url(base: Seq<char>, project_id: u64, path: Seq<char>) -> Seq<char> {
    base + "/projects/"@ + decimal(project_id as nat) + "/repository/files/"@ + url_encoded(path)
}

/// The request that probes whether the file exists on `branch`. Only the
/// status of the reply is looked at.
pub open spec fn file_probe(
    base: Seq<char>,
    project_id: u64,
    path: Seq<char>,
    branch: Seq<char>,
) -> RequestView {
    RequestView {
        method: Method::Get,
        url: file_url(base, project_id, path) + "?ref="@ + branch,
        body: BodyView::Empty,
        expect: Expect::Nothing,
    }
}

/// The request that fetches the file as it is on `branch`.
pub open spec fn file_fetch(
    base: Seq<char>,
    project_id: u64,
    path: Seq<char>,
    branch: Seq<char>,
) -> RequestView {
    RequestView {
        method: Method::Get,
        url: file_url(base, project_id, path) + "?ref="@ + branch,
        body: BodyView::Empty,
        expect: Expect::File,
    }
}

/// How the text `content` travels in a request: its UTF-8 bytes in base64.
pub open spec fn encoded_content(content: Seq<char>) -> Seq<char> {
    base64_standard(encode_utf8(content))
}

/// The request that writes the file on `branch` with the commit message
/// `message`: an update if the file `exists`, a creation if it does not.
/// `encoded` is the content as it travels.
pub open spec fn file_write(
    base: Seq<char>,
    exists: bool,
    project_id: u64,
    path: Seq<char>,
    branch: Seq<char>,
    message: Seq<char>,
    encoded: Seq<char>,
) -> RequestView {
    RequestView {
        method: if exists {
            Method::Put
        } else {
            Method::Post
        },
        url: file_url(base, project_id, path),
        body: BodyView::Commit { branch, content: encoded, commit_message: message },
        expect: Expect::Nothing,
    }
}

/// What a probe has found out: the file exists if the probe succeeded. A
/// probe that failed in whatever way, be it no response, a status that is
/// no success, or a response that could not be read, counts as "does not
/// exist".
pub open spec fn file_found(reply: ReplyView) -> bool {
    reply.succeeded()
}

/// The text of the file that a reply to a fetch carries, or why there is none.
pub open spec fn content_in(reply: ReplyView) -> Result<Seq<char>, FailureView> {
    match reply {
        ReplyView::Success(PayloadView::File { content }) => match base64_standard_decoded(
            encode_utf8(content),
        ) {
            Some(bytes) => if valid_utf8(bytes) {
                Ok(decode_utf8(bytes))
            } else {
                Err(FailureView::NotText)
            },
            None => Err(FailureView::NotBase64),
        },
        _ => Err(failure_of(reply)),
    }
}

/// A probe that fails, be it for no response, for a refusal or for anything
/// else, leads to a creation, and a probe that succeeds leads to an update.
pub proof fn lemma_probe_routes(
    reply: ReplyView,
    base: Seq<char>,
    project_id: u64,
    path: Seq<char>,
    branch: Seq<char>,
    message: Seq<char>,
    encoded: Seq<char>,
)
    ensures
        !reply.succeeded() ==> file_write(
            base,
            file_found(reply),
            project_id,
            path,
            branch,
            message,
            encoded,
        ).method == Method::Post,
        reply.succeeded() ==> file_write(
            base,
            file_found(reply),
            project_id,
            path,
            branch,
            message,
            encoded,
        ).method == Method::Put,
{
}

/// The operations on the files of repositories.
pub struct FilesApi<'a> {
    client: &'a GitLabClient,
}

impl<'a> FilesApi<'a> {
    /// The address under which every endpoint lives.
    pub closed spec fn base(&self) -> Seq<char> {
        self.client.base()
    }

    /// The operations on files of `client`.
    pub fn new(client: &'a GitLabClient) -> (api: FilesApi<'a>)
        ensures
            api.base() == client.base(),
    {
        FilesApi { client }
    }

    fn url_of(&self, project_id: u64, file_path: &str) -> (url: String)
        ensures
            url@ == file_url(self.base(), project_id, file_path@),
    {
        let mut url = owned(self.client.api_url());
        url.append("/projects/");
        push_decimal(&mut url, project_id);
        url.append("/repository/files/");
        let segment = url_encode(file_path);
        url.append(segment.as_str());
        url
    }

    /// The request that probes whether the file at `file_path` exists on
    /// `branch` of project `project_id`.
    pub fn file_exists(&self, project_id: u64, file_path: &str, branch: &str) -> (request: Request)
        ensures
            request@ == file_probe(self.base(), project_id, file_path@, branch@),
    {
        let mut url = self.url_of(project_id, file_path);
        url.append("?ref=");
        url.append(branch);
        Request { method: Method::Get, url, body: Body::Empty, expect: Expect::Nothing }
    }

    /// What a probe has found out: whether the file exists.
    pub fn found(reply: &Reply) -> (exists: bool)
        ensures
            exists == file_found(reply@),
    {
        reply.succeeded()
    }

    /// The request that fetches the file at `file_path` as it is on `branch`
    /// of project `project_id`.
    pub fn get_file_content(&self, project_id: u64, file_path: &str, branch: &str) -> (request:
        Request)
        ensures
            request@ == file_fetch(self.base(), project_id, file_path@, branch@),
    {
        let mut url = self.url_of(project_id, file_path);
        url.append("?ref=");
        url.append(branch);
        Request { method: Method::Get, url, body: Body::Empty, expect: Expect::File }
    }

    /// The text of the file that a reply to a fetch carries, or why there is
    /// none.
    pub fn read_content(reply: Reply) -> (content: Result<String, Failure>)
        ensures
            match content_in(reply@) {
                Ok(text) => content is Ok && content->Ok_0@ == text,
                Err(f) => content is Err && content->Err_0@ == f,
            },
    {
        match reply {
            Reply::Success(Payload::File { content }) => match base64_decode(content.as_str()) {
                Ok(bytes) => match utf8_text(bytes) {
                    Ok(text) => Ok(text),
                    Err(_) => Err(Failure::NotText),
                },
                Err(_) => Err(Failure::NotBase64),
            },
            other => Err(Failure::of_reply(other)),
        }
    }

    /// The content as it travels in a request, or nothing if its encoded
    /// form is too long for this machine to hold.
    pub fn encode(content: &str) -> (encoded: Option<String>)
        ensures
            match encoded {
                Some(text) => base64_fits(encode_utf8(content@).len()) && text@
                    == encoded_content(content@),
                None => !base64_fits(encode_utf8(content@).len()),
            },
    {
        let len: usize = content.as_bytes().len();
        let padding: usize = if len % 3 > 0 {
            4
        } else {
            0
        };
        if len / 3 > (usize::MAX - padding) / 4 {
            None
        } else {
            Some(base64_encode(content))
        }
    }

    /// The request that writes the file at `file_path` on `branch` of project
    /// `project_id`: an update if the file `exists`, a creation if not.
    /// `encoded` is the content as it travels.
    pub fn write_file(
        &self,
        exists: bool,
        project_id: u64,
        file_path: &str,
        branch: &str,
        commit_message: &str,
        encoded: &str,
    ) -> (request: Request)
        ensures
            request@ == file_write(
                self.base(),
                exists,
                project_id,
                file_path@,
                branch@,
                commit_message@,
                encoded@,
            ),
    {
        Request {
            method: if exists {
                Method::Put
            } else {
                Method::Post
            },
            url: self.url_of(project_id, file_path),
            body: Body::Commit {
                branch: owned(branch),
                content: owned(encoded),
                commit_message: owned(commit_message),
            },
            expect: Expect::Nothing,
        }
    }

    /// The request that creates the file at `file_path` on `branch` of
    /// project `project_id` with the text `content`.
    pub fn create_file(
        &self,
        project_id: u64,
        file_path: &str,
        branch: &str,
        commit_message: &str,
        content: &str,
    ) -> (request: Request)
        requires
            base64_fits(encode_utf8(content@).len()),
        ensures
            request@ == file_write(
                self.base(),
                false,
                project_id,
                file_path@,
                branch@,
                commit_message@,
                encoded_content(content@),
            ),
    {
        let encoded = base64_encode(content);
        self.write_file(false, project_id, file_path, branch, commit_message, encoded.as_str())
    }

    /// The request that updates the file at `file_path` on `branch` of
    /// project `project_id` to the text `content`.
    pub fn update_file(
        &self,
        project_id: u64,
        file_path: &str,
        branch: &str,
        commit_message: &str,
        content: &str,
    ) -> (request: Request)
        requires
            base64_fits(encode_utf8(content@).len()),
        ensures
            request@ == file_write(
                self.base(),
                true,
                project_id,
                file_path@,
                branch@,
                commit_message@,
                encoded_content(content@),
            ),
    {
        let encoded = base64_encode(content);
        self.write_file(true, project_id, file_path, branch, commit_message, encoded.as_str())
    }
}

} // verus!
