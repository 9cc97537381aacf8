//! The entry point to the remote API.

use vstd::prelude::*;
use crate::gitlab::files::FilesApi;
use crate::gitlab::projects::ProjectsApi;
use crate::gitlab::users::UsersApi;
use crate::text::owned;

verus! {

/// Where the API lives and the token that opens it. The client plans
/// requests; sending them is the driver's part.
#[derive(Debug, Clone, PartialEq, Eq)]
pub struct GitLabClient {
    api_url: String,
    api_token: String,
}

impl GitLabClient {
    /// The address under which every endpoint lives.
    pub closed spec fn base(&self) -> Seq<char> {
        self.api_url@
    }

    /// The private token that every request carries.
    pub closed spec fn token(&self) -> Seq<char> {
        self.api_token@
    }

    /// A client for the API at `api_url`, with `api_token` as its token.
    pub fn new(api_url: &str, api_token: &str) -> (client: GitLabClient)
        ensures
            client.base() == api_url@,
            client.token() == api_token@,
    {
        GitLabClient { api_url: owned(api_url), api_token: owned(api_token) }
    }

    /// A client of its own for the same API, with the same token.
    pub fn duplicate(&self) -> (client: GitLabClient)
        ensures
            client.base() == self.base(),
            client.token() == self.token(),
    {
        GitLabClient { api_url: self.api_url.clone(), api_token: self.api_token.clone() }
    }

    /// The operations on projects.
    pub fn projects(&self) -> (api: ProjectsApi<'_>)
        ensures
            api.base() == self.base(),
    {
        ProjectsApi::new(self)
    }

    /// The operations on users.
    pub fn users(&self) -> (api: UsersApi<'_>)
        ensures
            api.base() == self.base(),
    {
        UsersApi::new(self)
    }

    /// The operations on the files of repositories.
    pub fn files(&self) -> (api: FilesApi<'_>)
        ensures
            api.base() == self.base(),
    {
        FilesApi::new(self)
    }

    /// The name of the header in which every request carries the token.
    pub fn token_header(&self) -> (name: &'static str)
        ensures
            name@ == "PRIVATE-TOKEN"@,
    {
        "PRIVATE-TOKEN"
    }

    /// The address under which every endpoint lives.
    pub fn api_url(&self) -> (url: &str)
        ensures
            url@ == self.base(),
    {
        self.api_url.as_str()
    }

    /// The private token that every request carries.
    pub fn api_token(&self) -> (token: &str)
        ensures
            token@ == self.token(),
    {
        self.api_token.as_str()
    }
}

} // verus!
