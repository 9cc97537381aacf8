//! A hosted project as the client knows it.

use vstd::prelude::*;
use crate::text::views;

verus! {

/// A project of the hosting service. `id` and `path_with_namespace` each
/// identify it; `topics` is its set of tags, kept in the order the service
/// gave them.
#[derive(Debug, Clone, PartialEq, Eq)]
pub struct Project {
    pub id: u64,
    pub path_with_namespace: String,
    pub name: String,
    pub description: Option<String>,
    pub default_branch: Option<String>,
    pub visibility: String,
    pub web_url: String,
    pub topics: Vec<String>,
}

/// What a [`Project`] holds, as mathematical values.
pub struct ProjectView {
    pub id: u64,
    pub path_with_namespace: Seq<char>,
    pub name: Seq<char>,
    pub description: Option<Seq<char>>,
    pub default_branch: Option<Seq<char>>,
    pub visibility: Seq<char>,
    pub web_url: Seq<char>,
    pub topics: Seq<Seq<char>>,
}

/// The text of an optional string.
pub open spec fn optional_text(s: Option<String>) -> Option<Seq<char>> {
    match s {
        Some(t) => Some(t@),
        None => None,
    }
}

impl View for Project {
    type V = ProjectView;

    open spec fn view(&self) -> ProjectView {
        ProjectView {
            id: self.id,
            path_with_namespace: self.path_with_namespace@,
            name: self.name@,
            description: optional_text(self.description),
            default_branch: optional_text(self.default_branch),
            visibility: self.visibility@,
            web_url: self.web_url@,
            topics: views(self.topics@),
        }
    }
}

} // verus!
