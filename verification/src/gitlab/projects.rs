//! Operations on projects: lookup by number or by path, listing page by page,
//! and replacing the set of topics.

use vstd::prelude::*;
use crate::encoding::{url_encode, url_encoded};
use crate::gitlab::client::GitLabClient;
use crate::gitlab::exchange::{
    failure_of, Body, BodyView, Expect, Failure, FailureView, Method, Payload, PayloadView, Reply,
    ReplyView, Request, RequestView,
};
use crate::models::project::{Project, ProjectView};
use crate::number::{decimal, push_decimal};
use crate::text::{copy_strings, lemma_views_concat, owned, views};

verus! {

/// The request that fetches the project with number `id`.
pub open spec fn project_by_id(base: Seq<char>, id: u64) -> RequestView {
    RequestView {
        method: Method::Get,
        url: base + "/projects/"@ + decimal(id as nat),
        body: BodyView::Empty,
        expect: Expect::Project,
    }
}

/// The request that fetches the project at `path`, the path written as one
/// segment of the URL.
pub open spec fn project_by_path(base: Seq<char>, path: Seq<char>) -> RequestView {
    RequestView {
        method: Method::Get,
        url: base + "/projects/"@ + url_encoded(path),
        body: BodyView::Empty,
        expect: Expect::Project,
    }
}

/// The request that replaces the topics of project `id` by `topics`: the
/// whole set is sent, not a change to it.
pub open spec fn topics_update(base: Seq<char>, id: u64, topics: Seq<Seq<char>>) -> RequestView {
    RequestView {
        method: Method::Put,
        url: base + "/projects/"@ + decimal(id as nat),
        body: BodyView::Topics { topics },
        expect: Expect::Project,
    }
}

/// The address of the list of all projects, a hundred to a page.
pub open spec fn all_projects(base: Seq<char>) -> Seq<char> {
    base + "/projects?per_page=100"@
}

/// The address of the list of the projects tagged `topic`, a hundred to a page.
pub open spec fn projects_with_topic(base: Seq<char>, topic: Seq<char>) -> Seq<char> {
    base + "/projects?topic="@ + url_encoded(topic) + "&per_page=100"@
}

/// The request for page `page` of the list at `listing`.
pub open spec fn page_request(listing: Seq<char>, page: u64) -> RequestView {
    RequestView {
        method: Method::Get,
        url: listing + "&page="@ + decimal(page as nat),
        body: BodyView::Empty,
        expect: Expect::Projects,
    }
}

/// The project that a reply to a lookup carries, or why there is none.
pub open spec fn project_in(reply: ReplyView) -> Result<ProjectView, FailureView> {
    match reply {
        ReplyView::Success(PayloadView::Project(project)) => Ok(project),
        _ => Err(failure_of(reply)),
    }
}

/// The operations on projects.
pub struct ProjectsApi<'a> {
    client: &'a GitLabClient,
}

impl<'a> ProjectsApi<'a> {
    /// The address under which every endpoint lives.
    pub closed spec fn base(&self) -> Seq<char> {
        self.client.base()
    }

    /// The operations on projects of `client`.
    pub fn new(client: &'a GitLabClient) -> (api: ProjectsApi<'a>)
        ensures
            api.base() == client.base(),
    {
        ProjectsApi { client }
    }

    fn project_url(&self, id: u64) -> (url: String)
        ensures
            url@ == self.base() + "/projects/"@ + decimal(id as nat),
    {
        let mut url = owned(self.client.api_url());
        url.append("/projects/");
        push_decimal(&mut url, id);
        url
    }

    /// The request that fetches the project with number `id`.
    pub fn get_by_id(&self, id: u64) -> (request: Request)
        ensures
            request@ == project_by_id(self.base(), id),
    {
        Request {
            method: Method::Get,
            url: self.project_url(id),
            body: Body::Empty,
            expect: Expect::Project,
        }
    }

    /// The request that fetches the project at `path`.
    pub fn get_by_path(&self, path: &str) -> (request: Request)
        ensures
            request@ == project_by_path(self.base(), path@),
    {
        let mut url = owned(self.client.api_url());
        url.append("/projects/");
        let segment = url_encode(path);
        url.append(segment.as_str());
        Request { method: Method::Get, url, body: Body::Empty, expect: Expect::Project }
    }

    /// The request that replaces the topics of project `project_id` by `topics`.
    pub fn update_topics(&self, project_id: u64, topics: &Vec<String>) -> (request: Request)
        ensures
            request@ == topics_update(self.base(), project_id, views(topics@)),
    {
        Request {
            method: Method::Put,
            url: self.project_url(project_id),
            body: Body::Topics { topics: copy_strings(topics) },
            expect: Expect::Project,
        }
    }

    /// The listing of the projects tagged `topic`, before its first page.
    pub fn find_by_topic(&self, topic: &str) -> (pager: Pager)
        ensures
            pager@ == first_page(projects_with_topic(self.base(), topic@)),
    {
        let mut url = owned(self.client.api_url());
        url.append("/projects?topic=");
        let segment = url_encode(topic);
        url.append(segment.as_str());
        url.append("&per_page=100");
        Pager::new(url)
    }

    /// The listing of all projects, before its first page.
    pub fn list(&self) -> (pager: Pager)
        ensures
            pager@ == first_page(all_projects(self.base())),
    {
        let mut url = owned(self.client.api_url());
        url.append("/projects?per_page=100");
        Pager::new(url)
    }

    /// The project that a reply to a lookup carries, or why there is none.
    pub fn read_project(reply: Reply) -> (project: Result<Project, Failure>)
        ensures
            match project_in(reply@) {
                Ok(p) => project is Ok && project->Ok_0@ == p,
                Err(f) => project is Err && project->Err_0@ == f,
            },
    {
        match reply {
            Reply::Success(Payload::Project(project)) => Ok(project),
            other => Err(Failure::of_reply(other)),
        }
    }
}

/// A listing that is read page by page. The pages are asked for in order,
/// from page 1, and what they hold is collected in the order it arrives.
#[derive(Debug, Clone, PartialEq, Eq)]
pub struct Pager {
    listing: String,
    page: u64,
    items: Vec<Project>,
}

/// What a [`Pager`] holds, as mathematical values.
pub struct PagerView {
    /// The address of the list, without the number of a page.
    pub listing: Seq<char>,
    /// The number of the page to ask for next.
    pub page: u64,
    /// What the pages before it held.
    pub items: Seq<ProjectView>,
}

impl View for Pager {
    type V = PagerView;

    closed spec fn view(&self) -> PagerView {
        PagerView { listing: self.listing@, page: self.page, items: views(self.items@) }
    }
}

/// Where a listing stands after a reply.
#[derive(Debug, Clone, PartialEq, Eq)]
pub enum PageStep {
    /// The page held something: the next page is to be asked for.
    More(Pager),
    /// The page was empty: the listing is complete.
    Done(Vec<Project>),
    /// The page could not be had, and the listing is given up.
    Failed(Failure),
}

/// What a [`PageStep`] holds, as mathematical values.
pub enum PageStepView {
    More(PagerView),
    Done(Seq<ProjectView>),
    Failed(FailureView),
}

impl View for PageStep {
    type V = PageStepView;

    open spec fn view(&self) -> PageStepView {
        match self {
            PageStep::More(pager) => PageStepView::More(pager@),
            PageStep::Done(items) => PageStepView::Done(views(items@)),
            PageStep::Failed(failure) => PageStepView::Failed(failure@),
        }
    }
}

/// The listing at `listing` before any page was asked for.
pub open spec fn first_page(listing: Seq<char>) -> PagerView {
    PagerView { listing, page: 1, items: Seq::empty() }
}

/// Where the listing `pager` stands after `reply` to its request. An empty
/// page ends the listing with what was collected; a page that holds
/// something is added behind what was collected; anything but a page of
/// projects gives the listing up.
pub open spec fn after_page(pager: PagerView, reply: ReplyView) -> PageStepView {
    match reply {
        ReplyView::Success(PayloadView::Projects(batch)) => {
            if batch.len() == 0 {
                PageStepView::Done(pager.items)
            } else if pager.page == u64::MAX {
                PageStepView::Failed(FailureView::TooManyPages)
            } else {
                PageStepView::More(
                    PagerView {
                        listing: pager.listing,
                        page: (pager.page + 1) as u64,
                        items: pager.items + batch,
                    },
                )
            }
        },
        _ => PageStepView::Failed(failure_of(reply)),
    }
}

/// Where the listing `pager` stands after the server has answered its
/// requests with `pages`, one after another. A reply that comes after the
/// listing has ended is not looked at.
pub open spec fn after_pages(pager: PagerView, pages: Seq<Seq<ProjectView>>) -> PageStepView
    decreases pages.len(),
{
    if pages.len() == 0 {
        PageStepView::More(pager)
    } else {
        match after_page(pager, ReplyView::Success(PayloadView::Projects(pages.first()))) {
            PageStepView::More(next) => after_pages(next, pages.drop_first()),
            other => other,
        }
    }
}

/// The items of `pages`, page after page.
pub open spec fn concatenated(pages: Seq<Seq<ProjectView>>) -> Seq<ProjectView> {
    pages.flatten()
}

/// As long as the pages hold something the listing goes on, asking for one
/// page after the other and keeping what they held in the order of arrival.
pub proof fn lemma_pages_accumulate(pager: PagerView, pages: Seq<Seq<ProjectView>>)
    requires
        forall|i: int| 0 <= i < pages.len() ==> (#[trigger] pages[i]).len() > 0,
        pager.page + pages.len() <= u64::MAX,
    ensures
        after_pages(pager, pages) == PageStepView::More(
            PagerView {
                listing: pager.listing,
                page: (pager.page + pages.len()) as u64,
                items: pager.items + concatenated(pages),
            },
        ),
    decreases pages.len(),
{
    if pages.len() == 0 {
        assert(pager.items + concatenated(pages) == pager.items);
    } else {
        let next = PagerView {
            listing: pager.listing,
            page: (pager.page + 1) as u64,
            items: pager.items + pages.first(),
        };
        let rest = pages.drop_first();
        assert forall|i: int| 0 <= i < rest.len() implies (#[trigger] rest[i]).len() > 0 by {
            assert(rest[i] == pages[i + 1]);
        }
        lemma_pages_accumulate(next, rest);
        assert(concatenated(pages) == pages.first() + concatenated(rest));
        assert(pager.items + concatenated(pages) == next.items + concatenated(rest));
    }
}

/// A listing ends exactly at the first empty page, and gives the items of
/// the pages before it, in the order of the pages and in the order within
/// each page. Before that page it has not ended.
pub proof fn lemma_pagination(pager: PagerView, pages: Seq<Seq<ProjectView>>, k: int)
    requires
        0 <= k < pages.len(),
        forall|i: int| 0 <= i < k ==> (#[trigger] pages[i]).len() > 0,
        pages[k].len() == 0,
        pager.page + k <= u64::MAX,
    ensures
        after_pages(pager, pages.take(k + 1)) == PageStepView::Done(
            pager.items + concatenated(pages.take(k)),
        ),
        forall|j: int| 0 <= j <= k ==> (#[trigger] after_pages(pager, pages.take(j))) is More,
    decreases k,
{
    assert forall|j: int| 0 <= j <= k implies (#[trigger] after_pages(pager, pages.take(j)))
        is More by {
        lemma_pages_accumulate(pager, pages.take(j));
    }
    if k == 0 {
        assert(pages.take(0) == Seq::<Seq<ProjectView>>::empty());
        assert(pager.items + concatenated(pages.take(0)) == pager.items);
        assert(pages.take(1).first() == pages[0]);
    } else {
        let next = PagerView {
            listing: pager.listing,
            page: (pager.page + 1) as u64,
            items: pager.items + pages.first(),
        };
        let rest = pages.drop_first();
        assert forall|i: int| 0 <= i < k - 1 implies (#[trigger] rest[i]).len() > 0 by {
            assert(rest[i] == pages[i + 1]);
        }
        lemma_pagination(next, rest, k - 1);
        assert(pages.take(k + 1).first() == pages.first());
        assert(pages.take(k + 1).drop_first() == rest.take(k));
        assert(pages.take(k).drop_first() == rest.take(k - 1));
        assert(pages.take(k).first() == pages.first());
        assert(concatenated(pages.take(k)) == pages.first() + concatenated(rest.take(k - 1)));
        assert(pager.items + concatenated(pages.take(k)) == next.items + concatenated(
            rest.take(k - 1),
        ));
    }
}

/// A listing adds no repetitions of its own: if no project stands twice in
/// the pages before the first empty page, none stands twice in what the
/// listing gives.
pub proof fn lemma_pagination_repeats_nothing(
    listing: Seq<char>,
    pages: Seq<Seq<ProjectView>>,
    k: int,
)
    requires
        0 <= k < pages.len(),
        forall|i: int| 0 <= i < k ==> (#[trigger] pages[i]).len() > 0,
        pages[k].len() == 0,
        k < u64::MAX,
        concatenated(pages.take(k)).no_duplicates(),
    ensures
        after_pages(first_page(listing), pages.take(k + 1)) matches PageStepView::Done(items)
            && items.no_duplicates() && items == concatenated(pages.take(k)),
{
    lemma_pagination(first_page(listing), pages, k);
    assert(Seq::<ProjectView>::empty() + concatenated(pages.take(k)) == concatenated(
        pages.take(k),
    ));
}

impl Pager {
    /// The listing at `listing` before any page was asked for.
    pub fn new(listing: String) -> (pager: Pager)
        ensures
            pager@ == first_page(listing@),
    {
        let pager = Pager { listing, page: 1, items: Vec::new() };
        assert(views(pager.items@) == Seq::<ProjectView>::empty());
        pager
    }

    /// The address of the list, without the number of a page.
    pub fn listing(&self) -> (listing: &str)
        ensures
            listing@ == self@.listing,
    {
        self.listing.as_str()
    }

    /// The request for the page that is to be asked for next.
    pub fn request(&self) -> (request: Request)
        ensures
            request@ == page_request(self@.listing, self@.page),
    {
        let mut url = self.listing.clone();
        url.append("&page=");
        push_decimal(&mut url, self.page);
        Request { method: Method::Get, url, body: Body::Empty, expect: Expect::Projects }
    }

    /// Takes the reply to the last request and says how the listing goes on.
    pub fn accept(self, reply: Reply) -> (step: PageStep)
        ensures
            step@ == after_page(self@, reply@),
    {
        match reply {
            Reply::Success(Payload::Projects(batch)) => {
                if batch.len() == 0 {
                    PageStep::Done(self.items)
                } else if self.page == u64::MAX {
                    PageStep::Failed(Failure::TooManyPages)
                } else {
                    let mut batch = batch;
                    let mut items = self.items;
                    proof {
                        lemma_views_concat(items@, batch@);
                    }
                    items.append(&mut batch);
                    PageStep::More(Pager { listing: self.listing, page: self.page + 1, items })
                }
            },
            other => PageStep::Failed(Failure::of_reply(other)),
        }
    }
}

} // verus!
