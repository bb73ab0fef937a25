//! The paginated project listing, and the lookup of a project's identifier by its name.

use crate::endpoints::{PER_PAGE, PROJECTS_URL};
use crate::failure::{outcome_view, Failure, FailureView};
use crate::first::{first_index, is_first, lemma_first_index};
use crate::http::{field, Fields, HttpRequest, HttpRequestView};
use crate::text::{decimal, decimal_text, same_text};
use vstd::prelude::*;

verus! {

/// One project as the listing endpoint describes it.
#[derive(Clone, Debug)]
pub struct Project {
    pub id: u32,
    pub name: String,
    pub usage_alert_threshold: Option<String>,
}

/// Where a page stands in the listing. No `next_page` marks the last page.
#[derive(Clone, Copy, Debug)]
pub struct Pagination {
    pub page: u32,
    pub per_page: u32,
    pub next_page: Option<u32>,
}

#[derive(Clone, Copy, Debug)]
pub struct Meta {
    pub pagination: Pagination,
}

/// One page of the listing.
#[derive(Clone, Debug)]
pub struct ProjectListResponse {
    pub projects: Vec<Project>,
    pub meta: Meta,
}

/// The condition on an index of `projects`: the entry there bears `name`.
pub open spec fn bears(projects: Seq<Project>, name: Seq<char>) -> spec_fn(int) -> bool {
    |i: int| projects[i].name@ == name
}

/// The index of the first entry of `projects` that bears `name`.
pub open spec fn first_named(projects: Seq<Project>, name: Seq<char>) -> Option<int> {
    first_index(projects.len() as int, bears(projects, name))
}

/// The identifier of the first entry of `projects` that bears `name`.
pub open spec fn id_in_page(projects: Seq<Project>, name: Seq<char>) -> Option<u32> {
    match first_named(projects, name) {
        Some(i) => Some(projects[i].id),
        None => None,
    }
}

/// Scans one page for `name` and gives the identifier of the first entry that bears it.
/// The comparison is exact: case counts.
pub fn find_in_page(projects: &Vec<Project>, name: &str) -> (found: Option<u32>)
    ensures
        found == id_in_page(projects@, name@),
{
    let mut i: usize = 0;
    while i < projects.len()
        invariant
            i <= projects.len(),
            forall|j: int| 0 <= j < i ==> !#[trigger] bears(projects@, name@)(j),
        decreases projects.len() - i,
    {
        if same_text(projects[i].name.as_str(), name) {
            proof {
                lemma_first_index(projects@.len() as int, bears(projects@, name@));
                assert(is_first(projects@.len() as int, bears(projects@, name@), i as int));
            }
            return Some(projects[i].id);
        }
        i += 1;
    }
    proof {
        lemma_first_index(projects@.len() as int, bears(projects@, name@));
    }
    None
}

/// Which page to ask for, and with how many entries a page.
#[derive(Clone, Copy, Debug, PartialEq, Eq, Structural)]
pub struct PageRequest {
    pub page: u32,
    pub per_page: u32,
}

/// What the lookup does next.
#[derive(Debug)]
pub enum ResolverStep {
    /// Ask the listing endpoint for this page.
    Fetch(PageRequest),
    /// The name was found; this is the project's identifier.
    Found(u32),
    /// The lookup is over without an identifier.
    Failed(Failure),
}

/// The mathematical content of a [`ResolverStep`].
pub ghost enum ResolverStepView {
    Fetch(PageRequest),
    Found(u32),
    Failed(FailureView),
}

impl View for ResolverStep {
    type V = ResolverStepView;

    open spec fn view(&self) -> ResolverStepView {
        match self {
            ResolverStep::Fetch(request) => ResolverStepView::Fetch(*request),
            ResolverStep::Found(id) => ResolverStepView::Found(*id),
            ResolverStep::Failed(failure) => ResolverStepView::Failed(failure@),
        }
    }
}

/// The first request of a lookup: page 1.
pub fn first_request() -> (request: PageRequest)
    ensures
        request == (PageRequest { page: 1, per_page: PER_PAGE }),
{
    PageRequest { page: 1, per_page: PER_PAGE }
}

/// The step that follows a page: the identifier if the page holds the name, else the next
/// page if the page names one, else the end of the lookup.
pub open spec fn step_after(name: Seq<char>, page: ProjectListResponse) -> ResolverStepView {
    match id_in_page(page.projects@, name) {
        Some(id) => ResolverStepView::Found(id),
        None => match page.meta.pagination.next_page {
            Some(next) => ResolverStepView::Fetch(PageRequest { page: next, per_page: PER_PAGE }),
            None => ResolverStepView::Failed(FailureView::ProjectNotFound(name)),
        },
    }
}

/// Decides what follows the page that was just fetched.
pub fn after_page(name: &str, page: &ProjectListResponse) -> (step: ResolverStep)
    ensures
        step@ == step_after(name@, *page),
{
    match find_in_page(&page.projects, name) {
        Some(id) => ResolverStep::Found(id),
        None => match page.meta.pagination.next_page {
            Some(next) => ResolverStep::Fetch(PageRequest { page: next, per_page: PER_PAGE }),
            None => ResolverStep::Failed(Failure::ProjectNotFound(name.to_owned())),
        },
    }
}

/// The query of the request for a page: how many entries a page, and which page, both in
/// decimal notation.
pub open spec fn page_query(request: PageRequest) -> Seq<(Seq<char>, Seq<char>)> {
    seq![
        ("per_page"@, decimal_text(request.per_page as nat)),
        ("page"@, decimal_text(request.page as nat)),
    ]
}

/// The request that fetches a page of the listing: a `GET` of the listing endpoint,
/// authorized by the bearer token as it is. It carries nothing else: not the name that
/// is looked up.
pub fn page_fetch(token: &str, request: PageRequest) -> (fetch: HttpRequest)
    ensures
        fetch@ == (HttpRequestView::GetAuthorized {
            url: PROJECTS_URL@,
            query: page_query(request),
            bearer: token@,
        }),
{
    let mut query: Fields = Vec::new();
    query.push(field("per_page", decimal(request.per_page).as_str()));
    query.push(field("page", decimal(request.page).as_str()));
    assert(query.deep_view() =~= page_query(request));
    HttpRequest::GetAuthorized {
        url: PROJECTS_URL.to_owned(),
        query,
        bearer: token.to_owned(),
    }
}

/// What came of the request for a page.
#[derive(Debug)]
pub enum Fetched {
    /// The page, as the endpoint served it.
    Page(ProjectListResponse),
    /// No page: the request failed, or the answer could not be read as a page.
    Failed { reason: String },
}

/// The step that follows the request for a page. A page is searched and leads on as
/// `step_after` says; where none came, the lookup ends at once, with no page skipped and
/// nothing found.
pub open spec fn step_after_fetch(name: Seq<char>, fetched: Fetched) -> ResolverStepView {
    match fetched {
        Fetched::Page(page) => step_after(name, page),
        Fetched::Failed { reason } => ResolverStepView::Failed(
            FailureView::PageFetchFailed { reason: reason@ },
        ),
    }
}

/// Decides what follows the request for a page.
pub fn after_fetch(name: &str, fetched: &Fetched) -> (step: ResolverStep)
    ensures
        step@ == step_after_fetch(name@, *fetched),
{
    match fetched {
        Fetched::Page(page) => after_page(name, page),
        Fetched::Failed { reason } => ResolverStep::Failed(fetch_failed(reason.as_str())),
    }
}

/// The failure that ends a lookup when a page cannot be fetched or read.
pub fn fetch_failed(reason: &str) -> (failure: Failure)
    ensures
        failure@ == (FailureView::PageFetchFailed { reason: reason@ }),
{
    Failure::PageFetchFailed { reason: reason.to_owned() }
}

/// The condition on an index of `pages`: the page there holds an entry that bears `name`.
pub open spec fn holds_name(pages: Seq<ProjectListResponse>, name: Seq<char>) -> spec_fn(
    int,
) -> bool {
    |k: int| first_named(pages[k].projects@, name) is Some
}

/// The index of the first page of `pages` that holds an entry bearing `name`.
pub open spec fn first_page(pages: Seq<ProjectListResponse>, name: Seq<char>) -> Option<int> {
    first_index(pages.len() as int, holds_name(pages, name))
}

/// What a lookup of `name` in the listing `pages` yields.
pub open spec fn lookup(pages: Seq<ProjectListResponse>, name: Seq<char>) -> Result<
    u32,
    FailureView,
> {
    match first_page(pages, name) {
        Some(k) => Ok(id_in_page(pages[k].projects@, name).unwrap()),
        None => Err(FailureView::ProjectNotFound(name)),
    }
}

/// How many pages a lookup of `name` in the listing `pages` fetches.
pub open spec fn fetches_for(pages: Seq<ProjectListResponse>, name: Seq<char>) -> nat {
    match first_page(pages, name) {
        Some(k) => (k + 1) as nat,
        None => pages.len(),
    }
}

/// The pages are numbered from 1 and each but the last names its successor.
pub open spec fn well_formed(pages: Seq<ProjectListResponse>) -> bool {
    &&& 0 < pages.len() <= u32::MAX
    &&& forall|k: int|
        0 <= k < pages.len() ==> {
            &&& (#[trigger] pages[k]).meta.pagination.page == k + 1
            &&& pages[k].meta.pagination.next_page == if k + 1 < pages.len() {
                Some((k + 2) as u32)
            } else {
                None
            }
        }
}

/// A whole listing held in memory, page by page, to run a lookup against.
#[derive(Debug)]
pub struct Listing {
    pages: Vec<ProjectListResponse>,
}

impl View for Listing {
    type V = Seq<ProjectListResponse>;

    closed spec fn view(&self) -> Seq<ProjectListResponse> {
        self.pages@
    }
}

impl Listing {
    #[verifier::type_invariant]
    spec fn numbered(self) -> bool {
        well_formed(self.pages@)
    }

    /// The pages of the listing. They are numbered as the endpoint numbers them.
    pub fn pages(&self) -> (pages: &Vec<ProjectListResponse>)
        ensures
            pages@ == self@,
            well_formed(self@),
    {
        proof {
            use_type_invariant(self);
        }
        &self.pages
    }

    /// Takes the pages of a listing, if they form one.
    pub fn new(pages: Vec<ProjectListResponse>) -> (listing: Option<Listing>)
        ensures
            listing is Some <==> well_formed(pages@),
            listing matches Some(l) ==> l@ == pages@,
    {
        if pages.len() == 0 || pages.len() > u32::MAX as usize {
            return None;
        }
        let mut k: usize = 0;
        while k < pages.len()
            invariant
                k <= pages.len() <= u32::MAX,
                forall|j: int|
                    0 <= j < k ==> {
                        &&& (#[trigger] pages@[j]).meta.pagination.page == j + 1
                        &&& pages@[j].meta.pagination.next_page == if j + 1 < pages@.len() {
                            Some((j + 2) as u32)
                        } else {
                            None
                        }
                    },
            decreases pages.len() - k,
        {
            let cursor = &pages[k].meta.pagination;
            let number = (k + 1) as u32;
            let successor = if k + 1 < pages.len() {
                Some(number + 1)
            } else {
                None
            };
            let follows = match (cursor.next_page, successor) {
                (Some(a), Some(b)) => a == b,
                (None, None) => true,
                _ => false,
            };
            if cursor.page != number || !follows {
                assert(!well_formed(pages@)) by {
                    let _ = pages@[k as int];
                }
                return None;
            }
            k += 1;
        }
        Some(Listing { pages })
    }

    /// How many pages the listing has.
    pub fn page_count(&self) -> (count: usize)
        ensures
            count == self@.len(),
    {
        self.pages.len()
    }

    /// The page with the given number, counted from 1, as a fetch of it would return it.
    pub fn fetch(&self, page: u32) -> (fetched: Option<&ProjectListResponse>)
        ensures
            fetched == if 1 <= page <= self@.len() {
                Some(&self@[page - 1])
            } else {
                None
            },
    {
        if page >= 1 && page as usize <= self.pages.len() {
            Some(&self.pages[(page - 1) as usize])
        } else {
            None
        }
    }
}

/// How a lookup in a listing ended, and how many pages it fetched.
#[derive(Debug)]
pub struct Resolution {
    pub outcome: Result<u32, Failure>,
    pub fetches: usize,
}

/// Looks `name` up in a listing, fetching page after page as the lookup asks for them.
///
/// The lookup ends at the first page that holds the name, with the identifier of the first
/// entry of that page that bears it, and fails only after the last page.
pub fn find_project_id(listing: &Listing, name: &str) -> (resolution: Resolution)
    ensures
        outcome_view(resolution.outcome) == lookup(listing@, name@),
        resolution.fetches == fetches_for(listing@, name@),
{
    proof {
        use_type_invariant(listing);
    }
    let mut request = first_request();
    let mut fetches: usize = 0;
    loop
        invariant
            well_formed(listing@),
            fetches < listing@.len(),
            request.page == fetches + 1,
            forall|j: int| 0 <= j < fetches ==> !#[trigger] holds_name(listing@, name@)(j),
        decreases listing@.len() - fetches,
    {
        let ghost k = fetches as int;
        let page = match listing.fetch(request.page) {
            Some(page) => page,
            None => {
                return Resolution { outcome: Err(fetch_failed("no such page")), fetches };
            },
        };
        assert(*page == listing@[k]);
        fetches += 1;
        match after_page(name, page) {
            ResolverStep::Found(id) => {
                proof {
                    lemma_first_index(listing@.len() as int, holds_name(listing@, name@));
                    assert(is_first(listing@.len() as int, holds_name(listing@, name@), k));
                }
                return Resolution { outcome: Ok(id), fetches };
            },
            ResolverStep::Failed(failure) => {
                proof {
                    lemma_first_index(listing@.len() as int, holds_name(listing@, name@));
                }
                return Resolution { outcome: Err(failure), fetches };
            },
            ResolverStep::Fetch(next) => {
                request = next;
            },
        }
    }
}

/// Entry `i` of page `k` exists and bears `name`.
pub open spec fn entry_named(
    pages: Seq<ProjectListResponse>,
    name: Seq<char>,
    k: int,
    i: int,
) -> bool {
    0 <= k < pages.len() && 0 <= i < pages[k].projects@.len() && pages[k].projects@[i].name@
        == name
}

/// Entry `i` of page `k` bears `name`, and no entry of an earlier page, nor an earlier
/// entry of page `k`, does.
pub open spec fn is_first_entry(
    pages: Seq<ProjectListResponse>,
    name: Seq<char>,
    k: int,
    i: int,
) -> bool {
    &&& entry_named(pages, name, k, i)
    &&& forall|k2: int, i2: int| #[trigger]
        entry_named(pages, name, k2, i2) ==> k < k2 || (k == k2 && i <= i2)
}

/// A lookup yields the identifier of the first entry, by page and then by place in the
/// page, that bears the name, after fetching the pages up to the one that holds it; it
/// reports that the project was not found exactly when no entry of any page bears the
/// name, after fetching every page.
pub proof fn lemma_lookup_finds_first_entry(pages: Seq<ProjectListResponse>, name: Seq<char>)
    ensures
        lookup(pages, name) matches Ok(id) ==> exists|k: int, i: int|
            #[trigger] is_first_entry(pages, name, k, i) && pages[k].projects@[i].id == id
                && fetches_for(pages, name) == k + 1,
        lookup(pages, name) is Err <==> forall|k: int, i: int|
            !#[trigger] entry_named(pages, name, k, i),
        lookup(pages, name) matches Err(failure) ==> failure == FailureView::ProjectNotFound(name)
            && fetches_for(pages, name) == pages.len(),
{
    lemma_first_index(pages.len() as int, holds_name(pages, name));
    assert forall|k: int, i: int| #[trigger] entry_named(pages, name, k, i) implies holds_name(
        pages,
        name,
    )(k) by {
        let entries = pages[k].projects@;
        lemma_first_index(entries.len() as int, bears(entries, name));
        assert(bears(entries, name)(i));
    }
    match first_page(pages, name) {
        Some(k) => {
            let entries = pages[k].projects@;
            lemma_first_index(entries.len() as int, bears(entries, name));
            let i = first_named(entries, name).unwrap();
            assert(is_first(pages.len() as int, holds_name(pages, name), k));
            assert(is_first(entries.len() as int, bears(entries, name), i));
            assert forall|k2: int, i2: int| #[trigger]
                entry_named(pages, name, k2, i2) implies k < k2 || (k == k2 && i <= i2) by {
                assert(holds_name(pages, name)(k2));
                if k2 == k {
                    assert(bears(entries, name)(i2));
                }
            }
            assert(is_first_entry(pages, name, k, i));
        },
        None => {},
    }
}

} // verus!
