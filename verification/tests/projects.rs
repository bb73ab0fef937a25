use hcloud_projects::failure::Failure;
use hcloud_projects::http::HttpRequest;
use hcloud_projects::projects::{
    after_fetch, after_page, fetch_failed, find_in_page, find_project_id, first_request,
    page_fetch, Fetched, Listing, Meta, PageRequest, Pagination, Project, ProjectListResponse,
    ResolverStep,
};

fn project(id: u32, name: &str) -> Project {
    Project { id, name: name.to_string(), usage_alert_threshold: None }
}

fn page(number: u32, per_page: u32, last: bool, projects: Vec<Project>) -> ProjectListResponse {
    ProjectListResponse {
        projects,
        meta: Meta {
            pagination: Pagination {
                page: number,
                per_page,
                next_page: if last { None } else { Some(number + 1) },
            },
        },
    }
}

/// Cuts `projects` into pages of `per_page` entries, as the endpoint serves them.
fn paginate(projects: Vec<Project>, per_page: usize) -> Vec<ProjectListResponse> {
    let count = if projects.is_empty() { 1 } else { (projects.len() + per_page - 1) / per_page };
    let mut pages = Vec::new();
    for (index, chunk) in projects.chunks(per_page).enumerate() {
        pages.push(page(index as u32 + 1, per_page as u32, index + 1 == count, chunk.to_vec()));
    }
    if pages.is_empty() {
        pages.push(page(1, per_page as u32, true, Vec::new()));
    }
    pages
}

fn thirty_projects() -> Vec<Project> {
    (1..=30).map(|n| project(1000 + n, &format!("project-{}", n))).collect()
}

#[test]
fn finds_the_first_entry_with_the_name_in_a_page() {
    let projects = vec![project(1, "alpha"), project(2, "beta"), project(3, "beta")];
    assert_eq!(find_in_page(&projects, "beta"), Some(2));
    assert_eq!(find_in_page(&projects, "alpha"), Some(1));
}

#[test]
fn finds_nothing_in_a_page_without_the_name() {
    let projects = vec![project(1, "alpha"), project(2, "beta")];
    assert_eq!(find_in_page(&projects, "gamma"), None);
    assert_eq!(find_in_page(&Vec::new(), "alpha"), None);
}

#[test]
fn compares_names_exactly() {
    let projects = vec![project(1, "Alpha"), project(2, "alpha ")];
    assert_eq!(find_in_page(&projects, "alpha"), None);
    assert_eq!(find_in_page(&projects, "Alpha"), Some(1));
    assert_eq!(find_in_page(&projects, "alpha "), Some(2));
}

#[test]
fn a_lookup_starts_at_page_one_with_the_fixed_page_size() {
    assert_eq!(first_request(), PageRequest { page: 1, per_page: 25 });
}

#[test]
fn a_page_with_the_name_ends_the_lookup() {
    let fetched = page(1, 25, false, vec![project(5, "alpha"), project(6, "beta")]);
    assert!(matches!(after_page("beta", &fetched), ResolverStep::Found(6)));
}

#[test]
fn a_page_without_the_name_leads_to_the_page_that_it_names() {
    let mut fetched = page(1, 25, false, vec![project(5, "alpha")]);
    fetched.meta.pagination.next_page = Some(4);
    match after_page("beta", &fetched) {
        ResolverStep::Fetch(request) => assert_eq!(request, PageRequest { page: 4, per_page: 25 }),
        other => panic!("expected another fetch, got {:?}", other),
    }
}

#[test]
fn the_last_page_without_the_name_fails_the_lookup() {
    let fetched = page(3, 25, true, vec![project(5, "alpha")]);
    match after_page("beta", &fetched) {
        ResolverStep::Failed(Failure::ProjectNotFound(name)) => assert_eq!(name, "beta"),
        other => panic!("expected a failure, got {:?}", other),
    }
}

#[test]
fn a_failed_fetch_is_reported_with_its_reason() {
    match fetch_failed("connection reset") {
        Failure::PageFetchFailed { reason } => assert_eq!(reason, "connection reset"),
        other => panic!("expected PageFetchFailed, got {:?}", other),
    }
}

#[test]
fn a_name_on_the_second_page_takes_two_fetches() {
    let listing = Listing::new(paginate(thirty_projects(), 25)).expect("a well-formed listing");
    assert_eq!(listing.page_count(), 2);
    let resolution = find_project_id(&listing, "project-28");
    assert!(matches!(resolution.outcome, Ok(1028)));
    assert_eq!(resolution.fetches, 2);
}

#[test]
fn an_absent_name_takes_two_fetches_and_fails() {
    let listing = Listing::new(paginate(thirty_projects(), 25)).expect("a well-formed listing");
    let resolution = find_project_id(&listing, "project-31");
    match resolution.outcome {
        Err(Failure::ProjectNotFound(name)) => assert_eq!(name, "project-31"),
        other => panic!("expected ProjectNotFound, got {:?}", other),
    }
    assert_eq!(resolution.fetches, 2);
}

#[test]
fn a_name_on_the_first_page_takes_one_fetch() {
    let listing = Listing::new(paginate(thirty_projects(), 25)).expect("a well-formed listing");
    let resolution = find_project_id(&listing, "project-25");
    assert!(matches!(resolution.outcome, Ok(1025)));
    assert_eq!(resolution.fetches, 1);
}

#[test]
fn duplicates_resolve_to_the_first_in_page_order_then_array_order() {
    let pages = vec![
        page(1, 2, false, vec![project(1, "a"), project(2, "b")]),
        page(2, 2, false, vec![project(3, "c"), project(4, "dup"), project(5, "dup")]),
        page(3, 2, true, vec![project(6, "dup")]),
    ];
    let listing = Listing::new(pages).expect("a well-formed listing");
    let resolution = find_project_id(&listing, "dup");
    assert!(matches!(resolution.outcome, Ok(4)));
    assert_eq!(resolution.fetches, 2);
}

#[test]
fn an_empty_listing_is_searched_to_its_end() {
    let listing = Listing::new(paginate(Vec::new(), 25)).expect("a well-formed listing");
    let resolution = find_project_id(&listing, "anything");
    assert!(matches!(resolution.outcome, Err(Failure::ProjectNotFound(_))));
    assert_eq!(resolution.fetches, 1);
}

#[test]
fn a_listing_serves_its_pages_by_number() {
    let listing = Listing::new(paginate(thirty_projects(), 25)).expect("a well-formed listing");
    assert!(listing.fetch(0).is_none());
    assert_eq!(listing.fetch(1).expect("page 1").projects.len(), 25);
    assert_eq!(listing.fetch(2).expect("page 2").projects.len(), 5);
    assert!(listing.fetch(3).is_none());
    assert_eq!(listing.pages().len(), 2);
}

#[test]
fn pages_that_are_not_chained_form_no_listing() {
    assert!(Listing::new(Vec::new()).is_none());
    // The last page names a successor.
    assert!(Listing::new(vec![page(1, 25, false, Vec::new())]).is_none());
    // The first page names none although another follows.
    assert!(Listing::new(vec![page(1, 25, true, Vec::new()), page(2, 25, true, Vec::new())])
        .is_none());
    // The pages are not numbered from 1.
    assert!(Listing::new(vec![page(2, 25, true, Vec::new())]).is_none());
    // A page names a page other than the next.
    let mut first = page(1, 25, false, Vec::new());
    first.meta.pagination.next_page = Some(3);
    assert!(Listing::new(vec![first, page(2, 25, true, Vec::new())]).is_none());
}

#[test]
fn a_page_is_fetched_with_a_get_that_carries_the_bearer_token() {
    match page_fetch("secret token/+", first_request()) {
        HttpRequest::GetAuthorized { url, query, bearer } => {
            assert_eq!(url, "https://api.hetzner.cloud/v1/_projects");
            assert_eq!(
                query,
                vec![
                    ("per_page".to_string(), "25".to_string()),
                    ("page".to_string(), "1".to_string()),
                ]
            );
            assert_eq!(bearer, "secret token/+");
        }
        other => panic!("expected an authorized GET, got {:?}", other),
    }
    match page_fetch("t", PageRequest { page: 4_000_000_000, per_page: 100 }) {
        HttpRequest::GetAuthorized { query, .. } => {
            assert_eq!(query[0].1, "100");
            assert_eq!(query[1].1, "4000000000");
        }
        other => panic!("expected an authorized GET, got {:?}", other),
    }
}

#[test]
fn a_failed_fetch_ends_the_lookup() {
    let failed = Fetched::Failed { reason: "timed out".to_string() };
    match after_fetch("alpha", &failed) {
        ResolverStep::Failed(Failure::PageFetchFailed { reason }) => {
            assert_eq!(reason, "timed out")
        }
        other => panic!("expected PageFetchFailed, got {:?}", other),
    }
}

#[test]
fn a_fetched_page_is_searched() {
    let fetched = Fetched::Page(page(1, 25, false, vec![project(5, "alpha")]));
    assert!(matches!(after_fetch("alpha", &fetched), ResolverStep::Found(5)));
    match after_fetch("beta", &fetched) {
        ResolverStep::Fetch(request) => assert_eq!(request, PageRequest { page: 2, per_page: 25 }),
        other => panic!("expected another fetch, got {:?}", other),
    }
    let last = Fetched::Page(page(2, 25, true, Vec::new()));
    assert!(matches!(
        after_fetch("beta", &last),
        ResolverStep::Failed(Failure::ProjectNotFound(_))
    ));
}

#[test]
fn a_lookup_over_fetches_asks_for_the_pages_in_order() {
    let pages = paginate(thirty_projects(), 25);
    let mut asked = Vec::new();
    let mut request = first_request();
    let found = loop {
        asked.push(request.page);
        let fetched = match pages.get(request.page as usize - 1) {
            Some(page) => Fetched::Page(page.clone()),
            None => Fetched::Failed { reason: "no such page".to_string() },
        };
        match after_fetch("project-30", &fetched) {
            ResolverStep::Fetch(next) => request = next,
            ResolverStep::Found(id) => break Some(id),
            ResolverStep::Failed(_) => break None,
        }
    };
    assert_eq!(asked, vec![1, 2]);
    assert_eq!(found, Some(1030));
}
