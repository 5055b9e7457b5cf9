use gdash::args::Arguments;
use gdash::query::{GraphQL, QueryType};

fn orgs(names: &[&str]) -> Vec<String> {
    names.iter().map(|n| String::from(*n)).collect()
}

#[test]
fn issue_search_query() {
    let q = QueryType::Issue { user: String::from("bob"), orgs: orgs(&["acme", "umbrella"]) };
    assert_eq!(
        q.search_query(),
        "is:open archived:false is:issue assignee:bob user:acme user:umbrella"
    );
}

#[test]
fn pull_request_search_query() {
    let q = QueryType::PullRequest { user: String::from("bob"), orgs: orgs(&["acme"]) };
    assert_eq!(q.search_query(), "is:open archived:false is:pr assignee:bob user:acme");
}

#[test]
fn review_request_search_query_without_orgs() {
    let q = QueryType::ReviewRequest { user: String::from("bob"), orgs: orgs(&[]) };
    assert_eq!(q.search_query(), "is:open archived:false is:pr review-requested:bob ");
}

#[test]
fn operation_names() {
    let user = String::from("bob");
    let i = QueryType::Issue { user: user.clone(), orgs: orgs(&[]) };
    let p = QueryType::PullRequest { user: user.clone(), orgs: orgs(&[]) };
    let r = QueryType::ReviewRequest { user, orgs: orgs(&[]) };
    assert_eq!(i.operation_name(), "UserIssues");
    assert_eq!(p.operation_name(), "UserPullRequest");
    assert_eq!(r.operation_name(), "UserReviewRequest");
}

#[test]
fn query_documents() {
    let user = String::from("bob");
    let i = QueryType::Issue { user: user.clone(), orgs: orgs(&[]) };
    let p = QueryType::PullRequest { user: user.clone(), orgs: orgs(&[]) };
    let r = QueryType::ReviewRequest { user, orgs: orgs(&[]) };
    assert_eq!(i.query(), QueryType::issues());
    assert_eq!(p.query(), QueryType::pull_request());
    assert_eq!(r.query(), QueryType::pull_request());
    assert!(i.query().contains("UserIssues"));
    assert!(p.query().contains("UserPullRequest"));
    assert!(i.query().contains("nameWithOwner"));
}

#[test]
fn accessors_return_the_carried_values() {
    let q = QueryType::Issue { user: String::from("bob"), orgs: orgs(&["acme", "umbrella"]) };
    assert_eq!(q.user(), "bob");
    assert_eq!(q.orgs(), vec![String::from("acme"), String::from("umbrella")]);
}

#[test]
fn build_from_carries_all_three_pieces() {
    let q = QueryType::Issue { user: String::from("bob"), orgs: orgs(&["acme"]) };
    let g = GraphQL::build_from(q);
    assert_eq!(g.query, QueryType::issues());
    assert_eq!(g.search_query, "is:open archived:false is:issue assignee:bob user:acme");
    assert_eq!(g.operation_name, "UserIssues");
}

#[test]
fn as_json_holds_the_three_pairs() {
    let q = QueryType::ReviewRequest { user: String::from("bob"), orgs: orgs(&[]) };
    let g = GraphQL::build_from(q);
    let pairs = g.as_json();
    assert_eq!(pairs.len(), 3);
    assert_eq!(pairs[0].0, "query");
    assert_eq!(pairs[0].1, QueryType::pull_request());
    assert_eq!(pairs[1].0, "searchQuery");
    assert_eq!(pairs[1].1, "is:open archived:false is:pr review-requested:bob ");
    assert_eq!(pairs[2].0, "operationName");
    assert_eq!(pairs[2].1, "UserReviewRequest");
}

#[test]
fn from_args_needs_a_user() {
    let r = Arguments::from_args(vec![]);
    assert_eq!(r.err(), Some("No arguments given, needs [USER] [ORGANIZATION ...]"));
}

#[test]
fn from_args_with_only_a_user() {
    let a = Arguments::from_args(vec![String::from("bob")]).ok().unwrap();
    assert_eq!(a.user, "bob");
    assert!(a.organizations.is_empty());
}

#[test]
fn from_args_splits_user_and_organizations() {
    let a = Arguments::from_args(vec![
        String::from("bob"),
        String::from("acme"),
        String::from("umbrella"),
    ])
    .ok()
    .unwrap();
    assert_eq!(a.user, "bob");
    assert_eq!(a.organizations, vec![String::from("acme"), String::from("umbrella")]);
}
