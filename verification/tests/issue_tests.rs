use gdash::error::ExtractError;
use gdash::issue::Issue;
use gdash::json::Json;
use gdash::state::State;

// 2021-01-02T00:00:00+00:00
const NOW: i64 = 1609545600;
const ONE_DAY: i64 = 86400;

fn jstr(v: &str) -> Json {
    Json::Str(String::from(v))
}

fn jobj(fields: Vec<(&str, Json)>) -> Json {
    Json::Obj(fields.into_iter().map(|(k, v)| (String::from(k), v)).collect())
}

fn jcount(n: u64) -> Json {
    jobj(vec![("totalCount", Json::UInt(n))])
}

fn node(id: &str, title: &str, state: &str, updated_at: &str, comments: u64, reactions: u64) -> Json {
    jobj(vec![
        ("id", jstr(id)),
        ("url", jstr(&format!("https://example.test/{}", id))),
        ("title", jstr(title)),
        ("state", jstr(state)),
        ("updatedAt", jstr(updated_at)),
        ("comments", jcount(comments)),
        ("reactions", jcount(reactions)),
        ("repository", jobj(vec![("nameWithOwner", jstr("acme/tools"))])),
    ])
}

fn envelope(nodes: Vec<Json>) -> Json {
    let edges: Vec<Json> = nodes.into_iter().map(|n| jobj(vec![("node", n)])).collect();
    jobj(vec![(
        "data",
        jobj(vec![("search", jobj(vec![("edges", Json::Arr(edges))]))]),
    )])
}

fn item(id: &str, comments: u64, reactions: u64, updated_at: i64) -> Issue {
    Issue {
        id: String::from(id),
        url: String::from("https://example.test/x"),
        title: String::from("a title"),
        comments,
        reactions,
        state: Some(State::Open),
        updated_at,
        repository: String::from("acme/tools"),
    }
}

#[test]
fn parse_full_node() {
    let n = node("i1", "fix the hinge", "OPEN", "2021-01-01T00:00:00+00:00", 3, 1);
    let parsed = Issue::from_node(&n).unwrap().unwrap();
    assert_eq!(parsed.id, "i1");
    assert_eq!(parsed.url, "https://example.test/i1");
    assert_eq!(parsed.title, "fix the hinge");
    assert_eq!(parsed.state, Some(State::Open));
    assert_eq!(parsed.comments, 3);
    assert_eq!(parsed.reactions, 1);
    assert_eq!(parsed.repository, "acme/tools");
    // 2021-01-01T00:00:00+00:00 is this many seconds after the epoch.
    assert_eq!(parsed.updated_at, 1609459200);
}

#[test]
fn parse_honors_timezone_offset() {
    let n = node("i1", "t", "OPEN", "2021-01-01T01:00:00+01:00", 0, 0);
    let parsed = Issue::from_node(&n).unwrap().unwrap();
    assert_eq!(parsed.updated_at, 1609459200);
}

#[test]
fn missing_counts_default_to_zero() {
    let n = jobj(vec![
        ("id", jstr("i2")),
        ("url", jstr("https://example.test/i2")),
        ("title", jstr("quiet one")),
        ("state", jstr("OPEN")),
        ("updatedAt", jstr("2021-01-01T00:00:00+00:00")),
        ("repository", jobj(vec![("nameWithOwner", jstr("acme/tools"))])),
    ]);
    let parsed = Issue::from_node(&n).unwrap().unwrap();
    assert_eq!(parsed.comments, 0);
    assert_eq!(parsed.reactions, 0);
}

#[test]
fn missing_updated_at_skips_node() {
    let mut fields = vec![
        ("id", jstr("i3")),
        ("url", jstr("https://example.test/i3")),
        ("title", jstr("no date")),
        ("state", jstr("OPEN")),
        ("repository", jobj(vec![("nameWithOwner", jstr("acme/tools"))])),
    ];
    fields.push(("comments", jcount(2)));
    let n = jobj(fields);
    assert!(matches!(Issue::from_node(&n), Ok(None)));
}

#[test]
fn missing_title_skips_node() {
    let n = jobj(vec![
        ("id", jstr("i4")),
        ("url", jstr("https://example.test/i4")),
        ("state", jstr("OPEN")),
        ("updatedAt", jstr("2021-01-01T00:00:00+00:00")),
        ("repository", jobj(vec![("nameWithOwner", jstr("acme/tools"))])),
    ]);
    assert!(matches!(Issue::from_node(&n), Ok(None)));
}

#[test]
fn malformed_timestamp_is_fatal() {
    let n = node("i5", "bad date", "OPEN", "not-a-date", 0, 0);
    assert!(matches!(Issue::from_node(&n), Err(ExtractError::InvalidTimestamp)));
}

#[test]
fn unknown_state_is_fatal() {
    let n = node("i6", "bad state", "FOO", "2021-01-01T00:00:00+00:00", 0, 0);
    assert!(matches!(Issue::from_node(&n), Err(ExtractError::InvalidState)));
}

#[test]
fn null_state_parses_as_unknown() {
    let n = node("i7", "state null", "null", "2021-01-01T00:00:00+00:00", 0, 0);
    let parsed = Issue::from_node(&n).unwrap().unwrap();
    assert_eq!(parsed.state, None);
}

#[test]
fn score_without_engagement_is_minus_age() {
    let quiet = item("a", 0, 0, NOW - 5 * ONE_DAY);
    assert_eq!(quiet.score(NOW), -5);
}

#[test]
fn score_with_engagement_gains_one() {
    let busy = item("b", 3, 0, NOW - 5 * ONE_DAY);
    assert_eq!(busy.score(NOW), -4);
}

#[test]
fn engagement_clamps_to_one() {
    let one = item("c", 1, 0, NOW - 5 * ONE_DAY);
    let many = item("d", 40, 12, NOW - 5 * ONE_DAY);
    assert_eq!(one.score(NOW), many.score(NOW));
}

#[test]
fn age_rounds_toward_minus_infinity() {
    let fresh = item("e", 0, 0, NOW - ONE_DAY + 1);
    assert_eq!(fresh.score(NOW), 0);
    let future = item("f", 0, 0, NOW + 1);
    assert_eq!(future.score(NOW), 1);
}

#[test]
fn hot_means_updated_within_a_day() {
    assert!(item("g", 0, 0, NOW - 3600).is_hot(NOW));
    assert!(!item("h", 0, 0, NOW - ONE_DAY).is_hot(NOW));
    assert!(!item("i", 0, 0, NOW + 1).is_hot(NOW));
}

#[test]
fn sort_is_descending_by_score() {
    // Scores: a 10, b -4, c 0.
    let a = item("a", 0, 0, NOW + 10 * ONE_DAY);
    let b = item("b", 0, 0, NOW + 4 * ONE_DAY - 8 * ONE_DAY);
    let c = item("c", 0, 0, NOW);
    assert_eq!(a.score(NOW), 10);
    assert_eq!(b.score(NOW), -4);
    assert_eq!(c.score(NOW), 0);
    let sorted = gdash::issue::Issue::merge_ranked(vec![a], vec![b], vec![c], NOW);
    let ids: Vec<&str> = sorted.iter().map(|i| i.id.as_str()).collect();
    assert_eq!(ids, vec!["a", "c", "b"]);
}

#[test]
fn equality_is_identity_on_id() {
    let mut first = item("same", 0, 0, NOW);
    first.title = String::from("one title");
    let mut second = item("same", 7, 7, NOW - 3 * ONE_DAY);
    second.title = String::from("another title");
    assert!(first == second);
    let third = item("other", 0, 0, NOW);
    assert!(first != third);
}

#[test]
fn display_line_has_marker_repo_title_url() {
    let hot = item("j", 0, 0, NOW - 60);
    assert_eq!(
        hot.display_line(NOW),
        "*acme/tools -> a title\t[https://example.test/x]"
    );
    let stale = item("k", 0, 0, NOW - 3 * ONE_DAY);
    assert_eq!(
        stale.display_line(NOW),
        " acme/tools -> a title\t[https://example.test/x]"
    );
}

#[test]
fn envelope_without_search_is_empty() {
    let doc = jobj(vec![("data", jobj(vec![]))]);
    let items = Issue::from_json(&doc, NOW).unwrap();
    assert_eq!(items.len(), 0);
}

#[test]
fn envelope_of_wrong_shape_is_empty() {
    let doc = jstr("no object at all");
    assert_eq!(Issue::from_json(&doc, NOW).unwrap().len(), 0);
    let doc = jobj(vec![(
        "data",
        jobj(vec![("search", jobj(vec![("edges", jstr("not an array"))]))]),
    )]);
    assert_eq!(Issue::from_json(&doc, NOW).unwrap().len(), 0);
}

#[test]
fn edges_without_node_are_dropped() {
    let edges = Json::Arr(vec![jobj(vec![("something", jstr("else"))])]);
    let doc = jobj(vec![(
        "data",
        jobj(vec![("search", jobj(vec![("edges", edges)]))]),
    )]);
    assert_eq!(Issue::from_json(&doc, NOW).unwrap().len(), 0);
}

#[test]
fn closed_items_are_filtered_out() {
    let doc = envelope(vec![node("i1", "closed", "CLOSED", "2021-01-01T23:00:00+00:00", 5, 0)]);
    assert_eq!(Issue::from_json(&doc, NOW).unwrap().len(), 0);
}

#[test]
fn one_bad_timestamp_aborts_the_batch() {
    let doc = envelope(vec![
        node("good", "fine", "OPEN", "2021-01-01T23:00:00+00:00", 0, 0),
        node("bad", "broken", "OPEN", "not-a-date", 0, 0),
    ]);
    assert!(matches!(Issue::from_json(&doc, NOW), Err(ExtractError::InvalidTimestamp)));
}

#[test]
fn missing_updated_at_is_dropped_silently_in_batch() {
    let keeper = node("keep", "fine", "OPEN", "2021-01-01T23:00:00+00:00", 0, 0);
    let dropped = jobj(vec![
        ("id", jstr("drop")),
        ("url", jstr("https://example.test/drop")),
        ("title", jstr("no date")),
        ("state", jstr("OPEN")),
        ("repository", jobj(vec![("nameWithOwner", jstr("acme/tools"))])),
    ]);
    let doc = envelope(vec![dropped, keeper]);
    let items = Issue::from_json(&doc, NOW).unwrap();
    assert_eq!(items.len(), 1);
    assert_eq!(items[0].id, "keep");
}

#[test]
fn extraction_end_to_end() {
    // One closed, one open an hour old with engagement, one open ten days
    // old and quiet: the two open ones survive, the recent one first.
    let doc = envelope(vec![
        node("closed", "done already", "CLOSED", "2021-01-01T23:00:00+00:00", 4, 0),
        node("recent", "busy and fresh", "OPEN", "2021-01-01T23:00:00+00:00", 2, 0),
        node("old", "quiet and stale", "OPEN", "2020-12-23T00:00:00+00:00", 0, 0),
    ]);
    let items = Issue::from_json(&doc, NOW).unwrap();
    let ids: Vec<&str> = items.iter().map(|i| i.id.as_str()).collect();
    assert_eq!(ids, vec!["recent", "old"]);
    assert_eq!(items[0].score(NOW), 1);
    assert_eq!(items[1].score(NOW), -10);
}

#[test]
fn merge_concatenates_and_sorts_globally() {
    let a = vec![item("a1", 0, 0, NOW - 2 * ONE_DAY), item("a2", 1, 0, NOW)];
    let b = vec![item("b1", 0, 0, NOW - ONE_DAY)];
    let c = vec![item("c1", 5, 5, NOW - 7 * ONE_DAY)];
    let merged = gdash::issue::Issue::merge_ranked(a, b, c, NOW);
    let scores: Vec<i64> = merged.iter().map(|i| i.score(NOW)).collect();
    assert_eq!(scores, vec![1, -1, -2, -6]);
    assert_eq!(merged.len(), 4);
}
