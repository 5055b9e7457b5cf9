use vstd::prelude::*;
use vstd::string::StringExecFns;
use vstd::arithmetic::div_mod::{
    lemma_div_is_ordered,
    lemma_fundamental_div_mod,
    lemma_fundamental_div_mod_converse_div,
};
use crate::error::ExtractError;
use crate::json::{Json, spec_get};
use crate::rfc3339::{rfc3339_epoch_seconds, parse_rfc3339_epoch};
use crate::state::{State, Closeable, spec_classify, spec_is_open};

verus! {

/// One trackable unit: an issue, a pull request or a review request.
///
/// Immutable once constructed. Two items are the same entity iff their
/// `id`s match; ranking is by score (see [`spec_score`]).
pub struct Issue {
    /// Opaque unique identifier; equality is identity on this field.
    pub id: String,
    /// Canonical web address, used only for display.
    pub url: String,
    /// Human-readable summary.
    pub title: String,
    /// Comment count; zero when the payload lacks one.
    pub comments: u64,
    /// Reaction count; zero when the payload lacks one.
    pub reactions: u64,
    /// Open/closed classification; `None` is the unknown/absent value.
    pub state: Option<State>,
    /// Last update, in non-leap seconds since the Unix epoch.
    pub updated_at: i64,
    /// The owning repository, as an `owner/name` string.
    pub repository: String,
}

/// The mathematical model of an [`Issue`]: the same record over sequences
/// of characters and plain integers.
pub struct IssueModel {
    pub id: Seq<char>,
    pub url: Seq<char>,
    pub title: Seq<char>,
    pub comments: u64,
    pub reactions: u64,
    pub state: Option<State>,
    pub updated_at: i64,
    pub repository: Seq<char>,
}

impl View for Issue {
    type V = IssueModel;

    open spec fn view(&self) -> IssueModel {
        IssueModel {
            id: self.id@,
            url: self.url@,
            title: self.title@,
            comments: self.comments,
            reactions: self.reactions,
            state: self.state,
            updated_at: self.updated_at,
            repository: self.repository@,
        }
    }
}

/// The string under `key` in a node, when the node is an object and the
/// field holds a string.
pub open spec fn node_str_field(n: Json, key: Seq<char>) -> Option<Seq<char>> {
    match spec_get(n, key) {
        Some(Json::Str(s)) => Some(s@),
        _ => None,
    }
}

/// The count under `key -> totalCount` in a node; zero whenever the path
/// is missing or does not hold an unsigned number.
pub open spec fn node_count(n: Json, key: Seq<char>) -> u64 {
    match spec_get(n, key) {
        Some(sub) => match spec_get(sub, "totalCount"@) {
            Some(Json::UInt(c)) => c,
            _ => 0,
        },
        None => 0,
    }
}

/// The repository's `owner/name` string under `repository -> nameWithOwner`.
pub open spec fn node_repo(n: Json) -> Option<Seq<char>> {
    match spec_get(n, "repository"@) {
        Some(sub) => node_str_field(sub, "nameWithOwner"@),
        None => None,
    }
}

/// What parsing one result node yields: a work-item model, a silent skip
/// (`Ok(None)`) when a required string field is missing, or a fatal error
/// when a present field is corrupt. Checks happen in this order: a missing
/// `updatedAt`, `id`, `url`, `title` or `state` skips the node; a state
/// outside the known vocabulary is fatal; an unparseable timestamp is
/// fatal; a missing repository name skips the node.
pub open spec fn spec_from_node(n: Json) -> Result<Option<IssueModel>, ExtractError> {
    match node_str_field(n, "updatedAt"@) {
        None => Ok(None),
        Some(ts) => match node_str_field(n, "id"@) {
            None => Ok(None),
            Some(id) => match node_str_field(n, "url"@) {
                None => Ok(None),
                Some(url) => match node_str_field(n, "title"@) {
                    None => Ok(None),
                    Some(title) => match node_str_field(n, "state"@) {
                        None => Ok(None),
                        Some(raw) => match spec_classify(raw) {
                            Err(e) => Err(e),
                            Ok(st) => match rfc3339_epoch_seconds(ts) {
                                None => Err(ExtractError::InvalidTimestamp),
                                Some(secs) => match node_repo(n) {
                                    None => Ok(None),
                                    Some(repo) => Ok(Some(IssueModel {
                                        id,
                                        url,
                                        title,
                                        comments: node_count(n, "comments"@),
                                        reactions: node_count(n, "reactions"@),
                                        state: st,
                                        updated_at: secs,
                                        repository: repo,
                                    })),
                                },
                            },
                        },
                    },
                },
            },
        },
    }
}

/// Reads `key -> totalCount` from a node, defaulting to zero.
fn count_field(node: &Json, key: &str) -> (c: u64)
    ensures
        c == node_count(*node, key@),
{
    match node.get(key) {
        Some(sub) => match sub.get("totalCount") {
            Some(v) => match v.as_u64() {
                Some(n) => n,
                None => 0,
            },
            None => 0,
        },
        None => 0,
    }
}

/// Reads a string field from a node; `None` when the field is missing or
/// not a string.
fn str_field<'a>(node: &'a Json, key: &str) -> (r: Option<&'a String>)
    ensures
        match r {
            Some(s) => node_str_field(*node, key@) == Some(s@),
            None => node_str_field(*node, key@) is None,
        },
{
    match node.get(key) {
        Some(v) => v.as_str(),
        None => None,
    }
}

impl Issue {
    /// Parses one search-result node: a work item, `Ok(None)` to skip the
    /// node silently, or a fatal error per [`spec_from_node`].
    pub fn from_node(node: &Json) -> (r: Result<Option<Issue>, ExtractError>)
        ensures
            match r {
                Ok(Some(i)) => spec_from_node(*node) == Ok::<Option<IssueModel>, ExtractError>(
                    Some(i@),
                ),
                Ok(None) => spec_from_node(*node) == Ok::<Option<IssueModel>, ExtractError>(None),
                Err(e) => spec_from_node(*node) == Err::<Option<IssueModel>, ExtractError>(e),
            },
    {
        let updated: &String = match str_field(node, "updatedAt") {
            Some(s) => s,
            None => return Ok(None),
        };
        let id: &String = match str_field(node, "id") {
            Some(s) => s,
            None => return Ok(None),
        };
        let url: &String = match str_field(node, "url") {
            Some(s) => s,
            None => return Ok(None),
        };
        let title: &String = match str_field(node, "title") {
            Some(s) => s,
            None => return Ok(None),
        };
        let raw_state: &String = match str_field(node, "state") {
            Some(s) => s,
            None => return Ok(None),
        };
        let state: Option<State> = match State::from_string(raw_state) {
            Ok(st) => st,
            Err(e) => return Err(e),
        };
        let updated_at: i64 = match parse_rfc3339_epoch(updated.as_str()) {
            Some(t) => t,
            None => return Err(ExtractError::InvalidTimestamp),
        };
        let repository: &String = match node.get("repository") {
            Some(sub) => match str_field(sub, "nameWithOwner") {
                Some(s) => s,
                None => return Ok(None),
            },
            None => return Ok(None),
        };
        Ok(Some(Issue {
            id: id.clone(),
            url: url.clone(),
            title: title.clone(),
            comments: count_field(node, "comments"),
            reactions: count_field(node, "reactions"),
            state,
            updated_at,
            repository: repository.clone(),
        }))
    }
}

/// Seconds in one day.
pub const ONE_DAY: i64 = 86400;

/// The engagement term of the ranking score: the comment and reaction
/// counts summed, clamped to at most one. Zero engagement stays zero;
/// any engagement at all counts as one.
pub open spec fn spec_engagement(m: IssueModel) -> int {
    if m.comments + m.reactions >= 1 {
        1
    } else {
        0
    }
}

/// Whole days elapsed between the item's last update and `now`, rounded
/// toward minus infinity (negative when the update lies in the future).
pub open spec fn spec_age_days(m: IssueModel, now: i64) -> int {
    (now - m.updated_at) / (ONE_DAY as int)
}

/// The ranking score: the engagement term squared, minus the age in days.
/// Recently active items with any engagement score highest; old, quiet
/// items go negative.
pub open spec fn spec_score(m: IssueModel, now: i64) -> int {
    spec_engagement(m) * spec_engagement(m) - spec_age_days(m, now)
}

/// The engagement term only ever takes the values zero and one, so the
/// score is `engagement^2 - ageDays` with `engagement` in `{0, 1}`.
pub proof fn lemma_score_formula(m: IssueModel, now: i64)
    ensures
        spec_engagement(m) == if m.comments + m.reactions >= 1 { 1int } else { 0int },
        spec_engagement(m) == 0 || spec_engagement(m) == 1,
        spec_score(m, now) == spec_engagement(m) * spec_engagement(m) - spec_age_days(m, now),
{
}

/// Floor division of the difference `now - then` by the seconds of a day,
/// carried out in 128-bit arithmetic so that any two epoch timestamps are
/// accepted.
fn elapsed_days(then: i64, now: i64) -> (d: i64)
    ensures
        d == (now - then) / (ONE_DAY as int),
{
    let diff: i128 = (now as i128) - (then as i128);
    if diff >= 0 {
        let m: u128 = diff as u128;
        let q: u128 = m / 86400;
        proof {
            lemma_div_is_ordered(q as int, m as int, 1);
            lemma_div_is_ordered(m as int, u64::MAX as int, 86400);
        }
        q as i64
    } else {
        let m: u128 = (-diff) as u128;
        let q: u128 = m / 86400;
        let r: u128 = m % 86400;
        proof {
            lemma_fundamental_div_mod(m as int, 86400);
            lemma_div_is_ordered(m as int, u64::MAX as int + 1, 86400);
        }
        if r == 0 {
            let d: i64 = -(q as i64);
            proof {
                lemma_fundamental_div_mod_converse_div(diff as int, 86400, d as int, 0);
            }
            d
        } else {
            let d: i64 = -(q as i64) - 1;
            proof {
                lemma_fundamental_div_mod_converse_div(
                    diff as int,
                    86400,
                    d as int,
                    86400 - r as int,
                );
            }
            d
        }
    }
}

impl Issue {
    /// Whole days since the item's last update, relative to `now` (both in
    /// seconds since the Unix epoch), rounded toward minus infinity.
    pub fn age_days(&self, now: i64) -> (d: i64)
        ensures
            d == spec_age_days(self@, now),
    {
        elapsed_days(self.updated_at, now)
    }

    /// The ranking score of this item at instant `now`: see [`spec_score`].
    pub fn score(&self, now: i64) -> (s: i64)
        ensures
            s == spec_score(self@, now),
    {
        let e: i64 = if self.comments > 0 || self.reactions > 0 {
            1
        } else {
            0
        };
        let days: i64 = self.age_days(now);
        proof {
            lemma_div_is_ordered(-(u64::MAX as int), (now - self@.updated_at) as int, 86400);
            lemma_div_is_ordered((now - self@.updated_at) as int, u64::MAX as int, 86400);
        }
        e * e - days
    }

    /// Whether the item was updated within the last day: its age in whole
    /// days is zero.
    pub fn is_hot(&self, now: i64) -> (r: bool)
        ensures
            r == (spec_age_days(self@, now) == 0),
    {
        self.age_days(now) == 0
    }
}

/// The models of a sequence of items, in order.
pub open spec fn models_of(s: Seq<Issue>) -> Seq<IssueModel> {
    s.map_values(|i: Issue| i@)
}

/// Descending by score: every earlier item scores at least as high as
/// every later one, at instant `now`.
pub open spec fn sorted_desc(s: Seq<IssueModel>, now: i64) -> bool {
    forall|i: int, j: int|
        0 <= i < j < s.len() ==> spec_score(s[i], now) >= spec_score(s[j], now)
}

/// The index of a highest-scoring item of a non-empty vector.
fn max_score_index(v: &Vec<Issue>, now: i64) -> (idx: usize)
    requires
        v@.len() > 0,
    ensures
        idx < v@.len(),
        forall|j: int| 0 <= j < v@.len() ==> spec_score(v@[j]@, now) <= spec_score(
            v@[idx as int]@,
            now,
        ),
{
    let mut idx: usize = 0;
    let mut best: i64 = v[0].score(now);
    let n = v.len();
    for k in 1..n
        invariant
            n == v@.len(),
            idx < v@.len(),
            best == spec_score(v@[idx as int]@, now),
            forall|j: int| 0 <= j < k ==> spec_score(v@[j]@, now) <= best,
    {
        let s = v[k].score(now);
        if s > best {
            best = s;
            idx = k;
        }
    }
    idx
}

/// Sorts work items descending by their score at instant `now`. The result
/// holds exactly the given items; when scores tie, the relative order of
/// the tied items is left open.
pub fn sort_by_score(items: Vec<Issue>, now: i64) -> (r: Vec<Issue>)
    ensures
        sorted_desc(models_of(r@), now),
        models_of(r@).to_multiset() == models_of(items@).to_multiset(),
{
    let mut input = items;
    let mut out: Vec<Issue> = Vec::new();
    proof {
        broadcast use vstd::seq_lib::group_to_multiset_ensures;
        broadcast use vstd::multiset::group_multiset_axioms;

        vstd::multiset::lemma_multiset_empty_len(models_of(out@).to_multiset());
        assert(models_of(out@).to_multiset().add(models_of(input@).to_multiset())
            =~= models_of(input@).to_multiset());
    }
    while input.len() > 0
        invariant
            sorted_desc(models_of(out@), now),
            models_of(out@).to_multiset().add(models_of(input@).to_multiset()) == models_of(
                items@,
            ).to_multiset(),
            forall|i: int, j: int|
                0 <= i < out@.len() && 0 <= j < input@.len() ==> spec_score(out@[i]@, now)
                    >= spec_score(input@[j]@, now),
        decreases input.len(),
    {
        let ghost old_input = input@;
        let ghost old_out = out@;
        let idx = max_score_index(&input, now);
        let x = input.remove(idx);
        out.push(x);
        proof {
            broadcast use vstd::seq_lib::group_to_multiset_ensures;
            broadcast use vstd::multiset::group_multiset_axioms;

            assert(models_of(input@) =~= models_of(old_input).remove(idx as int));
            assert(models_of(out@) =~= models_of(old_out).push(x@));
            let mo = models_of(old_out).to_multiset();
            let mi = models_of(old_input).to_multiset();
            assert(models_of(old_input)[idx as int] == x@);
            assert(models_of(old_input).contains(x@));
            assert(mi.count(x@) > 0);
            assert(mo.insert(x@).add(mi.remove(x@)) =~= mo.add(mi));
            assert(models_of(out@).to_multiset() == mo.insert(x@));
            assert(models_of(input@).to_multiset() == mi.remove(x@));
            assert forall|i: int, j: int|
                0 <= i < j < models_of(out@).len() implies spec_score(models_of(out@)[i], now)
                >= spec_score(models_of(out@)[j], now) by {
                assert(models_of(out@)[i] == out@[i]@);
                assert(models_of(out@)[j] == out@[j]@);
                if j < out@.len() - 1 {
                    assert(models_of(old_out)[i] == old_out[i]@);
                    assert(models_of(old_out)[j] == old_out[j]@);
                    assert(spec_score(models_of(old_out)[i], now) >= spec_score(
                        models_of(old_out)[j],
                        now,
                    ));
                } else {
                    assert(out@[j]@ == x@);
                    assert(spec_score(old_out[i]@, now) >= spec_score(old_input[idx as int]@, now));
                }
            }
            assert forall|i: int, j: int|
                0 <= i < out@.len() && 0 <= j < input@.len() implies spec_score(out@[i]@, now)
                >= spec_score(input@[j]@, now) by {
                assert(input@[j] == if j < idx as int {
                    old_input[j]
                } else {
                    old_input[j + 1]
                });
                if i < out@.len() - 1 {
                    assert(spec_score(out@[i]@, now) >= spec_score(input@[j]@, now));
                } else {
                    assert(out@[i]@ == x@);
                    assert(spec_score(old_input[idx as int]@, now) >= spec_score(input@[j]@, now));
                }
            }
        }
    }
    proof {
        broadcast use vstd::seq_lib::group_to_multiset_ensures;
        broadcast use vstd::multiset::group_multiset_axioms;

        vstd::multiset::lemma_multiset_empty_len(models_of(input@).to_multiset());
        assert(models_of(out@).to_multiset().add(models_of(input@).to_multiset()) =~= models_of(
            out@,
        ).to_multiset());
    }
    out
}

/// What one edge contributes: the node under it parsed per
/// [`spec_from_node`], or a silent skip when the edge has no node.
pub open spec fn spec_edge_item(e: Json) -> Result<Option<IssueModel>, ExtractError> {
    match spec_get(e, "node"@) {
        Some(n) => spec_from_node(n),
        None => Ok(None),
    }
}

/// The result edges of a response envelope: the array under
/// `data -> search -> edges`, or empty when that path is missing or has
/// another shape (a query that matched nothing must not be an error).
pub open spec fn spec_edge_list(data: Json) -> Seq<Json> {
    match spec_get(data, "data"@) {
        Some(d) => match spec_get(d, "search"@) {
            Some(s) => match spec_get(s, "edges"@) {
                Some(Json::Arr(v)) => v@,
                _ => Seq::empty(),
            },
            None => Seq::empty(),
        },
        None => Seq::empty(),
    }
}

/// Walking a list of edges in order: parse each node, drop skipped and
/// non-open items, keep open ones in their order of appearance; the first
/// fatal error aborts the whole batch.
pub open spec fn spec_collect(edges: Seq<Json>) -> Result<Seq<IssueModel>, ExtractError>
    decreases edges.len(),
{
    if edges.len() == 0 {
        Ok(Seq::empty())
    } else {
        match spec_edge_item(edges[0]) {
            Err(e) => Err(e),
            Ok(opt) => match spec_collect(edges.drop_first()) {
                Err(e) => Err(e),
                Ok(rest) => match opt {
                    Some(m) => if spec_is_open(m.state) {
                        Ok(seq![m] + rest)
                    } else {
                        Ok(rest)
                    },
                    None => Ok(rest),
                },
            },
        }
    }
}

/// An envelope whose `data` object has no `search` key yields the empty
/// result, never an error.
pub proof fn lemma_no_search_is_empty(data: Json)
    requires
        spec_get(data, "data"@) matches Some(d) && spec_get(d, "search"@) is None,
    ensures
        spec_collect(spec_edge_list(data)) == Ok::<Seq<IssueModel>, ExtractError>(Seq::empty()),
{
}

/// A collected prefix put in front of the result of collecting the rest.
pub open spec fn spec_prepend(
    ms: Seq<IssueModel>,
    r: Result<Seq<IssueModel>, ExtractError>,
) -> Result<Seq<IssueModel>, ExtractError> {
    match r {
        Err(e) => Err(e),
        Ok(rest) => Ok(ms + rest),
    }
}

impl Issue {
    /// Extracts the ranked work items of one response envelope at instant
    /// `now`: every open item of the result nodes, sorted descending by
    /// score, or the first fatal error the walk runs into.
    pub fn from_json(data: &Json, now: i64) -> (r: Result<Vec<Issue>, ExtractError>)
        ensures
            match r {
                Ok(v) => spec_collect(spec_edge_list(*data)) matches Ok(models) && sorted_desc(
                    models_of(v@),
                    now,
                ) && models_of(v@).to_multiset() == models.to_multiset(),
                Err(e) => spec_collect(spec_edge_list(*data)) == Err::<
                    Seq<IssueModel>,
                    ExtractError,
                >(e),
            },
    {
        let edges_opt: Option<&Vec<Json>> = match data.get("data") {
            Some(d) => match d.get("search") {
                Some(s) => match s.get("edges") {
                    Some(e) => e.as_array(),
                    None => None,
                },
                None => None,
            },
            None => None,
        };
        let edges: &Vec<Json> = match edges_opt {
            Some(v) => v,
            None => {
                let none_found: Vec<Issue> = Vec::new();
                proof {
                    assert(spec_edge_list(*data) =~= Seq::<Json>::empty());
                    assert(models_of(none_found@) =~= Seq::<IssueModel>::empty());
                }
                return Ok(none_found);
            },
        };
        let mut open_items: Vec<Issue> = Vec::new();
        let n = edges.len();
        proof {
            assert(edges@.skip(0) =~= edges@);
            assert(models_of(open_items@) =~= Seq::<IssueModel>::empty());
            match spec_collect(edges@) {
                Ok(rest) => {
                    assert(Seq::<IssueModel>::empty() + rest =~= rest);
                },
                Err(_) => {},
            }
        }
        for k in 0..n
            invariant
                n == edges@.len(),
                edges@ == spec_edge_list(*data),
                spec_collect(spec_edge_list(*data)) == spec_prepend(
                    models_of(open_items@),
                    spec_collect(edges@.skip(k as int)),
                ),
        {
            let ghost old_open = open_items@;
            proof {
                assert(edges@.skip(k as int).len() > 0);
                assert(edges@.skip(k as int)[0] == edges@[k as int]);
                assert(edges@.skip(k as int).drop_first() =~= edges@.skip(k as int + 1));
            }
            match edges[k].get("node") {
                None => {
                },
                Some(node) => match Issue::from_node(node) {
                    Err(e) => {
                        return Err(e);
                    },
                    Ok(None) => {
                    },
                    Ok(Some(item)) => {
                        if crate::state::is_open(&item.state) {
                            let ghost m = item@;
                            open_items.push(item);
                            proof {
                                assert(models_of(open_items@) =~= models_of(old_open).push(m));
                                match spec_collect(edges@.skip(k as int + 1)) {
                                    Ok(rest) => {
                                        assert(models_of(old_open) + (seq![m] + rest) =~= models_of(
                                            open_items@,
                                        ) + rest);
                                    },
                                    Err(_) => {},
                                }
                            }
                        }
                    },
                },
            }
        }
        proof {
            assert(edges@.skip(n as int) =~= Seq::<Json>::empty());
            match spec_collect(edges@) {
                Ok(_) => {
                    assert(models_of(open_items@) + Seq::<IssueModel>::empty() =~= models_of(
                        open_items@,
                    ));
                },
                Err(_) => {},
            }
        }
        Ok(sort_by_score(open_items, now))
    }

    /// Merges three independently fetched result sequences into one list,
    /// ranked descending by score at instant `now`: a concatenation
    /// followed by a single full sort.
    pub fn merge_ranked(a: Vec<Issue>, b: Vec<Issue>, c: Vec<Issue>, now: i64) -> (r: Vec<Issue>)
        ensures
            sorted_desc(models_of(r@), now),
            models_of(r@).to_multiset() == models_of(a@).to_multiset().add(
                models_of(b@).to_multiset(),
            ).add(models_of(c@).to_multiset()),
    {
        let ghost a0 = a@;
        let ghost b0 = b@;
        let ghost c0 = c@;
        let mut all = a;
        let mut rest_b = b;
        let mut rest_c = c;
        all.append(&mut rest_b);
        all.append(&mut rest_c);
        proof {
            broadcast use vstd::seq_lib::group_to_multiset_ensures;
            broadcast use vstd::multiset::group_multiset_axioms;

            assert(models_of(a0 + b0) =~= models_of(a0) + models_of(b0));
            assert(models_of((a0 + b0) + c0) =~= models_of(a0 + b0) + models_of(c0));
            vstd::seq_lib::lemma_multiset_commutative(models_of(a0), models_of(b0));
            vstd::seq_lib::lemma_multiset_commutative(models_of(a0 + b0), models_of(c0));
        }
        sort_by_score(all, now)
    }

    /// One display line for the item at instant `now`:
    /// `<hot-marker><repository> -> <title>\t[<url>]`, where the marker is
    /// `*` when the item was updated within the last day and a space
    /// otherwise.
    pub fn display_line(&self, now: i64) -> (r: String)
        ensures
            r@ == spec_display_line(self@, now),
    {
        let mut out: String = if self.is_hot(now) {
            String::from_str("*")
        } else {
            String::from_str(" ")
        };
        out.append(self.repository.as_str());
        out.append(" -> ");
        out.append(self.title.as_str());
        out.append("\t[");
        out.append(self.url.as_str());
        out.append("]");
        proof {
            assert(out@ =~= spec_display_line(self@, now));
        }
        out
    }
}

/// The display line of an item at instant `now`: a `*` marker when the
/// item is hot (updated within the last day), else a space, then the
/// repository, an arrow, the title, and the address in brackets.
pub open spec fn spec_display_line(m: IssueModel, now: i64) -> Seq<char> {
    (if spec_age_days(m, now) == 0 {
        "*"@
    } else {
        " "@
    }) + m.repository + " -> "@ + m.title + "\t["@ + m.url + "]"@
}

impl Closeable for Issue {
    open spec fn spec_open(&self) -> bool {
        spec_is_open(self.state)
    }

    fn is_open(&self) -> (r: bool) {
        crate::state::is_open(&self.state)
    }
}

impl PartialEq for Issue {
    /// Identity comparison: two items are equal iff their `id`s match.
    fn eq(&self, other: &Issue) -> (r: bool) {
        self.id == other.id
    }
}

impl vstd::std_specs::cmp::PartialEqSpecImpl for Issue {
    open spec fn obeys_eq_spec() -> bool {
        true
    }

    open spec fn eq_spec(&self, other: &Issue) -> bool {
        self.id@ == other.id@
    }
}

/// Work-item equality is identity on `id` alone: items built from nodes
/// with the same `id` are equal whatever their other fields say.
pub proof fn lemma_eq_is_identity(a: Issue, b: Issue)
    ensures
        vstd::std_specs::cmp::PartialEqSpec::eq_spec(&a, &b) <==> a.id@ == b.id@,
{
}

} // verus!
