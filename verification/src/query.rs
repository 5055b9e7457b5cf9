use vstd::prelude::*;
use vstd::string::StringExecFns;

verus! {

/// The three search-query variants the dashboard issues: issues assigned
/// to the user, pull requests assigned to the user, and pull requests
/// whose review is requested from the user.
pub enum QueryType {
    Issue { user: String, orgs: Vec<String> },
    PullRequest { user: String, orgs: Vec<String> },
    ReviewRequest { user: String, orgs: Vec<String> },
}

/// The GraphQL document for the issue search.
pub open spec fn spec_issues_doc() -> Seq<char> {
    "query UserIssues($searchQuery: String!) {\n  search(query: $searchQuery, type: ISSUE, first: 20) {\n    edges {\n      node {\n        ... on Issue {\n          id\n          url\n          title\n          state\n          updatedAt\n          comments {\n            totalCount\n          }\n          reactions {\n            totalCount\n          }\n          repository {\n            nameWithOwner\n          }\n        }\n      }\n    }\n  }\n}\n"@
}

/// The GraphQL document for the two pull-request searches.
pub open spec fn spec_pull_request_doc() -> Seq<char> {
    "query UserPullRequest($searchQuery: String!) {\n  search(query: $searchQuery, type: ISSUE, first: 20) {\n    edges {\n      node {\n        ... on PullRequest {\n          id\n          url\n          title\n          state\n          updatedAt\n          comments {\n            totalCount\n          }\n          reactions {\n            totalCount\n          }\n          repository {\n            nameWithOwner\n          }\n        }\n      }\n    }\n  }\n}\n"@
}

/// The user handle a query variant carries.
pub open spec fn spec_user(q: QueryType) -> Seq<char> {
    match q {
        QueryType::Issue { user, orgs: _ } => user@,
        QueryType::PullRequest { user, orgs: _ } => user@,
        QueryType::ReviewRequest { user, orgs: _ } => user@,
    }
}

/// The organization handles a query variant carries.
pub open spec fn spec_orgs(q: QueryType) -> Seq<String> {
    match q {
        QueryType::Issue { user: _, orgs } => orgs@,
        QueryType::PullRequest { user: _, orgs } => orgs@,
        QueryType::ReviewRequest { user: _, orgs } => orgs@,
    }
}

/// The GraphQL document a variant sends.
pub open spec fn spec_query_doc(q: QueryType) -> Seq<char> {
    match q {
        QueryType::Issue { user: _, orgs: _ } => spec_issues_doc(),
        QueryType::PullRequest { user: _, orgs: _ } => spec_pull_request_doc(),
        QueryType::ReviewRequest { user: _, orgs: _ } => spec_pull_request_doc(),
    }
}

/// The operation name a variant sends.
pub open spec fn spec_operation_name(q: QueryType) -> Seq<char> {
    match q {
        QueryType::Issue { user: _, orgs: _ } => "UserIssues"@,
        QueryType::PullRequest { user: _, orgs: _ } => "UserPullRequest"@,
        QueryType::ReviewRequest { user: _, orgs: _ } => "UserReviewRequest"@,
    }
}

/// The role-specific clause of the search query.
pub open spec fn spec_role_clause(q: QueryType) -> Seq<char> {
    match q {
        QueryType::Issue { user: _, orgs: _ } => "is:issue assignee:"@,
        QueryType::PullRequest { user: _, orgs: _ } => "is:pr assignee:"@,
        QueryType::ReviewRequest { user: _, orgs: _ } => "is:pr review-requested:"@,
    }
}

/// One `user:<org>` clause per organization, space-joined.
pub open spec fn spec_org_clauses(orgs: Seq<Seq<char>>) -> Seq<char>
    decreases orgs.len(),
{
    if orgs.len() == 0 {
        Seq::empty()
    } else if orgs.len() == 1 {
        "user:"@ + orgs[0]
    } else {
        spec_org_clauses(orgs.drop_last()) + " "@ + "user:"@ + orgs.last()
    }
}

/// The views of a list of strings.
pub open spec fn spec_strs(v: Seq<String>) -> Seq<Seq<char>> {
    v.map_values(|s: String| s@)
}

/// The whole search query: the base filter, the role clause with the user
/// handle, and the space-joined organization clauses.
pub open spec fn spec_search_query(q: QueryType) -> Seq<char> {
    "is:open archived:false "@ + spec_role_clause(q) + spec_user(q) + " "@ + spec_org_clauses(
        spec_strs(spec_orgs(q)),
    )
}

impl QueryType {
    /// The GraphQL document for the issue search.
    pub fn issues() -> (r: String)
        ensures
            r@ == spec_issues_doc(),
    {
        String::from_str(
            "query UserIssues($searchQuery: String!) {\n  search(query: $searchQuery, type: ISSUE, first: 20) {\n    edges {\n      node {\n        ... on Issue {\n          id\n          url\n          title\n          state\n          updatedAt\n          comments {\n            totalCount\n          }\n          reactions {\n            totalCount\n          }\n          repository {\n            nameWithOwner\n          }\n        }\n      }\n    }\n  }\n}\n",
        )
    }

    /// The GraphQL document for the pull-request searches.
    pub fn pull_request() -> (r: String)
        ensures
            r@ == spec_pull_request_doc(),
    {
        String::from_str(
            "query UserPullRequest($searchQuery: String!) {\n  search(query: $searchQuery, type: ISSUE, first: 20) {\n    edges {\n      node {\n        ... on PullRequest {\n          id\n          url\n          title\n          state\n          updatedAt\n          comments {\n            totalCount\n          }\n          reactions {\n            totalCount\n          }\n          repository {\n            nameWithOwner\n          }\n        }\n      }\n    }\n  }\n}\n",
        )
    }

    /// The user handle this variant carries.
    pub fn user(&self) -> (r: String)
        ensures
            r@ == spec_user(*self),
    {
        match self {
            QueryType::Issue { user, orgs: _ } => user.clone(),
            QueryType::PullRequest { user, orgs: _ } => user.clone(),
            QueryType::ReviewRequest { user, orgs: _ } => user.clone(),
        }
    }

    /// The organization handles this variant carries.
    pub fn orgs(&self) -> (r: Vec<String>)
        ensures
            r@ == spec_orgs(*self),
    {
        let src: &Vec<String> = match self {
            QueryType::Issue { user: _, orgs } => orgs,
            QueryType::PullRequest { user: _, orgs } => orgs,
            QueryType::ReviewRequest { user: _, orgs } => orgs,
        };
        let mut out: Vec<String> = Vec::new();
        let n = src.len();
        for i in 0..n
            invariant
                n == src@.len(),
                src@ == spec_orgs(*self),
                out@ == src@.take(i as int),
        {
            out.push(src[i].clone());
            proof {
                assert(out@ =~= src@.take(i as int + 1));
            }
        }
        proof {
            assert(src@.take(n as int) =~= src@);
        }
        out
    }

    /// The GraphQL document this variant sends: the issue document for the
    /// issue search, the pull-request document for both others.
    pub fn query(&self) -> (r: String)
        ensures
            r@ == spec_query_doc(*self),
    {
        match self {
            QueryType::Issue { user: _, orgs: _ } => QueryType::issues(),
            QueryType::PullRequest { user: _, orgs: _ } => QueryType::pull_request(),
            QueryType::ReviewRequest { user: _, orgs: _ } => QueryType::pull_request(),
        }
    }

    /// The operation name this variant sends.
    pub fn operation_name(&self) -> (r: String)
        ensures
            r@ == spec_operation_name(*self),
    {
        match self {
            QueryType::Issue { user: _, orgs: _ } => String::from_str("UserIssues"),
            QueryType::PullRequest { user: _, orgs: _ } => String::from_str("UserPullRequest"),
            QueryType::ReviewRequest { user: _, orgs: _ } => String::from_str("UserReviewRequest"),
        }
    }

    /// The whole search query this variant sends: the base filter, the
    /// role clause with the user handle, and one `user:<org>` clause per
    /// organization, space-joined.
    pub fn search_query(&self) -> (r: String)
        ensures
            r@ == spec_search_query(*self),
    {
        let mut q = String::from_str("is:open archived:false ");
        let role: &str = match self {
            QueryType::Issue { user: _, orgs: _ } => "is:issue assignee:",
            QueryType::PullRequest { user: _, orgs: _ } => "is:pr assignee:",
            QueryType::ReviewRequest { user: _, orgs: _ } => "is:pr review-requested:",
        };
        q.append(role);
        let user = self.user();
        q.append(user.as_str());
        q.append(" ");
        let ghost prefix = q@;
        let orgs: &Vec<String> = match self {
            QueryType::Issue { user: _, orgs } => orgs,
            QueryType::PullRequest { user: _, orgs } => orgs,
            QueryType::ReviewRequest { user: _, orgs } => orgs,
        };
        let n = orgs.len();
        proof {
            assert(prefix == "is:open archived:false "@ + spec_role_clause(*self) + spec_user(
                *self,
            ) + " "@);
        }
        for i in 0..n
            invariant
                n == orgs@.len(),
                orgs@ == spec_orgs(*self),
                prefix == "is:open archived:false "@ + spec_role_clause(*self) + spec_user(*self)
                    + " "@,
                q@ == prefix + spec_org_clauses(spec_strs(orgs@).take(i as int)),
        {
            if i > 0 {
                q.append(" ");
            }
            q.append("user:");
            q.append(orgs[i].as_str());
            proof {
                let strs = spec_strs(orgs@);
                assert(strs.take(i as int + 1).drop_last() =~= strs.take(i as int));
                assert(strs.take(i as int + 1).last() == orgs@[i as int]@);
                if i == 0 {
                    assert(spec_org_clauses(strs.take(1)) == "user:"@ + strs[0]);
                    assert(q@ =~= prefix + spec_org_clauses(strs.take(1)));
                } else {
                    assert(spec_org_clauses(strs.take(i as int + 1)) == spec_org_clauses(
                        strs.take(i as int),
                    ) + " "@ + "user:"@ + orgs@[i as int]@);
                    assert(q@ =~= prefix + spec_org_clauses(strs.take(i as int + 1)));
                }
            }
        }
        proof {
            assert(spec_strs(orgs@).take(n as int) =~= spec_strs(orgs@));
            assert(q@ =~= spec_search_query(*self));
        }
        q
    }
}

/// The three pieces of one GraphQL request: the document, the search
/// query it takes as a variable, and the operation name.
pub struct GraphQL {
    pub query: String,
    pub search_query: String,
    pub operation_name: String,
}

impl GraphQL {
    /// Builds the request pieces for one query variant.
    pub fn build_from(query: QueryType) -> (g: GraphQL)
        ensures
            g.query@ == spec_query_doc(query),
            g.search_query@ == spec_search_query(query),
            g.operation_name@ == spec_operation_name(query),
    {
        GraphQL {
            query: query.query(),
            search_query: query.search_query(),
            operation_name: query.operation_name(),
        }
    }

    /// The request as key/value pairs, ready to be turned into the JSON
    /// body of one HTTP request.
    pub fn as_json(&self) -> (r: Vec<(String, String)>)
        ensures
            r@.len() == 3,
            r@[0].0@ == "query"@ && r@[0].1@ == self.query@,
            r@[1].0@ == "searchQuery"@ && r@[1].1@ == self.search_query@,
            r@[2].0@ == "operationName"@ && r@[2].1@ == self.operation_name@,
    {
        let mut v: Vec<(String, String)> = Vec::new();
        v.push((String::from_str("query"), self.query.clone()));
        v.push((String::from_str("searchQuery"), self.search_query.clone()));
        v.push((String::from_str("operationName"), self.operation_name.clone()));
        v
    }
}

} // verus!
