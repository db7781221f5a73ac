//! The requests that the dashboard sends to the tracker's HTTP API.
//!
//! The client builds requests and leaves sending them to its caller. Every
//! request carries the API key as its first query parameter, never as a
//! header.

use crate::issue::Issue;
use vstd::prelude::*;

verus! {

/// A `GET` request: the address and the query parameters in order.
#[derive(Debug, Clone, PartialEq, Eq)]
pub struct Request {
    pub url: String,
    pub query: Vec<(String, String)>,
}

/// The mathematical content of a [`Request`].
#[verifier::ext_equal]
pub struct RequestView {
    pub url: Seq<char>,
    pub query: Seq<(Seq<char>, Seq<char>)>,
}

/// Query parameters as pairs of texts.
pub open spec fn pair_views(query: Seq<(String, String)>) -> Seq<(Seq<char>, Seq<char>)> {
    query.map_values(|p: (String, String)| (p.0@, p.1@))
}

/// Strings as texts.
pub open spec fn string_views(strings: Seq<String>) -> Seq<Seq<char>> {
    strings.map_values(|s: String| s@)
}

impl View for Request {
    type V = RequestView;

    open spec fn view(&self) -> RequestView {
        RequestView { url: self.url@, query: pair_views(self.query@) }
    }
}

/// The pieces of `text` between its commas, in order. A text without a comma
/// is one piece, and so is the empty text; two commas in a row have an empty
/// piece between them.
pub open spec fn comma_fields(text: Seq<char>) -> Seq<Seq<char>>
    decreases text.len(),
{
    match text.index_of_first(',') {
        Some(i) => if 0 <= i < text.len() {
            seq![text.take(i)] + comma_fields(text.skip(i + 1))
        } else {
            seq![text]
        },
        None => seq![text],
    }
}

/// The pieces put together again, with a comma between each two.
pub open spec fn joined_by_commas(fields: Seq<Seq<char>>) -> Seq<char>
    decreases fields.len(),
{
    if fields.len() == 0 {
        Seq::empty()
    } else if fields.len() == 1 {
        fields[0]
    } else {
        fields[0] + seq![','] + joined_by_commas(fields.drop_first())
    }
}

/// Splitting loses nothing and cuts at every comma: there is at least one
/// piece, no piece holds a comma, and the pieces joined by commas are the
/// text again.
pub proof fn lemma_comma_fields_partition(text: Seq<char>)
    ensures
        comma_fields(text).len() >= 1,
        forall|k: int, j: int|
            0 <= k < comma_fields(text).len() && 0 <= j < comma_fields(text)[k].len()
                ==> #[trigger] comma_fields(text)[k][j] != ',',
        joined_by_commas(comma_fields(text)) == text,
    decreases text.len(),
{
    text.index_of_first_ensures(',');
    match text.index_of_first(',') {
        Some(i) => {
            let rest = text.skip(i + 1);
            let fields = comma_fields(text);
            lemma_comma_fields_partition(rest);
            assert(fields == seq![text.take(i)] + comma_fields(rest));
            assert(fields.drop_first() == comma_fields(rest));
            assert(fields[0] == text.take(i));
            assert forall|k: int, j: int|
                0 <= k < fields.len() && 0 <= j < fields[k].len() implies #[trigger] fields[k][j]
                != ',' by {
                if k == 0 {
                    assert(fields[0][j] == text[j]);
                } else {
                    assert(fields[k] == comma_fields(rest)[k - 1]);
                }
            }
            assert(text.take(i) + seq![','] + rest == text);
        },
        None => {
            assert forall|j: int| 0 <= j < text.len() implies text[j] != ',' by {
                assert(!text.contains(','));
            }
        },
    }
}

/// The address of the API endpoint `path` in the space `space_id`.
pub open spec fn api_url(space_id: Seq<char>, path: Seq<char>) -> Seq<char> {
    "https://"@ + space_id + ".backlog.com/api/v2"@ + path
}

/// The path of the comments of the issue with the key `issue_key`.
pub open spec fn comments_path(issue_key: Seq<char>) -> Seq<char> {
    "/issues/"@ + issue_key + "/comments"@
}

/// The parameters that select the issues to list: the project, the largest
/// page that the server allows, the order, and one `statusId[]` for each id
/// in `status_id_list`.
pub open spec fn issues_query(project_id: Seq<char>, status_id_list: Seq<char>) -> Seq<
    (Seq<char>, Seq<char>),
> {
    seq![("projectId[]"@, project_id), ("count"@, "100"@), ("sort"@, "status"@)] + comma_fields(
        status_id_list,
    ).map_values(|id: Seq<char>| ("statusId[]"@, id))
}

/// The parameters that ask for a thread from its first comment on, in the
/// largest page that the server allows.
pub open spec fn comments_query() -> Seq<(Seq<char>, Seq<char>)> {
    seq![("order"@, "asc"@), ("count"@, "100"@)]
}

/// The mathematical content of a [`BacklogClient`]: where it sends its
/// requests and how it signs them.
pub struct ClientView {
    pub space_id: Seq<char>,
    pub api_key: Seq<char>,
}

impl ClientView {
    /// The request for `path` with the parameters `query`: the API key goes
    /// first.
    pub open spec fn get(self, path: Seq<char>, query: Seq<(Seq<char>, Seq<char>)>) -> RequestView {
        RequestView {
            url: api_url(self.space_id, path),
            query: seq![("apiKey"@, self.api_key)] + query,
        }
    }

    /// The request that lists the issues of a project.
    pub open spec fn fetch_issues(
        self,
        project_id: Seq<char>,
        status_id_list: Seq<char>,
    ) -> RequestView {
        self.get("/issues"@, issues_query(project_id, status_id_list))
    }

    /// The request that lists the comments of an issue.
    pub open spec fn fetch_comments(self, issue_key: Seq<char>) -> RequestView {
        self.get(comments_path(issue_key), comments_query())
    }
}

/// A client for one Backlog space.
#[derive(Debug, Clone, PartialEq, Eq)]
pub struct BacklogClient {
    space_id: String,
    api_key: String,
}

impl View for BacklogClient {
    type V = ClientView;

    closed spec fn view(&self) -> ClientView {
        ClientView { space_id: self.space_id@, api_key: self.api_key@ }
    }
}

/// In a text whose first comma stands at `at`, the first piece ends there and
/// the others are the pieces of what follows the comma.
proof fn lemma_fields_at_first_comma(text: Seq<char>, at: int)
    requires
        0 <= at < text.len(),
        text[at] == ',',
        forall|j: int| 0 <= j < at ==> text[j] != ',',
    ensures
        comma_fields(text) == seq![text.take(at)] + comma_fields(text.skip(at + 1)),
{
    text.index_of_first_ensures(',');
    assert(text.contains(','));
}

/// A text without a comma is a single piece.
proof fn lemma_fields_without_comma(text: Seq<char>)
    requires
        forall|j: int| 0 <= j < text.len() ==> text[j] != ',',
    ensures
        comma_fields(text) == seq![text],
{
    text.index_of_first_ensures(',');
}

/// Splits `text` at its commas.
pub fn split_commas(text: &str) -> (fields: Vec<String>)
    ensures
        string_views(fields@) == comma_fields(text@),
{
    let n = text.unicode_len();
    let mut fields: Vec<String> = Vec::new();
    let mut start: usize = 0;
    let mut i: usize = 0;
    proof {
        assert(text@.skip(0) == text@);
        assert(string_views(fields@) + comma_fields(text@) == comma_fields(text@));
    }
    while i < n
        invariant
            n == text@.len(),
            start <= i <= n,
            forall|j: int| start <= j < i ==> text@[j] != ',',
            comma_fields(text@) == string_views(fields@) + comma_fields(text@.skip(start as int)),
        decreases n - i,
    {
        if text.get_char(i) == ',' {
            let field = text.substring_char(start, i).to_owned();
            proof {
                let rest = text@.skip(start as int);
                lemma_fields_at_first_comma(rest, i - start);
                assert(rest.take(i - start) == text@.subrange(start as int, i as int));
                assert(rest.skip(i - start + 1) == text@.skip(i + 1));
                assert(string_views(fields@.push(field)) == string_views(fields@).push(field@));
            }
            fields.push(field);
            start = i + 1;
        }
        i += 1;
    }
    let field = text.substring_char(start, n).to_owned();
    proof {
        let rest = text@.skip(start as int);
        lemma_fields_without_comma(rest);
        assert(rest == text@.subrange(start as int, n as int));
        assert(string_views(fields@.push(field)) == string_views(fields@).push(field@));
    }
    fields.push(field);
    fields
}

impl BacklogClient {
    /// A client for the space `space_id` that signs its requests with
    /// `api_key`.
    pub fn new(space_id: String, api_key: String) -> (client: BacklogClient)
        ensures
            client@ == (ClientView { space_id: space_id@, api_key: api_key@ }),
    {
        BacklogClient { space_id, api_key }
    }

    /// The name of the space that the client talks to.
    pub fn space_id(&self) -> (space_id: &str)
        ensures
            space_id@ == self@.space_id,
    {
        self.space_id.as_str()
    }

    /// The request for the endpoint `path` with the parameters `query`,
    /// signed with the API key.
    pub fn get(&self, path: &str, query: Vec<(String, String)>) -> (request: Request)
        ensures
            request@ == self@.get(path@, pair_views(query@)),
    {
        let mut url = "https://".to_owned();
        url.append(self.space_id.as_str());
        url.append(".backlog.com/api/v2");
        url.append(path);
        let mut signed: Vec<(String, String)> = Vec::new();
        signed.push(("apiKey".to_owned(), self.api_key.clone()));
        let mut query = query;
        signed.append(&mut query);
        Request { url, query: signed }
    }

    /// The request that lists the issues of the project `project_id` whose
    /// status is one of `status_id_list`, a list of ids separated by commas.
    pub fn fetch_issues(&self, project_id: &str, status_id_list: &str) -> (request: Request)
        ensures
            request@ == self@.fetch_issues(project_id@, status_id_list@),
    {
        let mut query: Vec<(String, String)> = Vec::new();
        query.push(("projectId[]".to_owned(), project_id.to_owned()));
        query.push(("count".to_owned(), "100".to_owned()));
        query.push(("sort".to_owned(), "status".to_owned()));
        let ids = split_commas(status_id_list);
        let ghost fixed = query@;
        let ghost all = ids@;
        for id in it: ids
            invariant
                it.seq() == all,
                pair_views(query@) == pair_views(fixed) + string_views(
                    all.take(it.index() as int),
                ).map_values(|id: Seq<char>| ("statusId[]"@, id)),
        {
            let pair = ("statusId[]".to_owned(), id);
            proof {
                assert(all.take(it.index() + 1) == all.take(it.index() as int).push(id));
                assert(pair_views(query@.push(pair)) == pair_views(query@).push(
                    (pair.0@, pair.1@),
                ));
            }
            query.push(pair);
        }
        proof {
            assert(all.take(all.len() as int) == all);
        }
        self.get("/issues", query)
    }

    /// The request that lists the comments of `issue`, oldest first.
    pub fn fetch_comments(&self, issue: &Issue) -> (request: Request)
        ensures
            request@ == self@.fetch_comments(issue@.issue_key),
    {
        let mut path = "/issues/".to_owned();
        path.append(issue.issue_key.as_str());
        path.append("/comments");
        let mut query: Vec<(String, String)> = Vec::new();
        query.push(("order".to_owned(), "asc".to_owned()));
        query.push(("count".to_owned(), "100".to_owned()));
        self.get(path.as_str(), query)
    }
}

} // verus!
