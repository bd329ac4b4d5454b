//! The two requests that the gateway serves from the package index: a search
//! by text and the fetch of one document.
//!
//! Nothing here talks to the network.  Each function decides one step: what
//! to ask the package index, what to make of its reply, what to ask the
//! advisory index, and what to answer in the end.  The caller sends what is
//! asked and hands back what came.

use vstd::prelude::*;

use crate::dedup::canonical;
use crate::dedup::deduplicate;
use crate::endpoint::resolve;
use crate::endpoint::resolved;
use crate::enrich::affected_query;
use crate::enrich::Enrichment;
use crate::enrich::EnrichmentView;
use crate::enrich::VexQuery;
use crate::enrich::VEX_LIMIT;
use crate::enrich::VEX_OFFSET;
use crate::model::RawOccurrence;
use crate::model::SearchResult;
use crate::response::Body;
use crate::response::Response;
use crate::response::Status;

verus! {

/// Where the package index serves its search, below its base address.
pub const SEARCH_PATH: &'static str = "/api/v1/sbom/search";

/// Where the package index serves single documents, below its base address.
pub const FETCH_PATH: &'static str = "/api/v1/sbom";

/// The parameters of a fetch.
#[derive(Debug, Clone, PartialEq, Eq)]
pub struct GetParams {
    pub id: String,
}

/// The parameters of a search.
#[derive(Debug, Clone, PartialEq, Eq)]
pub struct QueryParams {
    pub q: String,
    pub offset: usize,
    pub limit: usize,
}

/// A search to send to the package index.
#[derive(Debug, Clone, PartialEq, Eq)]
pub struct SearchRequest {
    pub url: String,
    pub q: String,
    pub offset: usize,
    pub limit: usize,
}

/// A fetch to send to the package index.
#[derive(Debug, Clone, PartialEq, Eq)]
pub struct GetRequest {
    pub url: String,
    pub id: String,
}

/// How a request to the package index ended.
#[derive(Debug, Clone, Copy, PartialEq, Eq)]
pub enum BackendReply {
    /// The index replied, with this status.
    Status(Status),
    /// No reply came: the connection failed or timed out.
    Failed,
}

/// What to do once the package index has replied to a search.
#[derive(Debug, Clone, PartialEq, Eq)]
pub enum SearchStep {
    /// Read the body of the reply as a list of rows.
    ReadBody,
    /// Answer the caller.
    Respond(Response),
}

/// What to do next while the packages of a search are enriched.
#[derive(Debug, PartialEq, Eq)]
pub enum SearchNext {
    /// Put the query to the advisory index and record its answer in the walk.
    Ask(Enrichment, VexQuery),
    /// Answer the caller.
    Respond(Response),
}

/// What to do once the package index has replied to a fetch.
#[derive(Debug, Clone, PartialEq, Eq)]
pub enum Passthrough {
    /// Hand the body of the reply on as it comes, under this status.
    Relay(Status),
    /// Answer the caller.
    Respond(Response),
}

/// The search to send once the address of the search endpoint is known, or
/// the answer to give where no address could be made.
pub fn search_request_at(target: Option<String>, params: QueryParams) -> (request: Result<
    SearchRequest,
    Response,
>)
    ensures
        match target {
            Some(url) => request matches Ok(r) && r.url@ == url@ && r.q@ == params.q@ && r.offset
                == params.offset && r.limit == params.limit,
            None => request matches Err(e) && e.is_bare(500),
        },
{
    match target {
        Some(url) => Ok(
            SearchRequest { url, q: params.q, offset: params.offset, limit: params.limit },
        ),
        None => Err(Response::bare(Status::internal_server_error())),
    }
}

/// The search to send to the package index at `base`: the three parameters
/// as they came, to the search endpoint.  Where no address can be made of
/// `base`, the answer is a bare 500.
pub fn search_request(base: &str, params: QueryParams) -> (request: Result<SearchRequest, Response>)
    ensures
        match resolved(base@, SEARCH_PATH@) {
            Some(url) => request matches Ok(r) && r.url@ == url && r.q@ == params.q@ && r.offset
                == params.offset && r.limit == params.limit,
            None => request matches Err(e) && e.is_bare(500),
        },
{
    search_request_at(resolve(base, SEARCH_PATH), params)
}

/// What to make of the package index's reply to a search.  On status 200 the
/// body is read; any other status goes to the caller as it is, without a
/// body; where no reply came the answer is a bare 500.
pub fn search_reply(reply: BackendReply) -> (step: SearchStep)
    ensures
        match reply {
            BackendReply::Status(status) => if status@ == 200 {
                step is ReadBody
            } else {
                step matches SearchStep::Respond(r) && r.is_bare(status@)
            },
            BackendReply::Failed => step matches SearchStep::Respond(r) && r.is_bare(500),
        },
{
    match reply {
        BackendReply::Status(status) => {
            if status.is_ok() {
                SearchStep::ReadBody
            } else {
                SearchStep::Respond(Response::bare(status))
            }
        },
        BackendReply::Failed => SearchStep::Respond(Response::bare(Status::internal_server_error())),
    }
}

/// What to make of the body of a search reply.  The rows are collapsed into
/// canonical records and the walk over them starts; a body that could not be
/// read as rows (`None`) is answered with a bare 500.
pub fn search_body(body: Option<Vec<RawOccurrence>>) -> (walk: Result<Enrichment, Response>)
    ensures
        match body {
            Some(rows) => walk matches Ok(w) && w@ == (EnrichmentView {
                packages: canonical(rows.deep_view()),
                cursor: 0,
            }),
            None => walk matches Err(e) && e.is_bare(500),
        },
{
    match body {
        Some(rows) => Ok(Enrichment::new(deduplicate(rows))),
        None => Err(Response::bare(Status::internal_server_error())),
    }
}

/// The next step of a search whose packages are being enriched.  While a
/// package has had no answer from the advisory index, its query is asked;
/// once every package has had one, the packages go to the caller under
/// status 200, wrapped with their number.
pub fn search_next(walk: Enrichment) -> (next: SearchNext)
    ensures
        match next {
            SearchNext::Ask(w, q) => {
                &&& !walk@.is_complete()
                &&& w@ == walk@
                &&& q.query@ == affected_query(walk@.packages[walk@.cursor as int].purl)
                &&& q.offset == VEX_OFFSET
                &&& q.limit == VEX_LIMIT
            },
            SearchNext::Respond(r) => {
                &&& walk@.is_complete()
                &&& r.status@ == 200
                &&& r.body matches Body::Packages(found)
                &&& found.total == Some(walk@.packages.len() as usize)
                &&& found.result.deep_view() == walk@.packages
            },
        },
{
    match walk.next_query() {
        Some(query) => SearchNext::Ask(walk, query),
        None => {
            let packages = walk.finish();
            let total = packages.len();
            SearchNext::Respond(
                Response {
                    status: Status::ok(),
                    body: Body::Packages(SearchResult { result: packages, total: Some(total) }),
                },
            )
        },
    }
}

/// The fetch to send once the address of the fetch endpoint is known, or the
/// answer to give where no address could be made.
pub fn get_request_at(target: Option<String>, params: GetParams) -> (request: Result<
    GetRequest,
    Response,
>)
    ensures
        match target {
            Some(url) => request matches Ok(r) && r.url@ == url@ && r.id@ == params.id@,
            None => request matches Err(e) && e.is_bare(500),
        },
{
    match target {
        Some(url) => Ok(GetRequest { url, id: params.id }),
        None => Err(Response::bare(Status::internal_server_error())),
    }
}

/// The fetch to send to the package index at `base`: the identifier as it
/// came, to the fetch endpoint.  Where no address can be made of `base`, the
/// answer is a bare 500.
pub fn get_request(base: &str, params: GetParams) -> (request: Result<GetRequest, Response>)
    ensures
        match resolved(base@, FETCH_PATH@) {
            Some(url) => request matches Ok(r) && r.url@ == url && r.id@ == params.id@,
            None => request matches Err(e) && e.is_bare(500),
        },
{
    get_request_at(resolve(base, FETCH_PATH), params)
}

/// What to make of the package index's reply to a fetch.  Whatever the
/// status, the reply goes to the caller as it is, body and status; where no
/// reply came the answer is a bare 500.
pub fn get_reply(reply: BackendReply) -> (step: Passthrough)
    ensures
        match reply {
            BackendReply::Status(status) => step == Passthrough::Relay(status),
            BackendReply::Failed => step matches Passthrough::Respond(r) && r.is_bare(500),
        },
{
    match reply {
        BackendReply::Status(status) => Passthrough::Relay(status),
        BackendReply::Failed => Passthrough::Respond(Response::bare(Status::internal_server_error())),
    }
}

} // verus!
