use spog_api::enrich::vex_query;
use spog_api::enrich::VexOutcome;
use spog_api::model::PackageSummary;
use spog_api::model::RawOccurrence;
use spog_api::model::SearchResult;
use spog_api::model::VulnerabilityMatch;
use spog_api::response::Body;
use spog_api::response::Response;
use spog_api::response::Status;
use spog_api::sbom::get_reply;
use spog_api::sbom::get_request;
use spog_api::sbom::get_request_at;
use spog_api::sbom::search_body;
use spog_api::sbom::search_next;
use spog_api::sbom::search_reply;
use spog_api::sbom::search_request;
use spog_api::sbom::search_request_at;
use spog_api::sbom::BackendReply;
use spog_api::sbom::GetParams;
use spog_api::sbom::GetRequest;
use spog_api::sbom::Passthrough;
use spog_api::sbom::QueryParams;
use spog_api::sbom::SearchNext;
use spog_api::sbom::SearchRequest;
use spog_api::sbom::SearchStep;
use spog_api::sbom::FETCH_PATH;
use spog_api::sbom::SEARCH_PATH;

fn status(code: u16) -> Status {
    Status::from_u16(code).unwrap()
}

fn bare(code: u16) -> Response {
    Response { status: status(code), body: Body::Empty }
}

fn params() -> QueryParams {
    QueryParams { q: "openssl".to_string(), offset: 20, limit: 10 }
}

fn row(purl: &str, dependent: &str) -> RawOccurrence {
    RawOccurrence {
        purl: purl.to_string(),
        name: "name".to_string(),
        sha256: "sha".to_string(),
        license: "MIT".to_string(),
        classifier: "classifier".to_string(),
        supplier: "supplier".to_string(),
        description: "description".to_string(),
        dependent: dependent.to_string(),
    }
}

fn summary(purl: &str, dependents: &[&str], vulnerabilities: &[&str]) -> PackageSummary {
    PackageSummary {
        purl: purl.to_string(),
        name: "name".to_string(),
        sha256: "sha".to_string(),
        license: "MIT".to_string(),
        classifier: "classifier".to_string(),
        supplier: "supplier".to_string(),
        description: "description".to_string(),
        dependents: dependents.iter().map(|d| d.to_string()).collect(),
        vulnerabilities: vulnerabilities.iter().map(|v| v.to_string()).collect(),
    }
}

fn hits(ids: &[&str]) -> VexOutcome {
    VexOutcome::Matches(ids.iter().map(|id| VulnerabilityMatch { cve: id.to_string() }).collect())
}

#[test]
fn a_status_is_a_number_from_100_to_999() {
    assert_eq!(Status::from_u16(0), None);
    assert_eq!(Status::from_u16(99), None);
    assert_eq!(Status::from_u16(100).map(|s| s.as_u16()), Some(100));
    assert_eq!(Status::from_u16(404).map(|s| s.as_u16()), Some(404));
    assert_eq!(Status::from_u16(999).map(|s| s.as_u16()), Some(999));
    assert_eq!(Status::from_u16(1000), None);
    assert_eq!(Status::from_u16(u16::MAX), None);
}

#[test]
fn the_named_statuses() {
    assert_eq!(Status::ok().as_u16(), 200);
    assert_eq!(Status::internal_server_error().as_u16(), 500);
    assert!(Status::ok().is_ok());
    assert!(!Status::internal_server_error().is_ok());
    assert!(!status(201).is_ok());
    assert!(status(200).is_ok());
}

#[test]
fn a_bare_response_has_no_body() {
    assert_eq!(Response::bare(status(404)), bare(404));
}

#[test]
fn the_endpoints() {
    assert_eq!(SEARCH_PATH, "/api/v1/sbom/search");
    assert_eq!(FETCH_PATH, "/api/v1/sbom");
}

#[test]
fn the_search_goes_to_the_search_endpoint_with_its_parameters() {
    assert_eq!(
        search_request("http://bombastic.example:8080", params()),
        Ok(SearchRequest {
            url: "http://bombastic.example:8080/api/v1/sbom/search".to_string(),
            q: "openssl".to_string(),
            offset: 20,
            limit: 10,
        })
    );
}

#[test]
fn the_endpoint_replaces_the_path_of_the_base() {
    let request = search_request("https://index.example/some/prefix/?x=1", params());
    assert_eq!(request.map(|r| r.url), Ok("https://index.example/api/v1/sbom/search".to_string()));
}

#[test]
fn a_base_that_is_no_address_is_answered_with_500() {
    assert_eq!(search_request("not an address", params()), Err(bare(500)));
    assert_eq!(search_request("", params()), Err(bare(500)));
    assert_eq!(search_request("mailto:someone@example.com", params()), Err(bare(500)));
}

#[test]
fn the_search_request_at_a_given_address() {
    assert_eq!(
        search_request_at(Some("http://x/y".to_string()), params()),
        Ok(SearchRequest {
            url: "http://x/y".to_string(),
            q: "openssl".to_string(),
            offset: 20,
            limit: 10
        })
    );
    assert_eq!(search_request_at(None, params()), Err(bare(500)));
}

#[test]
fn the_fetch_goes_to_the_fetch_endpoint_with_its_identifier() {
    assert_eq!(
        get_request("http://bombastic.example:8080/", GetParams { id: "sbom-1".to_string() }),
        Ok(GetRequest {
            url: "http://bombastic.example:8080/api/v1/sbom".to_string(),
            id: "sbom-1".to_string(),
        })
    );
    assert_eq!(get_request("::", GetParams { id: "sbom-1".to_string() }), Err(bare(500)));
}

#[test]
fn the_fetch_request_at_a_given_address() {
    assert_eq!(
        get_request_at(Some("http://x/y".to_string()), GetParams { id: "a b".to_string() }),
        Ok(GetRequest { url: "http://x/y".to_string(), id: "a b".to_string() })
    );
    assert_eq!(get_request_at(None, GetParams { id: "a".to_string() }), Err(bare(500)));
}

#[test]
fn a_404_of_the_index_goes_through_without_a_body() {
    assert_eq!(search_reply(BackendReply::Status(status(404))), SearchStep::Respond(bare(404)));
}

#[test]
fn every_other_status_goes_through_without_a_body() {
    for code in 100..=999u16 {
        let step = search_reply(BackendReply::Status(status(code)));
        if code == 200 {
            assert_eq!(step, SearchStep::ReadBody);
        } else {
            assert_eq!(step, SearchStep::Respond(bare(code)));
        }
    }
}

#[test]
fn a_search_without_a_reply_is_answered_with_500() {
    assert_eq!(search_reply(BackendReply::Failed), SearchStep::Respond(bare(500)));
}

#[test]
fn a_body_that_cannot_be_read_is_answered_with_500() {
    assert_eq!(search_body(None).err(), Some(bare(500)));
}

#[test]
fn a_body_without_rows_is_answered_with_no_packages() {
    let walk = search_body(Some(Vec::new())).ok().unwrap();
    match search_next(walk) {
        SearchNext::Respond(response) => assert_eq!(
            response,
            Response {
                status: status(200),
                body: Body::Packages(SearchResult { result: Vec::new(), total: Some(0) }),
            }
        ),
        SearchNext::Ask(_, _) => panic!("nothing to ask"),
    }
}

#[test]
fn a_search_from_reply_to_answer() {
    assert_eq!(search_reply(BackendReply::Status(status(200))), SearchStep::ReadBody);
    let rows = vec![
        row("pkg:npm/a@1", "app1"),
        row("pkg:npm/a@1", "app2"),
        row("pkg:npm/b@1", "app1"),
        row("pkg:npm/c@1", "app3"),
    ];
    let mut next = search_next(search_body(Some(rows)).ok().unwrap());
    let mut asked = Vec::new();
    let response = loop {
        match next {
            SearchNext::Ask(mut walk, query) => {
                let outcome = if query == vex_query("pkg:npm/a@1") {
                    VexOutcome::Failed
                } else if query == vex_query("pkg:npm/b@1") {
                    hits(&["CVE-2024-1", "CVE-2024-1"])
                } else {
                    hits(&[])
                };
                asked.push(query.query);
                walk.record(outcome);
                next = search_next(walk);
            }
            SearchNext::Respond(response) => break response,
        }
    };
    assert_eq!(
        asked,
        vec![
            "affected:\"pkg:npm/a@1\"".to_string(),
            "affected:\"pkg:npm/b@1\"".to_string(),
            "affected:\"pkg:npm/c@1\"".to_string(),
        ]
    );
    assert_eq!(
        response,
        Response {
            status: status(200),
            body: Body::Packages(SearchResult {
                result: vec![
                    summary("pkg:npm/a@1", &["app1", "app2"], &[]),
                    summary("pkg:npm/b@1", &["app1"], &["CVE-2024-1", "CVE-2024-1"]),
                    summary("pkg:npm/c@1", &["app3"], &[]),
                ],
                total: Some(3),
            }),
        }
    );
}

#[test]
fn a_fetch_hands_on_whatever_status_came() {
    for code in [200u16, 204, 301, 404, 500, 503] {
        assert_eq!(get_reply(BackendReply::Status(status(code))), Passthrough::Relay(status(code)));
    }
}

#[test]
fn a_fetch_without_a_reply_is_answered_with_500() {
    assert_eq!(get_reply(BackendReply::Failed), Passthrough::Respond(bare(500)));
}

#[test]
fn a_walk_that_is_not_over_asks_for_its_next_package() {
    let walk = search_body(Some(vec![row("pkg:npm/a@1", "app1"), row("pkg:npm/b@1", "app1")]))
        .ok()
        .unwrap();
    match search_next(walk) {
        SearchNext::Ask(mut walk, query) => {
            assert_eq!(query, vex_query("pkg:npm/a@1"));
            walk.record(VexOutcome::Failed);
            match search_next(walk) {
                SearchNext::Ask(_, query) => assert_eq!(query, vex_query("pkg:npm/b@1")),
                SearchNext::Respond(_) => panic!("one package has had no answer"),
            }
        }
        SearchNext::Respond(_) => panic!("no package has had an answer"),
    }
}
