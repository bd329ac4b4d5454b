//! The records of the national vulnerability database, as its query
//! interface hands them out.

use vstd::prelude::*;

verus! {

/// A point in time without a time zone.  Values of it are carried along and
/// never looked into.
#[verifier::external_type_specification]
#[verifier::external_body]
pub struct ExNaiveDateTime(chrono::NaiveDateTime);

/// `NaiveDateTime::clone`, which `chrono` derives for a type that is `Copy`:
/// the copy is the value itself.  Not verified.
pub assume_specification[ <chrono::NaiveDateTime as Clone>::clone ](
    time: &chrono::NaiveDateTime,
) -> (copy: chrono::NaiveDateTime)
    ensures
        copy == *time,
;

/// The answer to one query.
#[derive(Debug, Clone)]
pub struct QueryResponse {
    pub vulnerabilities: Vec<Vulnerability>,
}

/// One entry of a [`QueryResponse`].
#[derive(Debug, Clone)]
pub struct Vulnerability {
    pub cve: Cve,
}

/// A vulnerability record.
#[derive(Debug, Clone)]
pub struct Cve {
    pub id: String,
    pub source_identifier: Option<String>,
    pub published: chrono::NaiveDateTime,
    pub last_modified: chrono::NaiveDateTime,
    pub evaluator_comment: Option<String>,
    pub evaluator_solution: Option<String>,
    pub evaluator_impact: Option<String>,
    pub descriptions: Vec<LangString>,
    pub references: Vec<Reference>,
    pub metrics: Option<Metrics>,
}

/// A text and the language it is written in.
#[derive(Debug, Clone)]
pub struct LangString {
    pub lang: String,
    pub value: String,
}

/// A pointer to further reading.
#[derive(Debug, Clone)]
pub struct Reference {
    pub url: String,
    pub source: Option<String>,
    pub tags: Vec<String>,
}

/// The severity assessments of a record, by version of the scoring system.
#[derive(Debug, Clone)]
pub struct Metrics {
    pub cvss_metric_v31: Vec<CvssV31>,
    pub cvss_metric_v30: Vec<CvssV30>,
    pub cvss_metric_v2: Vec<CvssV2>,
}

/// An assessment under version 3.1 of the scoring system.
#[derive(Debug, Clone)]
pub struct CvssV31 {
    pub source: String,
    pub type_: String,
    pub cvss_data: Cvss31Data,
}

/// An assessment under version 3.0 of the scoring system.
#[derive(Debug, Clone)]
pub struct CvssV30 {
    pub source: String,
    pub type_: String,
    pub cvss_data: Cvss30Data,
}

/// An assessment under version 2 of the scoring system.
#[derive(Debug, Clone)]
pub struct CvssV2 {
    pub source: String,
    pub type_: String,
    pub cvss_data: Cvss2Data,
}

/// The metrics of a version 3.1 assessment, held as the vector string that
/// spells out each of them.
#[derive(Debug, Clone)]
pub struct Cvss31Data {
    pub version: String,
    pub vector_string: String,
}

/// The metrics of a version 3.0 assessment, held as the vector string that
/// spells out each of them.
#[derive(Debug, Clone)]
pub struct Cvss30Data {
    pub version: String,
    pub vector_string: String,
}

/// The metrics of a version 2 assessment, held as the vector string that
/// spells out each of them.
#[derive(Debug, Clone)]
pub struct Cvss2Data {
    pub version: String,
    pub vector_string: String,
}

} // verus!
