//! The records that travel through a package search.

use vstd::prelude::*;

verus! {

/// One row of the package index: a package together with one artifact that
/// depends on it.
#[derive(Debug, Clone, PartialEq, Eq)]
pub struct RawOccurrence {
    pub purl: String,
    pub name: String,
    pub sha256: String,
    pub license: String,
    pub classifier: String,
    pub supplier: String,
    pub description: String,
    pub dependent: String,
}

/// What a [`RawOccurrence`] holds, as mathematical text.
pub struct OccurrenceView {
    pub purl: Seq<char>,
    pub name: Seq<char>,
    pub sha256: Seq<char>,
    pub license: Seq<char>,
    pub classifier: Seq<char>,
    pub supplier: Seq<char>,
    pub description: Seq<char>,
    pub dependent: Seq<char>,
}

impl DeepView for RawOccurrence {
    type V = OccurrenceView;

    open spec fn deep_view(&self) -> OccurrenceView {
        OccurrenceView {
            purl: self.purl@,
            name: self.name@,
            sha256: self.sha256@,
            license: self.license@,
            classifier: self.classifier@,
            supplier: self.supplier@,
            description: self.description@,
            dependent: self.dependent@,
        }
    }
}

impl View for RawOccurrence {
    type V = OccurrenceView;

    open spec fn view(&self) -> OccurrenceView {
        self.deep_view()
    }
}

/// The one record that stands for every occurrence of a package.
#[derive(Debug, Clone, PartialEq, Eq)]
pub struct PackageSummary {
    pub purl: String,
    pub name: String,
    pub sha256: String,
    pub license: String,
    pub classifier: String,
    pub supplier: String,
    pub description: String,
    /// The artifacts that depend on the package, each once, in the order in
    /// which they were first seen.
    pub dependents: Vec<String>,
    /// The vulnerabilities that the advisory index reported for the package.
    pub vulnerabilities: Vec<String>,
}

/// What a [`PackageSummary`] holds, as mathematical text.
pub struct PackageView {
    pub purl: Seq<char>,
    pub name: Seq<char>,
    pub sha256: Seq<char>,
    pub license: Seq<char>,
    pub classifier: Seq<char>,
    pub supplier: Seq<char>,
    pub description: Seq<char>,
    pub dependents: Seq<Seq<char>>,
    pub vulnerabilities: Seq<Seq<char>>,
}

impl DeepView for PackageSummary {
    type V = PackageView;

    open spec fn deep_view(&self) -> PackageView {
        PackageView {
            purl: self.purl@,
            name: self.name@,
            sha256: self.sha256@,
            license: self.license@,
            classifier: self.classifier@,
            supplier: self.supplier@,
            description: self.description@,
            dependents: self.dependents.deep_view(),
            vulnerabilities: self.vulnerabilities.deep_view(),
        }
    }
}

impl View for PackageSummary {
    type V = PackageView;

    open spec fn view(&self) -> PackageView {
        self.deep_view()
    }
}

/// A search answer: the payload and, where known, how many entries it has.
#[derive(Debug, Clone, PartialEq, Eq)]
pub struct SearchResult<T> {
    pub result: T,
    pub total: Option<usize>,
}

/// One hit of the advisory index: the vulnerability that it names.
#[derive(Debug, Clone, PartialEq, Eq)]
pub struct VulnerabilityMatch {
    pub cve: String,
}

/// The identifiers that a list of hits names, in order.
pub open spec fn identifiers(matches: Seq<VulnerabilityMatch>) -> Seq<Seq<char>> {
    matches.map_values(|m: VulnerabilityMatch| m.cve@)
}

} // verus!
