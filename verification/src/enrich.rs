//! Attaching to each package the vulnerabilities that the advisory index
//! knows for it.
//!
//! The advisory index is not reached from here.  An [`Enrichment`] walks the
//! packages in order: it says which query to put to the index next, and
//! takes what the index answered.  A query that fails leaves its package
//! without vulnerabilities and the walk goes on.

use vstd::prelude::*;

use crate::model::identifiers;
use crate::model::PackageSummary;
use crate::model::PackageView;
use crate::model::VulnerabilityMatch;

verus! {

/// Where the window of hits that a query asks for begins.
pub const VEX_OFFSET: usize = 0;

/// How many hits a query asks for at most.
pub const VEX_LIMIT: usize = 1000;

/// A query for the advisory index, with the window of hits that it asks for.
#[derive(Debug, Clone, PartialEq, Eq)]
pub struct VexQuery {
    pub query: String,
    pub offset: usize,
    pub limit: usize,
}

/// What the advisory index answered to one query.
#[derive(Debug, Clone, PartialEq, Eq)]
pub enum VexOutcome {
    /// The hits, in the order in which the index gave them.
    Matches(Vec<VulnerabilityMatch>),
    /// The query failed.
    Failed,
}

impl View for VexOutcome {
    type V = Option<Seq<Seq<char>>>;

    /// The identifiers that the index named, or `None` where the query failed.
    open spec fn view(&self) -> Option<Seq<Seq<char>>> {
        match self {
            VexOutcome::Matches(matches) => Some(identifiers(matches@)),
            VexOutcome::Failed => None,
        }
    }
}

/// The query that asks for the advisories whose `affected` field holds
/// `purl` as a phrase: `affected:"<purl>"`.
pub open spec fn affected_query(purl: Seq<char>) -> Seq<char> {
    seq!['a', 'f', 'f', 'e', 'c', 't', 'e', 'd', ':', '"'] + purl + seq!['"']
}

/// A package after the index answered for it: every identifier of the answer
/// is appended, in order and as often as it was named; a failed query
/// changes nothing.
pub open spec fn attached(package: PackageView, outcome: Option<Seq<Seq<char>>>) -> PackageView {
    match outcome {
        Some(found) => PackageView {
            vulnerabilities: package.vulnerabilities + found,
            ..package
        },
        None => package,
    }
}

/// The query to put to the advisory index for the package `purl`.
pub fn vex_query(purl: &str) -> (query: VexQuery)
    ensures
        query.query@ == affected_query(purl@),
        query.offset == VEX_OFFSET,
        query.limit == VEX_LIMIT,
{
    proof {
        reveal_strlit("affected:\"");
        reveal_strlit("\"");
    }
    let text = String::from_str("affected:\"").concat(purl).concat("\"");
    VexQuery { query: text, offset: VEX_OFFSET, limit: VEX_LIMIT }
}

/// Appends the identifier of every hit to `list`, in order.
fn append_identifiers(list: &mut Vec<String>, matches: Vec<VulnerabilityMatch>)
    ensures
        final(list).deep_view() == old(list).deep_view() + identifiers(matches@),
{
    let ghost before = list.deep_view();
    let ghost found = identifiers(matches@);
    for hit in it: matches
        invariant
            it.seq() == matches@,
            found == identifiers(matches@),
            list.deep_view() == before + found.take(it.index()),
    {
        list.push(hit.cve);
        proof {
            assert(before + found.take(it.index() + 1) =~= (before + found.take(it.index())).push(
                found[it.index()],
            ));
        }
    }
}

impl PackageSummary {
    /// Takes what the advisory index answered for this package.
    pub fn attach(&mut self, outcome: VexOutcome)
        ensures
            final(self)@ == attached(old(self)@, outcome@),
    {
        match outcome {
            VexOutcome::Matches(matches) => {
                append_identifiers(&mut self.vulnerabilities, matches);
            },
            VexOutcome::Failed => {},
        }
    }
}

/// What an [`Enrichment`] stands at: the packages, and how many of them the
/// advisory index has answered for.
pub struct EnrichmentView {
    pub packages: Seq<PackageView>,
    pub cursor: nat,
}

impl EnrichmentView {
    /// Whether every package has had its answer.
    pub open spec fn is_complete(self) -> bool {
        self.cursor >= self.packages.len()
    }

    /// The state after the index answered for the package at the cursor.
    /// That package takes the answer and the cursor moves on; an answer that
    /// comes when every package has had its own is dropped.
    pub open spec fn record(self, outcome: Option<Seq<Seq<char>>>) -> EnrichmentView {
        if self.is_complete() {
            self
        } else {
            EnrichmentView {
                packages: self.packages.update(
                    self.cursor as int,
                    attached(self.packages[self.cursor as int], outcome),
                ),
                cursor: self.cursor + 1,
            }
        }
    }

    /// The state after the index gave `outcomes`, one after the other.
    pub open spec fn run(self, outcomes: Seq<Option<Seq<Seq<char>>>>) -> EnrichmentView
        decreases outcomes.len(),
    {
        if outcomes.len() == 0 {
            self
        } else {
            self.run(outcomes.drop_last()).record(outcomes.last())
        }
    }
}

/// A walk over the packages of one search answer, one query to the advisory
/// index for each.
#[derive(Debug, PartialEq, Eq)]
pub struct Enrichment {
    packages: Vec<PackageSummary>,
    cursor: usize,
}

impl View for Enrichment {
    type V = EnrichmentView;

    closed spec fn view(&self) -> EnrichmentView {
        EnrichmentView { packages: self.packages.deep_view(), cursor: self.cursor as nat }
    }
}

impl Enrichment {
    #[verifier::type_invariant]
    spec fn within(self) -> bool {
        self.cursor <= self.packages.len()
    }

    /// Starts the walk at the first package.
    pub fn new(packages: Vec<PackageSummary>) -> (walk: Enrichment)
        ensures
            walk@ == (EnrichmentView { packages: packages.deep_view(), cursor: 0 }),
    {
        Enrichment { packages, cursor: 0 }
    }

    /// Whether every package has had its answer.
    pub fn is_complete(&self) -> (done: bool)
        ensures
            done == self@.is_complete(),
    {
        proof {
            use_type_invariant(self);
        }
        self.cursor == self.packages.len()
    }

    /// The query to put to the advisory index next: the one for the package
    /// at the cursor, or none when every package has had its answer.
    pub fn next_query(&self) -> (query: Option<VexQuery>)
        ensures
            self@.is_complete() <==> query is None,
            query matches Some(q) ==> {
                &&& q.query@ == affected_query(self@.packages[self@.cursor as int].purl)
                &&& q.offset == VEX_OFFSET
                &&& q.limit == VEX_LIMIT
            },
    {
        proof {
            use_type_invariant(self);
        }
        if self.cursor < self.packages.len() {
            Some(vex_query(self.packages[self.cursor].purl.as_str()))
        } else {
            None
        }
    }

    /// Takes what the advisory index answered to the query last handed out.
    pub fn record(&mut self, outcome: VexOutcome)
        ensures
            final(self)@ == old(self)@.record(outcome@),
    {
        proof {
            use_type_invariant(&*self);
        }
        if self.cursor < self.packages.len() {
            let ghost before = self.packages.deep_view();
            self.packages[self.cursor].attach(outcome);
            proof {
                assert(self.packages.deep_view() =~= before.update(
                    self.cursor as int,
                    attached(before[self.cursor as int], outcome@),
                ));
            }
            self.cursor = self.cursor + 1;
        }
    }

    /// Ends the walk and hands the packages back as they stand.
    pub fn finish(self) -> (packages: Vec<PackageSummary>)
        ensures
            packages.deep_view() == self@.packages,
    {
        self.packages
    }
}

/// What the index answers for one package bears on that package alone.
///
/// After any run of answers, a package that had its answer holds what it held
/// before and then the identifiers of that answer; a package whose query
/// failed, or that has had no answer yet, holds what it held before.  So a
/// failed query never keeps another package from its vulnerabilities.
pub proof fn lemma_enrichment_is_isolated(
    start: EnrichmentView,
    outcomes: Seq<Option<Seq<Seq<char>>>>,
    i: int,
)
    requires
        start.cursor + outcomes.len() <= start.packages.len(),
        0 <= i < start.packages.len(),
    ensures
        start.run(outcomes).packages.len() == start.packages.len(),
        start.run(outcomes).cursor == start.cursor + outcomes.len(),
        start.run(outcomes).packages[i] == if start.cursor <= i < start.cursor + outcomes.len() {
            attached(start.packages[i], outcomes[i - start.cursor])
        } else {
            start.packages[i]
        },
    decreases outcomes.len(),
{
    if outcomes.len() > 0 {
        lemma_enrichment_is_isolated(start, outcomes.drop_last(), i);
    }
}

} // verus!
