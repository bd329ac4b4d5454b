//! Collapsing index rows into one record per package.
//!
//! [`canonical`] says what the records of a list of rows are, and
//! [`deduplicate`] computes them.  The laws that follow from the definition
//! are stated as proof functions of their own.

use vstd::prelude::*;

use crate::model::OccurrenceView;
use crate::model::PackageSummary;
use crate::model::PackageView;
use crate::model::RawOccurrence;

verus! {

/// The values of `s`, each once, in the order in which they first occur.
pub open spec fn distinct<A>(s: Seq<A>) -> Seq<A> {
    s.remove_duplicates(Seq::empty())
}

/// Whether `k` is the first position of `s` that holds `x`.
pub open spec fn is_first_at<A>(s: Seq<A>, x: A, k: int) -> bool {
    &&& 0 <= k < s.len()
    &&& s[k] == x
    &&& forall|j: int| 0 <= j < k ==> s[j] != x
}

/// The package identity of every row, in row order.
pub open spec fn purls(rows: Seq<OccurrenceView>) -> Seq<Seq<char>> {
    rows.map_values(|o: OccurrenceView| o.purl)
}

/// Whether row `k` is the first of `rows` that speaks of `purl`.
pub open spec fn is_first_of(rows: Seq<OccurrenceView>, purl: Seq<char>, k: int) -> bool {
    is_first_at(purls(rows), purl, k)
}

/// The first row of `rows` that speaks of `purl`.
pub open spec fn first_of(rows: Seq<OccurrenceView>, purl: Seq<char>) -> OccurrenceView {
    rows[choose|k: int| is_first_of(rows, purl, k)]
}

/// The rows of `rows` that speak of `purl`, in row order.
pub open spec fn rows_of(rows: Seq<OccurrenceView>, purl: Seq<char>) -> Seq<OccurrenceView> {
    rows.filter(|o: OccurrenceView| o.purl == purl)
}

/// The dependent of every row of `rows` that speaks of `purl`, in row order.
pub open spec fn named_for(rows: Seq<OccurrenceView>, purl: Seq<char>) -> Seq<Seq<char>> {
    rows_of(rows, purl).map_values(|o: OccurrenceView| o.dependent)
}

/// The artifacts that `rows` names as depending on `purl`, each once, in the
/// order in which they first occur.
pub open spec fn dependents_of(rows: Seq<OccurrenceView>, purl: Seq<char>) -> Seq<Seq<char>> {
    distinct(named_for(rows, purl))
}

/// The record that stands for `purl`: described as its first row describes
/// it, with every dependent of its rows, and no vulnerability yet.
pub open spec fn summary_of(rows: Seq<OccurrenceView>, purl: Seq<char>) -> PackageView {
    let first = first_of(rows, purl);
    PackageView {
        purl: purl,
        name: first.name,
        sha256: first.sha256,
        license: first.license,
        classifier: first.classifier,
        supplier: first.supplier,
        description: first.description,
        dependents: dependents_of(rows, purl),
        vulnerabilities: Seq::empty(),
    }
}

/// The canonical records of `rows`: one per distinct package, in the order in
/// which the packages first occur.
pub open spec fn canonical(rows: Seq<OccurrenceView>) -> Seq<PackageView> {
    distinct(purls(rows)).map_values(|p: Seq<char>| summary_of(rows, p))
}

/// `distinct` keeps exactly the values of its argument.
pub proof fn lemma_distinct_contains<A>(s: Seq<A>, x: A)
    ensures
        distinct(s).contains(x) <==> s.contains(x),
{
    s.lemma_remove_duplicates_properties(Seq::empty());
}

/// How `distinct` grows when one value is appended.
pub proof fn lemma_distinct_push<A>(s: Seq<A>, x: A)
    ensures
        s.contains(x) ==> distinct(s.push(x)) == distinct(s),
        !s.contains(x) ==> distinct(s.push(x)) == distinct(s).push(x),
{
    s.lemma_remove_duplicates_append(x, Seq::empty());
}

/// No value occurs twice in `distinct(s)`.
pub proof fn lemma_distinct_no_duplicates<A>(s: Seq<A>)
    ensures
        distinct(s).no_duplicates(),
    decreases s.len(),
{
    if s.len() == 0 {
        reveal_with_fuel(Seq::remove_duplicates, 1);
    } else {
        let init = s.drop_last();
        lemma_distinct_no_duplicates(init);
        lemma_distinct_push(init, s.last());
        lemma_distinct_contains(init, s.last());
        assert(init.push(s.last()) =~= s);
    }
}

/// A value that `s` holds has a first position in it.
pub proof fn lemma_first_exists<A>(s: Seq<A>, x: A)
    requires
        s.contains(x),
    ensures
        exists|k: int| is_first_at(s, x, k),
    decreases s.len(),
{
    let init = s.drop_last();
    if init.contains(x) {
        lemma_first_exists(init, x);
        let k = choose|k: int| is_first_at(init, x, k);
        assert(is_first_at(s, x, k)) by {
            assert forall|j: int| 0 <= j < k implies s[j] != x by {
                assert(init[j] != x);
            }
        }
    } else {
        let k = s.len() - 1;
        assert(is_first_at(s, x, k)) by {
            assert forall|j: int| 0 <= j < k implies s[j] != x by {
                if s[j] == x {
                    assert(init[j] == x);
                }
            }
        }
    }
}

/// A value has one first position only.
pub proof fn lemma_first_unique<A>(s: Seq<A>, x: A, k: int, l: int)
    requires
        is_first_at(s, x, k),
        is_first_at(s, x, l),
    ensures
        k == l,
{
}

/// A first position stays one when a value is appended, and the first
/// position of a value of the longer sequence that the shorter one holds is
/// a first position in the shorter one.
proof fn lemma_first_push<A>(s: Seq<A>, y: A, x: A, k: int)
    requires
        s.contains(x),
    ensures
        is_first_at(s, x, k) <==> is_first_at(s.push(y), x, k),
{
    let next = s.push(y);
    if is_first_at(next, x, k) {
        let at = choose|at: int| 0 <= at < s.len() && s[at] == x;
        assert(next[at] == x);
        assert forall|j: int| 0 <= j < k implies s[j] != x by {
            assert(next[j] != x);
        }
    }
}

/// `distinct(s)` holds the values of `s` in the order of their first
/// positions in `s`.
pub proof fn lemma_distinct_in_first_seen_order<A>(s: Seq<A>, a: int, b: int, k: int, l: int)
    requires
        0 <= a < b < distinct(s).len(),
        is_first_at(s, distinct(s)[a], k),
        is_first_at(s, distinct(s)[b], l),
    ensures
        k < l,
    decreases s.len(),
{
    let init = s.drop_last();
    let last = s.last();
    assert(init.push(last) =~= s);
    lemma_distinct_push(init, last);
    let x = distinct(s)[a];
    let y = distinct(s)[b];
    lemma_distinct_contains(init, x);
    lemma_first_push(init, last, x, k);
    if b < distinct(init).len() {
        lemma_distinct_contains(init, y);
        lemma_first_push(init, last, y, l);
        lemma_distinct_in_first_seen_order(init, a, b, k, l);
    }
}

/// Appending a row appends its package identity.
proof fn lemma_purls_push(rows: Seq<OccurrenceView>, o: OccurrenceView)
    ensures
        purls(rows.push(o)) == purls(rows).push(o.purl),
{
}

/// The first row of a package is row `k` once row `k` is known to be a first
/// row of it.
proof fn lemma_first_is(rows: Seq<OccurrenceView>, purl: Seq<char>, k: int)
    requires
        is_first_of(rows, purl, k),
    ensures
        first_of(rows, purl) == rows[k],
{
    let l = choose|l: int| is_first_of(rows, purl, l);
    lemma_first_unique(purls(rows), purl, k, l);
}

/// A later row does not change which row of a package is first; a row of a
/// package not seen before is its first.
proof fn lemma_first_row_push(rows: Seq<OccurrenceView>, o: OccurrenceView, purl: Seq<char>)
    ensures
        purls(rows).contains(purl) ==> first_of(rows.push(o), purl) == first_of(rows, purl),
        !purls(rows).contains(purl) && o.purl == purl ==> first_of(rows.push(o), purl) == o,
{
    let next = rows.push(o);
    lemma_purls_push(rows, o);
    if purls(rows).contains(purl) {
        lemma_first_exists(purls(rows), purl);
        let k = choose|k: int| is_first_at(purls(rows), purl, k);
        lemma_first_is(rows, purl, k);
        lemma_first_push(purls(rows), o.purl, purl, k);
        lemma_first_is(next, purl, k);
    } else if o.purl == purl {
        let k = rows.len() as int;
        assert(is_first_of(next, purl, k));
        lemma_first_is(next, purl, k);
    }
}

/// No row speaks of a package that `purls` does not list.
proof fn lemma_rows_of_unseen(rows: Seq<OccurrenceView>, purl: Seq<char>)
    requires
        !purls(rows).contains(purl),
    ensures
        rows_of(rows, purl) == Seq::<OccurrenceView>::empty(),
    decreases rows.len(),
{
    reveal(Seq::filter);
    if rows.len() > 0 {
        let init = rows.drop_last();
        assert(!purls(init).contains(purl)) by {
            if purls(init).contains(purl) {
                let i = choose|i: int| 0 <= i < purls(init).len() && purls(init)[i] == purl;
                assert(purls(rows)[i] == purl);
            }
        }
        lemma_rows_of_unseen(init, purl);
        assert(purls(rows)[rows.len() - 1] == rows.last().purl);
    }
}

/// How the dependents of a package grow when one row is appended.
proof fn lemma_dependents_push(rows: Seq<OccurrenceView>, o: OccurrenceView, purl: Seq<char>)
    ensures
        dependents_of(rows.push(o), purl) == if o.purl != purl
            || dependents_of(rows, purl).contains(o.dependent) {
            dependents_of(rows, purl)
        } else {
            dependents_of(rows, purl).push(o.dependent)
        },
{
    let speaks = |r: OccurrenceView| r.purl == purl;
    rows.lemma_filter_push(o, speaks);
    if o.purl == purl {
        let named = named_for(rows, purl);
        assert(named_for(rows.push(o), purl) =~= named.push(o.dependent));
        lemma_distinct_push(named, o.dependent);
        lemma_distinct_contains(named, o.dependent);
    }
}

/// How the record of a package changes when one row is appended.
proof fn lemma_summary_push(rows: Seq<OccurrenceView>, o: OccurrenceView, purl: Seq<char>)
    requires
        purls(rows).contains(purl),
    ensures
        summary_of(rows.push(o), purl) == if o.purl != purl
            || summary_of(rows, purl).dependents.contains(o.dependent) {
            summary_of(rows, purl)
        } else {
            PackageView {
                dependents: summary_of(rows, purl).dependents.push(o.dependent),
                ..summary_of(rows, purl)
            }
        },
{
    lemma_first_row_push(rows, o, purl);
    lemma_dependents_push(rows, o, purl);
}

/// The record of a package whose first row is appended.
proof fn lemma_summary_new(rows: Seq<OccurrenceView>, o: OccurrenceView)
    requires
        !purls(rows).contains(o.purl),
    ensures
        summary_of(rows.push(o), o.purl) == (PackageView {
            purl: o.purl,
            name: o.name,
            sha256: o.sha256,
            license: o.license,
            classifier: o.classifier,
            supplier: o.supplier,
            description: o.description,
            dependents: seq![o.dependent],
            vulnerabilities: Seq::empty(),
        }),
{
    lemma_first_row_push(rows, o, o.purl);
    lemma_dependents_push(rows, o, o.purl);
    lemma_rows_of_unseen(rows, o.purl);
    reveal_with_fuel(Seq::remove_duplicates, 1);
}

/// Appending a row of a package that already has a record changes that
/// record alone: it gains the row's dependent unless it has it already.
proof fn lemma_canonical_push_seen(rows: Seq<OccurrenceView>, o: OccurrenceView, i: int)
    requires
        0 <= i < canonical(rows).len(),
        canonical(rows)[i].purl == o.purl,
    ensures
        canonical(rows.push(o)) == if canonical(rows)[i].dependents.contains(o.dependent) {
            canonical(rows)
        } else {
            canonical(rows).update(
                i,
                PackageView {
                    dependents: canonical(rows)[i].dependents.push(o.dependent),
                    ..canonical(rows)[i]
                },
            )
        },
{
    let keys = distinct(purls(rows));
    lemma_distinct_contains(purls(rows), o.purl);
    lemma_purls_push(rows, o);
    lemma_distinct_push(purls(rows), o.purl);
    lemma_distinct_no_duplicates(purls(rows));
    let after = canonical(rows.push(o));
    let expected = if canonical(rows)[i].dependents.contains(o.dependent) {
        canonical(rows)
    } else {
        canonical(rows).update(
            i,
            PackageView {
                dependents: canonical(rows)[i].dependents.push(o.dependent),
                ..canonical(rows)[i]
            },
        )
    };
    assert forall|j: int| 0 <= j < after.len() implies after[j] == expected[j] by {
        lemma_distinct_contains(purls(rows), keys[j]);
        lemma_summary_push(rows, o, keys[j]);
    }
}

/// Appending the first row of a package appends its record and changes no
/// other.
proof fn lemma_canonical_push_new(rows: Seq<OccurrenceView>, o: OccurrenceView)
    requires
        forall|i: int| 0 <= i < canonical(rows).len() ==> (#[trigger] canonical(rows)[i]).purl
            != o.purl,
    ensures
        canonical(rows.push(o)) == canonical(rows).push(
            PackageView {
                purl: o.purl,
                name: o.name,
                sha256: o.sha256,
                license: o.license,
                classifier: o.classifier,
                supplier: o.supplier,
                description: o.description,
                dependents: seq![o.dependent],
                vulnerabilities: Seq::empty(),
            },
        ),
{
    let keys = distinct(purls(rows));
    assert(!keys.contains(o.purl)) by {
        if keys.contains(o.purl) {
            let i = choose|i: int| 0 <= i < keys.len() && keys[i] == o.purl;
            assert(canonical(rows)[i].purl == o.purl);
        }
    }
    lemma_distinct_contains(purls(rows), o.purl);
    lemma_purls_push(rows, o);
    lemma_distinct_push(purls(rows), o.purl);
    lemma_summary_new(rows, o);
    let after = canonical(rows.push(o));
    let expected = canonical(rows).push(summary_of(rows.push(o), o.purl));
    assert forall|j: int| 0 <= j < after.len() implies after[j] == expected[j] by {
        if j < keys.len() {
            lemma_distinct_contains(purls(rows), keys[j]);
            lemma_summary_push(rows, o, keys[j]);
        }
    }
}

/// There are as many canonical records as the rows name distinct packages:
/// no two records stand for one package, and every package of a row has its
/// record.
pub proof fn lemma_one_record_per_package(rows: Seq<OccurrenceView>)
    ensures
        canonical(rows).len() == purls(rows).to_set().len(),
        forall|i: int, j: int|
            0 <= i < j < canonical(rows).len() ==> (#[trigger] canonical(rows)[i]).purl != (
            #[trigger] canonical(rows)[j]).purl,
        forall|k: int|
            0 <= k < rows.len() ==> exists|i: int|
                0 <= i < canonical(rows).len() && (#[trigger] canonical(rows)[i]).purl == (
                #[trigger] rows[k]).purl,
{
    let keys = distinct(purls(rows));
    lemma_distinct_no_duplicates(purls(rows));
    assert(keys.to_set() =~= purls(rows).to_set()) by {
        assert forall|p: Seq<char>| keys.contains(p) <==> purls(rows).contains(p) by {
            lemma_distinct_contains(purls(rows), p);
        }
    }
    keys.unique_seq_to_set();
    assert forall|k: int| 0 <= k < rows.len() implies exists|i: int|
        0 <= i < canonical(rows).len() && (#[trigger] canonical(rows)[i]).purl == (
        #[trigger] rows[k]).purl by {
        assert(purls(rows)[k] == rows[k].purl);
        lemma_distinct_contains(purls(rows), rows[k].purl);
        let i = choose|i: int| 0 <= i < keys.len() && keys[i] == rows[k].purl;
        assert(canonical(rows)[i].purl == rows[k].purl);
    }
}

/// No dependent stands twice in a canonical record, every dependent that a
/// row gives for the package stands in it, and nothing else does.
pub proof fn lemma_dependents_unique_and_complete(rows: Seq<OccurrenceView>, i: int)
    requires
        0 <= i < canonical(rows).len(),
    ensures
        canonical(rows)[i].dependents.no_duplicates(),
        forall|k: int|
            0 <= k < rows.len() && (#[trigger] rows[k]).purl == canonical(rows)[i].purl
                ==> canonical(rows)[i].dependents.contains(rows[k].dependent),
        forall|d: Seq<char>| #[trigger]
            canonical(rows)[i].dependents.contains(d) ==> exists|k: int|
                0 <= k < rows.len() && (#[trigger] rows[k]).purl == canonical(rows)[i].purl
                    && rows[k].dependent == d,
{
    let purl = canonical(rows)[i].purl;
    let speaks = |o: OccurrenceView| o.purl == purl;
    let own = rows_of(rows, purl);
    let named = named_for(rows, purl);
    lemma_distinct_no_duplicates(named);
    assert forall|k: int| 0 <= k < rows.len() && (#[trigger] rows[k]).purl == purl implies canonical(
        rows,
    )[i].dependents.contains(rows[k].dependent) by {
        rows.lemma_filter_contains(speaks, k);
        let at = choose|at: int| 0 <= at < own.len() && own[at] == rows[k];
        assert(named[at] == rows[k].dependent);
        lemma_distinct_contains(named, rows[k].dependent);
    }
    assert forall|d: Seq<char>| #[trigger]
        canonical(rows)[i].dependents.contains(d) implies exists|k: int|
        0 <= k < rows.len() && (#[trigger] rows[k]).purl == purl && rows[k].dependent == d by {
        lemma_distinct_contains(named, d);
        let at = choose|at: int| 0 <= at < named.len() && named[at] == d;
        rows.lemma_filter_pred(speaks, at);
        rows.lemma_filter_contains_rev(speaks, own[at]);
    }
}

/// The dependents of a canonical record come in the order in which the rows
/// of its package first name them.
pub proof fn lemma_dependents_in_first_seen_order(
    rows: Seq<OccurrenceView>,
    i: int,
    a: int,
    b: int,
    k: int,
    l: int,
)
    requires
        0 <= i < canonical(rows).len(),
        0 <= a < b < canonical(rows)[i].dependents.len(),
        is_first_at(named_for(rows, canonical(rows)[i].purl), canonical(rows)[i].dependents[a], k),
        is_first_at(named_for(rows, canonical(rows)[i].purl), canonical(rows)[i].dependents[b], l),
    ensures
        k < l,
{
    lemma_distinct_in_first_seen_order(named_for(rows, canonical(rows)[i].purl), a, b, k, l);
}

/// A canonical record describes its package as the first row of that package
/// does, whatever later rows say; and it names no vulnerability.
pub proof fn lemma_first_seen_wins(rows: Seq<OccurrenceView>, i: int, k: int)
    requires
        0 <= i < canonical(rows).len(),
        is_first_of(rows, canonical(rows)[i].purl, k),
    ensures
        canonical(rows)[i].name == rows[k].name,
        canonical(rows)[i].sha256 == rows[k].sha256,
        canonical(rows)[i].license == rows[k].license,
        canonical(rows)[i].classifier == rows[k].classifier,
        canonical(rows)[i].supplier == rows[k].supplier,
        canonical(rows)[i].description == rows[k].description,
        canonical(rows)[i].vulnerabilities == Seq::<Seq<char>>::empty(),
{
    lemma_first_is(rows, canonical(rows)[i].purl, k);
}

/// Every canonical record has a first row to take its description from.
pub proof fn lemma_record_has_first_row(rows: Seq<OccurrenceView>, i: int)
    requires
        0 <= i < canonical(rows).len(),
    ensures
        exists|k: int| is_first_of(rows, canonical(rows)[i].purl, k),
{
    let keys = distinct(purls(rows));
    lemma_distinct_contains(purls(rows), keys[i]);
    lemma_first_exists(purls(rows), keys[i]);
    let k = choose|k: int| is_first_at(purls(rows), keys[i], k);
    assert(is_first_of(rows, canonical(rows)[i].purl, k));
}

/// The canonical records come in the order in which their packages first
/// occur among the rows.
pub proof fn lemma_records_in_first_seen_order(
    rows: Seq<OccurrenceView>,
    i: int,
    j: int,
    k: int,
    l: int,
)
    requires
        0 <= i < j < canonical(rows).len(),
        is_first_of(rows, canonical(rows)[i].purl, k),
        is_first_of(rows, canonical(rows)[j].purl, l),
    ensures
        k < l,
{
    lemma_distinct_in_first_seen_order(purls(rows), i, j, k, l);
}

/// Where the record of `purl` stands among `packages`, if it has one.
fn position(packages: &Vec<PackageSummary>, purl: &String) -> (found: Option<usize>)
    ensures
        match found {
            Some(i) => i < packages.len() && packages[i as int].purl@ == purl@,
            None => forall|j: int| 0 <= j < packages.len() ==> packages[j].purl@ != purl@,
        },
{
    let mut i: usize = 0;
    while i < packages.len()
        invariant
            i <= packages.len(),
            forall|j: int| 0 <= j < i ==> packages[j].purl@ != purl@,
        decreases packages.len() - i,
    {
        if packages[i].purl == *purl {
            return Some(i);
        }
        i += 1;
    }
    None
}

/// Whether `item` stands in `list`.
fn listed(list: &Vec<String>, item: &String) -> (found: bool)
    ensures
        found == list.deep_view().contains(item@),
{
    let mut i: usize = 0;
    while i < list.len()
        invariant
            i <= list.len(),
            forall|j: int| 0 <= j < i ==> list.deep_view()[j] != item@,
        decreases list.len() - i,
    {
        if list[i] == *item {
            assert(list.deep_view()[i as int] == item@);
            return true;
        }
        i += 1;
    }
    false
}

/// Collapses the rows of the package index into one record per package.
///
/// A package is described as its first row describes it; later rows only add
/// their dependent, unless the record holds it already.  The records come in
/// the order in which their packages first occur, none of them with a
/// vulnerability.
pub fn deduplicate(occurrences: Vec<RawOccurrence>) -> (packages: Vec<PackageSummary>)
    ensures
        packages.deep_view() == canonical(occurrences.deep_view()),
{
    let ghost rows = occurrences.deep_view();
    let mut packages: Vec<PackageSummary> = Vec::new();
    proof {
        reveal_with_fuel(Seq::remove_duplicates, 1);
    }
    for item in it: occurrences
        invariant
            it.seq() == occurrences@,
            rows == occurrences.deep_view(),
            packages.deep_view() == canonical(rows.take(it.index())),
    {
        let ghost seen = rows.take(it.index());
        proof {
            assert(rows.take(it.index() + 1) =~= seen.push(item@));
        }
        match position(&packages, &item.purl) {
            Some(i) => {
                proof {
                    lemma_canonical_push_seen(seen, item@, i as int);
                }
                if !listed(&packages[i].dependents, &item.dependent) {
                    let ghost before = packages.deep_view();
                    packages[i].dependents.push(item.dependent);
                    proof {
                        let grown = before[i as int].dependents.push(item@.dependent);
                        assert(packages[i as int].dependents.deep_view() =~= grown);
                        assert(packages.deep_view() =~= before.update(
                            i as int,
                            PackageView { dependents: grown, ..before[i as int] },
                        ));
                    }
                }
            },
            None => {
                let mut dependents: Vec<String> = Vec::new();
                dependents.push(item.dependent);
                let vulnerabilities: Vec<String> = Vec::new();
                proof {
                    assert(dependents.deep_view() =~= seq![item@.dependent]);
                    assert(vulnerabilities.deep_view() =~= Seq::<Seq<char>>::empty());
                }
                packages.push(
                    PackageSummary {
                        purl: item.purl,
                        name: item.name,
                        sha256: item.sha256,
                        license: item.license,
                        classifier: item.classifier,
                        supplier: item.supplier,
                        description: item.description,
                        dependents,
                        vulnerabilities,
                    },
                );
                proof {
                    lemma_canonical_push_new(seen, item@);
                }
            },
        }
    }
    proof {
        assert(rows.take(rows.len() as int) =~= rows);
    }
    packages
}

} // verus!
