use spog_api::dedup::deduplicate;
use spog_api::model::PackageSummary;
use spog_api::model::RawOccurrence;

fn row(purl: &str, name: &str, license: &str, dependent: &str) -> RawOccurrence {
    RawOccurrence {
        purl: purl.to_string(),
        name: name.to_string(),
        sha256: format!("sha-{}", name),
        license: license.to_string(),
        classifier: format!("classifier-{}", name),
        supplier: format!("supplier-{}", name),
        description: format!("description of {}", name),
        dependent: dependent.to_string(),
    }
}

fn find<'a>(packages: &'a [PackageSummary], purl: &str) -> &'a PackageSummary {
    let mut hits = packages.iter().filter(|p| p.purl == purl);
    let first = hits.next();
    assert!(first.is_some());
    assert!(hits.next().is_none());
    first.unwrap()
}

#[test]
fn no_rows_give_no_packages() {
    assert_eq!(deduplicate(Vec::new()), Vec::new());
}

#[test]
fn one_row_gives_one_package() {
    let packages = deduplicate(vec![row("pkg:npm/a@1", "a", "MIT", "app1")]);
    assert_eq!(
        packages,
        vec![PackageSummary {
            purl: "pkg:npm/a@1".to_string(),
            name: "a".to_string(),
            sha256: "sha-a".to_string(),
            license: "MIT".to_string(),
            classifier: "classifier-a".to_string(),
            supplier: "supplier-a".to_string(),
            description: "description of a".to_string(),
            dependents: vec!["app1".to_string()],
            vulnerabilities: Vec::new(),
        }]
    );
}

#[test]
fn two_packages_three_rows() {
    let packages = deduplicate(vec![
        row("pkg:npm/a@1", "a", "MIT", "app1"),
        row("pkg:npm/a@1", "a", "MIT", "app2"),
        row("pkg:npm/b@1", "b", "MIT", "app1"),
    ]);
    assert_eq!(packages.len(), 2);
    assert_eq!(
        find(&packages, "pkg:npm/a@1").dependents,
        vec!["app1".to_string(), "app2".to_string()]
    );
    assert_eq!(find(&packages, "pkg:npm/b@1").dependents, vec!["app1".to_string()]);
}

#[test]
fn as_many_packages_as_distinct_purls() {
    let purls = ["pkg:gem/c", "pkg:gem/a", "pkg:gem/b", "pkg:gem/a", "pkg:gem/c", "pkg:gem/c", "pkg:gem/d", "pkg:gem/b", "pkg:gem/a"];
    let rows: Vec<RawOccurrence> =
        purls.iter().enumerate().map(|(i, p)| row(p, p, "MIT", &format!("app{}", i))).collect();
    let packages = deduplicate(rows);
    let mut distinct: Vec<&str> = purls.to_vec();
    distinct.sort();
    distinct.dedup();
    assert_eq!(packages.len(), distinct.len());
    assert_eq!(packages.len(), 4);
    for purl in distinct {
        find(&packages, purl);
    }
}

#[test]
fn packages_come_in_first_seen_order() {
    let purls = ["pkg:gem/c", "pkg:gem/a", "pkg:gem/b", "pkg:gem/a", "pkg:gem/c", "pkg:gem/d"];
    let rows: Vec<RawOccurrence> = purls.iter().map(|p| row(p, p, "MIT", "app")).collect();
    let packages = deduplicate(rows);
    let order: Vec<&str> = packages.iter().map(|p| p.purl.as_str()).collect();
    assert_eq!(order, vec!["pkg:gem/c", "pkg:gem/a", "pkg:gem/b", "pkg:gem/d"]);
}

#[test]
fn a_dependent_is_listed_once() {
    let packages = deduplicate(vec![
        row("pkg:npm/a@1", "a", "MIT", "app2"),
        row("pkg:npm/a@1", "a", "MIT", "app1"),
        row("pkg:npm/b@1", "b", "MIT", "app3"),
        row("pkg:npm/a@1", "a", "MIT", "app2"),
        row("pkg:npm/a@1", "a", "MIT", "app1"),
        row("pkg:npm/a@1", "a", "MIT", "app4"),
    ]);
    assert_eq!(
        find(&packages, "pkg:npm/a@1").dependents,
        vec!["app2".to_string(), "app1".to_string(), "app4".to_string()]
    );
    assert_eq!(find(&packages, "pkg:npm/b@1").dependents, vec!["app3".to_string()]);
}

#[test]
fn a_dependent_of_two_packages_is_listed_for_both() {
    let packages = deduplicate(vec![
        row("pkg:npm/a@1", "a", "MIT", "app1"),
        row("pkg:npm/b@1", "b", "MIT", "app1"),
    ]);
    assert_eq!(find(&packages, "pkg:npm/a@1").dependents, vec!["app1".to_string()]);
    assert_eq!(find(&packages, "pkg:npm/b@1").dependents, vec!["app1".to_string()]);
}

#[test]
fn the_first_row_describes_the_package() {
    let packages = deduplicate(vec![
        row("pkg:npm/b@1", "b", "BSD", "app0"),
        row("pkg:npm/a@1", "first", "MIT", "app1"),
        row("pkg:npm/a@1", "second", "GPL", "app2"),
        row("pkg:npm/a@1", "third", "Apache-2.0", "app1"),
    ]);
    let a = find(&packages, "pkg:npm/a@1");
    assert_eq!(a.name, "first");
    assert_eq!(a.sha256, "sha-first");
    assert_eq!(a.license, "MIT");
    assert_eq!(a.classifier, "classifier-first");
    assert_eq!(a.supplier, "supplier-first");
    assert_eq!(a.description, "description of first");
    assert_eq!(a.dependents, vec!["app1".to_string(), "app2".to_string()]);
    assert_eq!(find(&packages, "pkg:npm/b@1").name, "b");
}

#[test]
fn fresh_packages_name_no_vulnerability() {
    let packages = deduplicate(vec![
        row("pkg:npm/a@1", "a", "MIT", "app1"),
        row("pkg:npm/b@1", "b", "MIT", "app1"),
    ]);
    assert!(packages.iter().all(|p| p.vulnerabilities.is_empty()));
}

#[test]
fn purls_are_compared_as_they_stand() {
    let packages = deduplicate(vec![
        row("pkg:npm/a@1", "a", "MIT", "app1"),
        row("pkg:npm/A@1", "a", "MIT", "app1"),
        row("pkg:npm/a@1 ", "a", "MIT", "app1"),
        row("", "a", "MIT", "app1"),
        row("", "a", "MIT", "app2"),
    ]);
    assert_eq!(packages.len(), 4);
    assert_eq!(find(&packages, "").dependents, vec!["app1".to_string(), "app2".to_string()]);
}
