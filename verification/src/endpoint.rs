//! Addresses of the package index.

use vstd::prelude::*;

verus! {

/// The address that `reference` stands for when it is read against the
/// address `base`, as text; `None` where `base` is no address or
/// `reference` cannot be read against it.
pub uninterp spec fn resolved(base: Seq<char>, reference: Seq<char>) -> Option<Seq<char>>;

/// Reads `reference` against the address `base`.
///
/// Not verified: the work is done by `url::Url::join`, on the `Url` that
/// `url::Url::parse` makes of `base`.  The contract claims only that the
/// outcome, an address as text or a failure, depends on the two texts and on
/// nothing else; `resolved` is the name of that outcome.
#[verifier::external_body]
pub(crate) fn resolve(base: &str, reference: &str) -> (target: Option<String>)
    ensures
        match target {
            Some(address) => resolved(base@, reference@) == Some(address@),
            None => resolved(base@, reference@) is None,
        },
{
    match url::Url::parse(base) {
        Ok(base) => match base.join(reference) {
            Ok(address) => Some(String::from(address)),
            Err(_) => None,
        },
        Err(_) => None,
    }
}

} // verus!
