use vstd::prelude::*;

verus! {

/// How an installed version stands to the version being installed.
#[derive(Debug, Clone, Copy, PartialEq, Eq, Structural)]
pub enum VersionOrder {
    Older,
    Same,
    Newer,
}

/// The semantic-version order of two version texts, or `None` when either text is not a
/// semantic version.
pub uninterp spec fn semver_order(a: Seq<char>, b: Seq<char>) -> Option<VersionOrder>;

/// Parses both texts with `semver::Version::parse` and compares them with `Version`'s `Ord`
/// (major, minor, patch, pre-release, build). Claimed: the result is `semver_order` of the two
/// texts, and a text that parses compares `Same` to itself, as `Ord` is reflexive.
#[verifier::external_body]
pub(crate) fn compare_versions(a: &str, b: &str) -> (res: Option<VersionOrder>)
    ensures
        res == semver_order(a@, b@),
        res is Some && a@ == b@ ==> res == Some(VersionOrder::Same),
{
    match (semver::Version::parse(a), semver::Version::parse(b)) {
        (Ok(x), Ok(y)) => Some(
            match x.cmp(&y) {
                std::cmp::Ordering::Less => VersionOrder::Older,
                std::cmp::Ordering::Equal => VersionOrder::Same,
                std::cmp::Ordering::Greater => VersionOrder::Newer,
            },
        ),
        _ => None,
    }
}

} // verus!
