use vstd::prelude::*;

verus! {

/// Relies on semver::Version::parse: whether a text is a semantic version.
pub uninterp spec fn semver_valid(text: Seq<char>) -> bool;

/// Relies on semver's ordering of Version: whether the version `older` names comes strictly
/// before the version `newer` names.
pub uninterp spec fn semver_precedes(older: Seq<char>, newer: Seq<char>) -> bool;

/// Relies on semver::Version::parse to tell whether a text is a semantic version.
#[verifier::external_body]
pub(crate) fn is_semver(text: &str) -> (r: bool)
    ensures
        r == semver_valid(text@),
{
    semver::Version::parse(text).is_ok()
}

/// Relies on semver's ordering of Version (`<`), on the versions that both texts name.
#[verifier::external_body]
pub(crate) fn version_precedes(older: &str, newer: &str) -> (r: bool)
    requires
        semver_valid(older@),
        semver_valid(newer@),
    ensures
        r == semver_precedes(older@, newer@),
{
    match (semver::Version::parse(older), semver::Version::parse(newer)) {
        (Ok(a), Ok(b)) => a < b,
        _ => false,
    }
}

} // verus!
