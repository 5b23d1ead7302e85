//! The migration guard shared by the contracts: a stored contract may only be
//! migrated to a newer version of itself.

use vstd::prelude::*;
use crate::error::{ContractError, ErrorView, from_semver, semver_message, view_result};

verus! {

/// What `semver::Version::parse` says of a text: `None` where the text is a
/// valid semantic version, else the display text of the parse error.
pub uninterp spec fn semver_parse_error(text: Seq<char>) -> Option<Seq<char>>;

/// Whether the version parsed from `older` is less than the one parsed from
/// `newer` under `semver::Version`'s ordering (major, minor, patch,
/// pre-release, build metadata).
pub uninterp spec fn semver_precedes(older: Seq<char>, newer: Seq<char>) -> bool;

/// Calls `semver::Version::parse`. Claimed: the text parses exactly where
/// `semver_parse_error` is `None`, and a failure carries the error's display
/// text. What the parser accepts is left to that name.
#[verifier::external_body]
fn parse_version(text: &str) -> (r: Result<(), String>)
    ensures
        match r {
            Ok(()) => semver_parse_error(text@) is None,
            Err(m) => semver_parse_error(text@) == Some(m@),
        },
{
    match semver::Version::parse(text) {
        Ok(_) => Ok(()),
        Err(e) => Err(e.to_string()),
    }
}

/// Compares two parsed versions with `<` of `semver::Version` (a derived,
/// lexicographic order over its fields). Claimed: the answer is
/// `semver_precedes` of the two texts, and a version never precedes itself.
#[verifier::external_body]
fn version_precedes(older: &str, newer: &str) -> (r: bool)
    requires
        semver_parse_error(older@) is None,
        semver_parse_error(newer@) is None,
    ensures
        r == semver_precedes(older@, newer@),
        older@ == newer@ ==> !r,
{
    semver::Version::parse(older).unwrap() < semver::Version::parse(newer).unwrap()
}

/// The outcome of a migration request, from the contract's own name and
/// version and the name and version stored by the deployed contract.
pub open spec fn spec_migration(
    contract_name: Seq<char>,
    new_version: Seq<char>,
    stored_contract: Seq<char>,
    stored_version: Seq<char>,
) -> Result<(), ErrorView> {
    if let Some(e) = semver_parse_error(new_version) {
        Err(ErrorView::Std { msg: semver_message(e) })
    } else if let Some(e) = semver_parse_error(stored_version) {
        Err(ErrorView::Std { msg: semver_message(e) })
    } else if stored_contract != contract_name {
        Err(ErrorView::CannotMigrate { previous_contract: stored_contract })
    } else if !semver_precedes(stored_version, new_version) {
        Err(ErrorView::CannotMigrate { previous_contract: stored_version })
    } else {
        Ok(())
    }
}

/// Decides whether the contract named `contract_name` at `new_version` may
/// replace the stored contract: both versions must parse, the stored name must
/// be this contract's, and the stored version must be older.
pub fn check_migration(
    contract_name: &str,
    new_version: &str,
    stored_contract: &String,
    stored_version: &String,
) -> (r: Result<(), ContractError>)
    ensures
        view_result(r) == spec_migration(
            contract_name@,
            new_version@,
            stored_contract@,
            stored_version@,
        ),
        stored_version@ == new_version@ ==> r is Err,
{
    if let Err(e) = parse_version(new_version) {
        return Err(from_semver(e.as_str()));
    }
    if let Err(e) = parse_version(stored_version.as_str()) {
        return Err(from_semver(e.as_str()));
    }
    let name = String::from_str(contract_name);
    if !(*stored_contract == name) {
        return Err(ContractError::CannotMigrate { previous_contract: stored_contract.clone() });
    }
    if !version_precedes(stored_version.as_str(), new_version) {
        return Err(ContractError::CannotMigrate { previous_contract: stored_version.clone() });
    }
    Ok(())
}

} // verus!
