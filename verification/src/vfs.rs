//! The virtual file system contract's own decisions: the answer to a reply
//! from a sub-message and the migration guard.

use vstd::prelude::*;
use crate::error::{ContractError, ErrorView, view_result};
use crate::version::{check_migration, spec_migration};

verus! {

/// The name under which the virtual file system records its version.
pub const CONTRACT_NAME: &'static str = "crates.io:andromeda-vfs";

/// Answers the reply to a sub-message: a failed sub-message fails the reply
/// with its error text; a successful one is accepted.
pub fn reply(result: Result<(), String>) -> (r: Result<(), ContractError>)
    ensures
        match result {
            Ok(()) => r is Ok,
            Err(m) => view_result(r) == Err::<(), ErrorView>(ErrorView::Std { msg: m@ }),
        },
{
    match result {
        Ok(()) => Ok(()),
        Err(msg) => Err(ContractError::Std { msg }),
    }
}

/// Decides a migration of the virtual file system from the stored name and
/// version to `new_version`.
pub fn migrate(new_version: &str, stored_contract: &String, stored_version: &String) -> (r: Result<
    (),
    ContractError,
>)
    ensures
        view_result(r) == spec_migration(
            CONTRACT_NAME@,
            new_version@,
            stored_contract@,
            stored_version@,
        ),
        stored_version@ == new_version@ ==> r is Err,
{
    check_migration(CONTRACT_NAME, new_version, stored_contract, stored_version)
}

} // verus!
