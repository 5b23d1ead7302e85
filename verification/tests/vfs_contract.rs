use andromeda_lockdrop::error::{from_semver, ContractError};
use andromeda_lockdrop::vfs::{migrate, reply};

#[test]
fn reply_passes_success_and_reports_failure() {
    assert_eq!(reply(Ok(())), Ok(()));
    assert_eq!(
        reply(Err("sub-message failed".to_string())),
        Err(ContractError::Std { msg: "sub-message failed".to_string() })
    );
}

#[test]
fn vfs_migration() {
    let name = "crates.io:andromeda-vfs".to_string();
    assert_eq!(migrate("1.1.0", &name, &"1.0.9".to_string()), Ok(()));
    assert_eq!(
        migrate("1.1.0", &"andromeda-lockdrop".to_string(), &"1.0.0".to_string()),
        Err(ContractError::CannotMigrate { previous_contract: "andromeda-lockdrop".to_string() })
    );
    assert_eq!(
        migrate("1.1.0", &name, &"1.1.0".to_string()),
        Err(ContractError::CannotMigrate { previous_contract: "1.1.0".to_string() })
    );
}

#[test]
fn semver_errors_are_prefixed() {
    assert_eq!(from_semver("boom"), ContractError::Std { msg: "Semver: boom".to_string() });
}
