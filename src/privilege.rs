//! The privilege guard run before every mutating command.
use crate::error::DaemonError;
use crate::paths::Platform;
use vstd::prelude::*;

verus! {

/// The guard's verdict for a caller whose effective user id is `uid`.
pub open spec fn privilege_verdict(platform: Platform, uid: u32) -> Result<(), DaemonError> {
    match platform {
        Platform::Unix => if uid == 0 {
            Ok(())
        } else {
            Err(DaemonError::PermissionDenied)
        },
        Platform::Windows => Ok(()),
    }
}

/// Relies on `nix::unistd::Uid::effective`: the effective user id of this
/// process, which nothing here can predict.
#[verifier::external_body]
fn effective_uid() -> (r: u32) {
    nix::unistd::Uid::effective().as_raw()
}

/// Relies on `nix::unistd::Uid::is_root`: true for user id zero.
#[verifier::external_body]
fn uid_is_root(uid: u32) -> (r: bool)
    ensures
        r == (uid == 0),
{
    nix::unistd::Uid::from_raw(uid).is_root()
}

/// Decides whether a caller with effective user id `uid` may manage the
/// daemon: on `Unix` only root may; on `Windows` anyone may.
pub fn check_privilege(platform: Platform, uid: u32) -> (r: Result<(), DaemonError>)
    ensures
        r == privilege_verdict(platform, uid),
{
    match platform {
        Platform::Unix => if uid_is_root(uid) {
            Ok(())
        } else {
            Err(DaemonError::PermissionDenied)
        },
        Platform::Windows => Ok(()),
    }
}

/// Checks the calling process's own rights; see `check_privilege`.
pub fn check_root(platform: Platform) -> (r: Result<(), DaemonError>)
    ensures
        platform == Platform::Windows ==> r == Ok::<(), DaemonError>(()),
        r is Err ==> r == Err::<(), DaemonError>(DaemonError::PermissionDenied),
{
    match platform {
        Platform::Unix => {
            let uid = effective_uid();
            check_privilege(platform, uid)
        },
        Platform::Windows => Ok(()),
    }
}

} // verus!
