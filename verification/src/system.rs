//! The operating system's account database, reached through `nix`.
//!
//! Nothing here is proved: each function hands the question to the system and
//! carries the answer back as an `AccountRecord`. What the database answers
//! depends on the machine, so no contract says what a record holds.

use crate::account::AccountRecord;
use nix::errno::Errno;
use nix::unistd::{Gid, Group, Uid, User};
use vstd::prelude::*;

verus! {

/// The error code of a failed system call, as `nix` reports it.
#[verifier::external_type_specification]
#[verifier::external_body]
pub struct ExErrno(nix::errno::Errno);

/// Asks the system for the user that owns `uid`, with `nix::unistd::User::from_uid`.
/// The user's name, numeric id and home directory are carried over; nothing is
/// claimed of them.
#[verifier::external_body]
pub(crate) fn system_user_by_uid(uid: u32) -> (answer: Result<Option<AccountRecord>, Errno>) {
    match User::from_uid(Uid::from_raw(uid)) {
        Ok(Some(user)) => Ok(Some(AccountRecord {
            name: user.name,
            id: user.uid.as_raw(),
            home: Some(user.dir.to_string_lossy().to_string()),
        })),
        Ok(None) => Ok(None),
        Err(errno) => Err(errno),
    }
}

/// Asks the system for the user called `name`, with `nix::unistd::User::from_name`.
/// The user's name, numeric id and home directory are carried over; nothing is
/// claimed of them.
#[verifier::external_body]
pub(crate) fn system_user_by_name(name: &str) -> (answer: Result<Option<AccountRecord>, Errno>) {
    match User::from_name(name) {
        Ok(Some(user)) => Ok(Some(AccountRecord {
            name: user.name,
            id: user.uid.as_raw(),
            home: Some(user.dir.to_string_lossy().to_string()),
        })),
        Ok(None) => Ok(None),
        Err(errno) => Err(errno),
    }
}

/// Asks the system for the group that owns `gid`, with `nix::unistd::Group::from_gid`.
/// The group's name and numeric id are carried over; nothing is claimed of them.
#[verifier::external_body]
pub(crate) fn system_group_by_gid(gid: u32) -> (answer: Result<Option<AccountRecord>, Errno>) {
    match Group::from_gid(Gid::from_raw(gid)) {
        Ok(Some(group)) => Ok(Some(AccountRecord {
            name: group.name,
            id: group.gid.as_raw(),
            home: None,
        })),
        Ok(None) => Ok(None),
        Err(errno) => Err(errno),
    }
}

/// Asks the system for the group called `name`, with `nix::unistd::Group::from_name`.
/// The group's name and numeric id are carried over; nothing is claimed of them.
#[verifier::external_body]
pub(crate) fn system_group_by_name(name: &str) -> (answer: Result<Option<AccountRecord>, Errno>) {
    match Group::from_name(name) {
        Ok(Some(group)) => Ok(Some(AccountRecord {
            name: group.name,
            id: group.gid.as_raw(),
            home: None,
        })),
        Ok(None) => Ok(None),
        Err(errno) => Err(errno),
    }
}

} // verus!
