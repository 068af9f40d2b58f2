//! How one access-control entry of an embedded process is set and taken back.

use crate::text::{concat2, decimal_string};
use crate::windows::embedding::acl::AclTarget;
use crate::windows::failure::{Failure, FailureModel};
use crate::windows::standalone::window_access::{AccessEntry, REVOKE_ACCESS};
use vstd::prelude::*;
use vstd::string::*;

verus! {

pub const SET_ACCESS: i32 = 2;

pub const ERROR_SUCCESS: u32 = 0;

pub const FILE_GENERIC_READ: u32 = 0x0012_0089;

pub const FILE_GENERIC_WRITE: u32 = 0x0012_0116;

pub const FILE_GENERIC_EXECUTE: u32 = 0x0012_00a0;

/// Reading, writing and executing together.
pub const FILE_GENERIC_ACCESS: u32 = 0x0012_01bf;

/// Every right to a window station.
pub const WINSTA_ALL_ACCESS: u32 = 0x37f;

/// Entries on paths reach the objects and the containers below them.
pub const PATH_ACE_INHERITANCE: u32 = 3;

/// The rights that an entry sets on the null device, or else on the window station.
pub open spec fn device_rights(null_device: bool) -> u32 {
    if null_device {
        FILE_GENERIC_READ | FILE_GENERIC_WRITE | FILE_GENERIC_EXECUTE
    } else {
        WINSTA_ALL_ACCESS
    }
}

/// The entry that sets the rights of a capability on a device, or takes them back.
pub open spec fn device_entry(null_device: bool, access_mode: i32) -> AccessEntry {
    AccessEntry {
        permissions: if access_mode == REVOKE_ACCESS {
            0
        } else {
            device_rights(null_device)
        },
        mode: access_mode,
        inheritance: 0,
    }
}

/// The entry that opens the null device for a capability, or takes that back.
pub fn update_null_device_ace(access_mode: i32) -> (result: AccessEntry)
    ensures
        result == device_entry(true, access_mode),
{
    assert(0x0012_01bfu32 == 0x0012_0089u32 | 0x0012_0116u32 | 0x0012_00a0u32) by (bit_vector);
    AccessEntry {
        permissions: if access_mode == REVOKE_ACCESS {
            0
        } else {
            FILE_GENERIC_ACCESS
        },
        mode: access_mode,
        inheritance: 0,
    }
}

/// The entry that opens the window station for a capability, or takes that back.
pub fn update_window_station_ace(access_mode: i32) -> (result: AccessEntry)
    ensures
        result == device_entry(false, access_mode),
{
    AccessEntry {
        permissions: if access_mode == REVOKE_ACCESS {
            0
        } else {
            WINSTA_ALL_ACCESS
        },
        mode: access_mode,
        inheritance: 0,
    }
}

/// The entry that takes back a capability's rights to a path.
pub fn revoke_path_ace() -> (result: AccessEntry)
    ensures
        result == (AccessEntry { permissions: 0, mode: REVOKE_ACCESS, inheritance: PATH_ACE_INHERITANCE }),
{
    AccessEntry { permissions: 0, mode: REVOKE_ACCESS, inheritance: PATH_ACE_INHERITANCE }
}

/// What a failed look at an object's list is called.
pub open spec fn unreadable(target: AclTarget, code: u32) -> FailureModel {
    FailureModel::plain(
        (match target {
            AclTarget::Path(_) => "GetNamedSecurityInfoW failed: "@,
            AclTarget::NullDevice => "GetSecurityInfo failed for NUL: "@,
            AclTarget::WindowStation => "GetSecurityInfo failed for Winsta0: "@,
        }) + crate::text::decimal(code as nat),
    )
}

/// Checks that the list of an object could be read.
pub fn require_acl_read(target: &AclTarget, code: u32) -> (result: Result<(), Failure>)
    ensures
        if code == ERROR_SUCCESS {
            result is Ok
        } else {
            result matches Err(failure) && failure@ == unreadable(*target, code)
        },
{
    if code == ERROR_SUCCESS {
        return Ok(());
    }
    let digits = decimal_string(code as u64);
    let lead = match target {
        AclTarget::Path(_) => "GetNamedSecurityInfoW failed: ",
        AclTarget::NullDevice => "GetSecurityInfo failed for NUL: ",
        AclTarget::WindowStation => "GetSecurityInfo failed for Winsta0: ",
    };
    let message = concat2(lead, digits.as_str());
    Err(Failure::new(message.as_str()))
}

/// Why the update of a list failed, if it did: it could not be built, or it could not be
/// set.
pub open spec fn update_failure(update_code: u32, set_code: u32) -> Option<FailureModel> {
    if update_code != ERROR_SUCCESS {
        Some(FailureModel::plain("SetEntriesInAclW failed: "@ + crate::text::decimal(update_code as nat)))
    } else if set_code != ERROR_SUCCESS {
        Some(FailureModel::plain("setting the updated ACL failed: "@ + crate::text::decimal(set_code as nat)))
    } else {
        None
    }
}

/// Whether the list of an object was updated. The second code is only looked at where the
/// first is a success.
pub fn update_acl(update_code: u32, set_code: u32) -> (result: Result<bool, Failure>)
    ensures
        match update_failure(update_code, set_code) {
            Some(expected) => result matches Err(failure) && failure@ == expected,
            None => result == Ok::<bool, Failure>(true),
        },
{
    if update_code != ERROR_SUCCESS {
        let digits = decimal_string(update_code as u64);
        let message = concat2("SetEntriesInAclW failed: ", digits.as_str());
        return Err(Failure::new(message.as_str()));
    }
    if set_code != ERROR_SUCCESS {
        let digits = decimal_string(set_code as u64);
        let message = concat2("setting the updated ACL failed: ", digits.as_str());
        return Err(Failure::new(message.as_str()));
    }
    Ok(true)
}

/// An entry that is taken back grants nothing. Any other opens the null device for reading,
/// writing and executing, or every right to the window station, and reaches no object
/// below.
pub proof fn device_entries_grant_what_they_set(null_device: bool, access_mode: i32)
    ensures
        device_entry(null_device, access_mode).mode == access_mode,
        device_entry(null_device, access_mode).inheritance == 0,
        access_mode == 4 ==> device_entry(null_device, access_mode).permissions == 0,
        access_mode != 4 && null_device ==> device_entry(null_device, access_mode).permissions == 0x0012_01bf,
        access_mode != 4 && !null_device ==> device_entry(null_device, access_mode).permissions == 0x37f,
{
    assert(0x0012_0089u32 | 0x0012_0116u32 | 0x0012_00a0u32 == 0x0012_01bfu32) by (bit_vector);
}

/// A list is updated exactly where it was built and set.
pub proof fn updates_need_both_successes(update_code: u32, set_code: u32)
    ensures
        update_failure(update_code, set_code) is None <==> update_code == 0 && set_code == 0,
{
}

} // verus!
