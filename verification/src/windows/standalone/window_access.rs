//! Temporary access of the target's logon session to windows.

use crate::text::{concat2, concat4, decimal_string, join};
use crate::windows::failure::{Failure, FailureModel};
use vstd::prelude::*;
use vstd::string::*;

verus! {

/// How an access-control entry changes a list.
pub const GRANT_ACCESS: i32 = 1;

pub const REVOKE_ACCESS: i32 = 4;

/// Every generic right.
pub const GENERIC_ACCESS: u32 = 0xf000_0000;

/// Every right on a window station.
pub const WINSTA_ALL_ACCESS: u32 = 0x000f_037f;

/// Inherited by objects and containers below, and not in force on the object itself.
pub const INHERITED_ONLY: u32 = 0x0b;

/// In force on the object itself, and not inherited further.
pub const NO_PROPAGATE_INHERIT_ACE: u32 = 0x04;

/// The desktop of a target.
#[derive(Clone, Copy, Debug, PartialEq, Eq, Structural)]
pub enum StandaloneDesktop {
    Default,
    Private,
}

/// A window object.
#[derive(Clone, Copy, Debug, PartialEq, Eq, Structural)]
pub enum WindowObject {
    Station,
    Desktop,
}

impl WindowObject {
    /// The object's name in diagnostics.
    pub open spec fn label_text(self) -> Seq<char> {
        match self {
            WindowObject::Station => "Winsta0"@,
            WindowObject::Desktop => "Default desktop"@,
        }
    }

    /// The object's name in diagnostics.
    pub fn label(self) -> (result: &'static str)
        ensures
            result@ == self.label_text(),
    {
        match self {
            WindowObject::Station => "Winsta0",
            WindowObject::Desktop => "Default desktop",
        }
    }
}

/// An access-control entry for the logon session.
#[derive(Clone, Copy, Debug, PartialEq, Eq, Structural)]
pub struct AccessEntry {
    pub permissions: u32,
    pub mode: i32,
    pub inheritance: u32,
}

/// The entries that grant access to an object. The right on a desktop is given.
pub open spec fn granting_entries(object: WindowObject, desktop_access: u32) -> Seq<AccessEntry> {
    match object {
        WindowObject::Station => seq![
            AccessEntry { permissions: GENERIC_ACCESS, mode: GRANT_ACCESS, inheritance: INHERITED_ONLY },
            AccessEntry { permissions: WINSTA_ALL_ACCESS, mode: GRANT_ACCESS, inheritance: NO_PROPAGATE_INHERIT_ACE },
        ],
        WindowObject::Desktop => seq![
            AccessEntry { permissions: desktop_access, mode: GRANT_ACCESS, inheritance: 0 },
        ],
    }
}

/// The entries that grant access to an object.
pub fn grant_access(object: WindowObject, desktop_access: u32) -> (result: Vec<AccessEntry>)
    ensures
        result@ == granting_entries(object, desktop_access),
{
    let mut entries: Vec<AccessEntry> = Vec::new();
    match object {
        WindowObject::Station => {
            entries.push(
                AccessEntry { permissions: GENERIC_ACCESS, mode: GRANT_ACCESS, inheritance: INHERITED_ONLY },
            );
            entries.push(
                AccessEntry {
                    permissions: WINSTA_ALL_ACCESS,
                    mode: GRANT_ACCESS,
                    inheritance: NO_PROPAGATE_INHERIT_ACE,
                },
            );
        },
        WindowObject::Desktop => {
            entries.push(AccessEntry { permissions: desktop_access, mode: GRANT_ACCESS, inheritance: 0 });
        },
    }
    assert(entries@ =~= granting_entries(object, desktop_access));
    entries
}

/// The entry that takes every right of the logon session away.
pub fn revoke_access() -> (result: AccessEntry)
    ensures
        result == (AccessEntry { permissions: 0, mode: REVOKE_ACCESS, inheritance: 0 }),
{
    AccessEntry { permissions: 0, mode: REVOKE_ACCESS, inheritance: 0 }
}

/// A step of changing an object's access-control list.
#[derive(Clone, Copy, Debug, PartialEq, Eq, Structural)]
pub enum DaclStep {
    Read,
    Build,
    Apply,
}

/// Checks a step of changing an object's access-control list.
pub fn update_dacl(step: DaclStep, code: u32, object: WindowObject) -> (result: Result<(), Failure>)
    ensures
        if code == 0 {
            result is Ok
        } else {
            result matches Err(failure) && failure@ == FailureModel::plain(
                (match step {
                    DaclStep::Read => "GetSecurityInfo failed for "@,
                    DaclStep::Build => "SetEntriesInAclW failed for "@,
                    DaclStep::Apply => "SetSecurityInfo failed for "@,
                }) + object.label_text() + ": "@ + crate::text::decimal(code as nat),
            )
        },
{
    if code == 0 {
        return Ok(());
    }
    let lead = match step {
        DaclStep::Read => "GetSecurityInfo failed for ",
        DaclStep::Build => "SetEntriesInAclW failed for ",
        DaclStep::Apply => "SetSecurityInfo failed for ",
    };
    let digits = decimal_string(code as u64);
    let message = concat4(lead, object.label(), ": ", digits.as_str());
    Err(Failure::new(message.as_str()))
}

/// Temporary logon-session entries that the targets need.
///
/// The target token retains only this session's identity plus policy capabilities.
/// Granting the unique session the selected Windows objects avoids adding everyone or
/// the persistent sandbox account to the restricting identities.
#[derive(Debug, PartialEq, Eq)]
pub struct WindowAccessLease {
    pub station_granted: bool,
    pub desktop_granted: bool,
}

/// Texts of the failures to revoke what was granted, the desktop's first.
pub open spec fn revocation_errors(
    lease: WindowAccessLease,
    desktop: Result<(), Failure>,
    station: Result<(), Failure>,
) -> Seq<Seq<char>> {
    let none: Seq<Seq<char>> = Seq::empty();
    (if lease.desktop_granted && desktop is Err {
        none.push(desktop->Err_0@.chain())
    } else {
        none
    }) + (if lease.station_granted && station is Err {
        none.push(station->Err_0@.chain())
    } else {
        none
    })
}

impl WindowAccessLease {
    /// A lease under which nothing is granted.
    pub fn new() -> (result: Self)
        ensures
            !result.station_granted,
            !result.desktop_granted,
    {
        WindowAccessLease { station_granted: false, desktop_granted: false }
    }

    /// The objects that are still to be granted: the station, and then the desktop where
    /// it is not private.
    pub open spec fn next_grant(self, desktop: StandaloneDesktop) -> Option<WindowObject> {
        if !self.station_granted {
            Some(WindowObject::Station)
        } else if desktop == StandaloneDesktop::Default && !self.desktop_granted {
            Some(WindowObject::Desktop)
        } else {
            None
        }
    }

    /// The next object to grant.
    pub fn prepare(&self, desktop: StandaloneDesktop) -> (result: Option<WindowObject>)
        ensures
            result == self.next_grant(desktop),
    {
        if !self.station_granted {
            return Some(WindowObject::Station);
        }
        if desktop == StandaloneDesktop::Default && !self.desktop_granted {
            return Some(WindowObject::Desktop);
        }
        None
    }

    /// The lease under which an object was granted too.
    pub open spec fn with_grant(self, object: WindowObject) -> WindowAccessLease {
        match object {
            WindowObject::Station => WindowAccessLease { station_granted: true, ..self },
            WindowObject::Desktop => WindowAccessLease { desktop_granted: true, ..self },
        }
    }

    /// Records that an object was granted.
    pub fn granted(&mut self, object: WindowObject)
        ensures
            *final(self) == old(self).with_grant(object),
    {
        match object {
            WindowObject::Station => {
                self.station_granted = true;
            },
            WindowObject::Desktop => {
                self.desktop_granted = true;
            },
        }
    }

    /// Ends the lease: what was granted was revoked, the desktop first, or failed to be.
    /// Nothing is revoked twice. What was not granted is not looked at.
    pub fn revoke(&mut self, desktop: Result<(), Failure>, station: Result<(), Failure>) -> (result: Result<(), Failure>)
        ensures
            !final(self).station_granted,
            !final(self).desktop_granted,
            ({
                let errors = revocation_errors(*old(self), desktop, station);
                if errors.len() == 0 {
                    result is Ok
                } else {
                    result matches Err(failure) && failure@ == FailureModel::plain(
                        crate::text::separated(errors, "; "@),
                    )
                }
            }),
    {
        let ghost expected = revocation_errors(*self, desktop, station);
        let mut errors: Vec<String> = Vec::new();
        if self.desktop_granted {
            if let Err(failure) = &desktop {
                errors.push(failure.chain());
            }
            self.desktop_granted = false;
        }
        if self.station_granted {
            if let Err(failure) = &station {
                errors.push(failure.chain());
            }
            self.station_granted = false;
        }
        assert(errors.deep_view() =~= expected);
        if errors.len() == 0 {
            Ok(())
        } else {
            let message = join(&errors, "; ");
            Err(Failure::new(message.as_str()))
        }
    }
}

/// The line that reports a failed cleanup.
pub fn cleanup_failure_line(failure: &Failure) -> (result: String)
    ensures
        result@ == "standalone Windows station cleanup failed: "@ + failure@.chain(),
{
    let chain = failure.chain();
    concat2("standalone Windows station cleanup failed: ", chain.as_str())
}

/// A lease that ended ends again without anything to revoke.
pub proof fn revocation_is_repeatable(
    lease: WindowAccessLease,
    desktop: Result<(), Failure>,
    station: Result<(), Failure>,
)
    requires
        !lease.station_granted,
        !lease.desktop_granted,
    ensures
        revocation_errors(lease, desktop, station).len() == 0,
{
}

/// The desktop is only granted where it is not private, and after the station.
pub proof fn private_desktops_are_not_granted(lease: WindowAccessLease, desktop: StandaloneDesktop)
    ensures
        lease.next_grant(desktop) == Some(WindowObject::Desktop) ==> desktop == StandaloneDesktop::Default
            && lease.station_granted,
{
}

/// What failed while the default desktop was opened.
#[derive(Debug)]
pub enum DesktopOpening {
    Opened,
    /// The runner's own window station could not be read.
    NoCurrentStation(String),
    /// The station of the target could not be selected.
    NotSelected(String),
    /// The desktop could not be opened, and the runner's station was restored.
    NotOpened(String),
    /// The runner's station could not be restored. A desktop that was opened is closed.
    NotRestored(String),
}

/// Judges the opening of the default desktop. A station that was not restored weighs
/// more than a desktop that was not opened.
pub fn open_default_desktop(opening: DesktopOpening) -> (result: Result<(), Failure>)
    ensures
        match opening {
            DesktopOpening::Opened => result is Ok,
            DesktopOpening::NoCurrentStation(error) => result matches Err(failure) && failure@
                == FailureModel::plain(error@).within("read runner process window station"@),
            DesktopOpening::NotSelected(error) => result matches Err(failure) && failure@ == FailureModel::plain(
                error@,
            ).within("select Winsta0 while opening the Default desktop"@),
            DesktopOpening::NotOpened(error) => result matches Err(failure) && failure@ == FailureModel::plain(
                error@,
            ).within("open Winsta0\\Default for standalone logon-session access"@),
            DesktopOpening::NotRestored(error) => result matches Err(failure) && failure@ == FailureModel::plain(
                error@,
            ).within("restore runner process window station"@),
        },
{
    match opening {
        DesktopOpening::Opened => Ok(()),
        DesktopOpening::NoCurrentStation(error) => Err(
            Failure::new(error.as_str()).within("read runner process window station"),
        ),
        DesktopOpening::NotSelected(error) => Err(
            Failure::new(error.as_str()).within("select Winsta0 while opening the Default desktop"),
        ),
        DesktopOpening::NotOpened(error) => Err(
            Failure::new(error.as_str()).within("open Winsta0\\Default for standalone logon-session access"),
        ),
        DesktopOpening::NotRestored(error) => Err(
            Failure::new(error.as_str()).within("restore runner process window station"),
        ),
    }
}

/// What is granted is granted, never taken away: every right to the window station and,
/// below it, every generic one; and on the desktop the right that was asked for alone.
pub proof fn grants_only_grant(object: WindowObject, desktop_access: u32, index: int)
    requires
        0 <= index < granting_entries(object, desktop_access).len(),
    ensures
        granting_entries(object, desktop_access)[index].mode == 1,
        object is Desktop ==> granting_entries(object, desktop_access).len() == 1 && granting_entries(
            object,
            desktop_access,
        )[index].permissions == desktop_access && granting_entries(object, desktop_access)[index].inheritance == 0,
        object is Station ==> {
            let entry = granting_entries(object, desktop_access)[index];
            ||| entry.permissions == 0xf000_0000 && entry.inheritance == 0x0b
            ||| entry.permissions == 0x000f_037f && entry.inheritance == 0x04
        },
        object is Station ==> granting_entries(object, desktop_access).len() == 2,
        object is Station ==> granting_entries(object, desktop_access)[0] != granting_entries(
            object,
            desktop_access,
        )[1],
{
}

/// What is granted next is what the target still lacks: the station, and then the desktop
/// where it is the default one. Nothing is granted once it has all.
pub proof fn grants_give_what_is_missing(lease: WindowAccessLease, desktop: StandaloneDesktop)
    ensures
        lease.next_grant(desktop) == Some(WindowObject::Station) <==> !lease.station_granted,
        lease.next_grant(desktop) == Some(WindowObject::Desktop) <==> lease.station_granted && desktop is Default
            && !lease.desktop_granted,
        lease.next_grant(desktop) is None <==> lease.station_granted && (desktop is Private
            || lease.desktop_granted),
{
}

/// The end of a lease succeeds exactly where everything that was granted was revoked, and
/// reports each failure else, the desktop's first.
pub proof fn revocations_report_each_failure(
    lease: WindowAccessLease,
    desktop: Result<(), Failure>,
    station: Result<(), Failure>,
)
    ensures
        ({
            let errors = revocation_errors(lease, desktop, station);
            let desktop_failed = lease.desktop_granted && desktop is Err;
            let station_failed = lease.station_granted && station is Err;
            &&& errors.len() == 0 <==> !desktop_failed && !station_failed
            &&& desktop_failed ==> errors[0] == desktop->Err_0@.chain()
            &&& station_failed ==> errors.last() == station->Err_0@.chain()
            &&& errors.len() == 2 <==> desktop_failed && station_failed
        }),
{
}

/// Each grant is recorded as that of its own object, so that none is asked for twice, and
/// two grants at most complete a lease.
pub proof fn grants_are_made_once(lease: WindowAccessLease, desktop: StandaloneDesktop, object: WindowObject)
    ensures
        lease.with_grant(object).station_granted <==> lease.station_granted || object is Station,
        lease.with_grant(object).desktop_granted <==> lease.desktop_granted || object is Desktop,
        lease.next_grant(desktop) == Some(object) ==> lease.with_grant(object).next_grant(desktop) != Some(object),
        lease.with_grant(WindowObject::Station).with_grant(WindowObject::Desktop).next_grant(desktop) is None,
{
}

} // verus!
