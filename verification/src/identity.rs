//! Finding out which device the tracker runs on.

use vstd::prelude::*;
use vstd::string::StringExecFns;
use crate::session::{DeviceIdentity, DeviceIdentityView};

verus! {

/// The platform every session is reported for.
pub const DEVICE_PLATFORM: &'static str = "windows";

/// The time zone reported where the system's cannot be determined.
pub const FALLBACK_TIME_ZONE: &'static str = "UTC";

#[verifier::external_type_specification]
#[verifier::external_body]
pub struct ExWhoamiError(whoami::Error);

#[verifier::external_type_specification]
#[verifier::external_body]
pub struct ExGetTimezoneError(iana_time_zone::GetTimezoneError);

/// Why no device identity could be made.
#[derive(Clone, Copy, Debug, PartialEq, Eq, Structural)]
pub enum IdentityError {
    /// The host name could not be determined.
    Hostname,
    /// The user name could not be determined.
    Username,
}

/// The device identifier: host name, a hyphen, user name.
pub open spec fn device_id_text(hostname: Seq<char>, username: Seq<char>) -> Seq<char> {
    hostname + seq!['-'] + username
}

/// The time zone to report: the system's, or the fallback without one.
pub open spec fn time_zone_text(zone: Option<Seq<char>>) -> Seq<char> {
    match zone {
        Some(name) => name,
        None => FALLBACK_TIME_ZONE@,
    }
}

/// Joins host name and user name into the device identifier.
pub fn device_id(hostname: &str, username: &str) -> (id: String)
    ensures
        id@ == device_id_text(hostname@, username@),
{
    proof {
        reveal_strlit("-");
    }
    let mut id = hostname.to_owned();
    id.append("-");
    id.append(username);
    assert(id@ =~= device_id_text(hostname@, username@));
    id
}

/// The time zone to report for what the system gave.
pub fn time_zone_or_fallback(zone: Option<String>) -> (name: String)
    ensures
        name@ == time_zone_text(crate::event::opt_text(zone)),
{
    match zone {
        Some(name) => name,
        None => FALLBACK_TIME_ZONE.to_owned(),
    }
}

impl DeviceIdentity {
    /// Puts an identity together from what the system gave. Without a host
    /// name there is none, nor without a user name; a missing time zone is
    /// replaced by the fallback.
    pub fn compose(
        hostname: Option<String>,
        username: Option<String>,
        zone: Option<String>,
    ) -> (identity: Result<DeviceIdentity, IdentityError>)
        ensures
            match (hostname, username) {
                (None, _) => identity == Err::<DeviceIdentity, IdentityError>(
                    IdentityError::Hostname,
                ),
                (Some(_), None) => identity == Err::<DeviceIdentity, IdentityError>(
                    IdentityError::Username,
                ),
                (Some(host), Some(user)) => identity is Ok && identity->Ok_0@ == (
                DeviceIdentityView {
                    device_id: device_id_text(host@, user@),
                    platform: DEVICE_PLATFORM@,
                    time_zone: time_zone_text(crate::event::opt_text(zone)),
                }),
            },
    {
        match hostname {
            None => Err(IdentityError::Hostname),
            Some(host) => match username {
                None => Err(IdentityError::Username),
                Some(user) => Ok(
                    DeviceIdentity {
                        device_id: device_id(host.as_str(), user.as_str()),
                        platform: DEVICE_PLATFORM.to_owned(),
                        time_zone: time_zone_or_fallback(zone),
                    },
                ),
            },
        }
    }

    /// Asks the system for host name, user name and time zone and puts the
    /// identity together. Whatever the system answers, an identity that
    /// comes back is for the tracker's platform and its identifier holds a
    /// hyphen between the two names.
    pub fn detect() -> (identity: Result<DeviceIdentity, IdentityError>)
        ensures
            identity matches Ok(found) ==> {
                &&& found@.platform == DEVICE_PLATFORM@
                &&& exists|host: Seq<char>, user: Seq<char>|
                    found@.device_id == #[trigger] device_id_text(host, user)
            },
    {
        let hostname = match system_hostname() {
            Ok(name) => Some(name),
            Err(_) => None,
        };
        let username = match system_username() {
            Ok(name) => Some(name),
            Err(_) => None,
        };
        let zone = match system_time_zone() {
            Ok(name) => Some(name),
            Err(_) => None,
        };
        DeviceIdentity::compose(hostname, username, zone)
    }
}

/// `whoami::hostname`: the machine's host name, or the error of the lookup.
/// Nothing is claimed of either.
#[verifier::external_body]
fn system_hostname() -> (name: Result<String, whoami::Error>) {
    whoami::hostname()
}

/// `whoami::username`: the name of the user the process runs as, or the
/// error of the lookup. Nothing is claimed of either.
#[verifier::external_body]
fn system_username() -> (name: Result<String, whoami::Error>) {
    whoami::username()
}

/// `iana_time_zone::get_timezone`: the IANA name of the system's time zone,
/// or the error of the lookup. Nothing is claimed of either.
#[verifier::external_body]
fn system_time_zone() -> (name: Result<String, iana_time_zone::GetTimezoneError>) {
    iana_time_zone::get_timezone()
}

} // verus!
