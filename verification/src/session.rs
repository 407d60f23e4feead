//! Sessions: sealed intervals during which one application held focus.

use vstd::prelude::*;
use crate::time::Timestamp;

verus! {

/// Shortest duration, in nanoseconds, that a session must exceed to be
/// delivered. A session is delivered as soon as it is longer than this.
pub const MIN_DURATION_NANOS: u64 = 0;

/// Whether an interval is long enough to be delivered.
pub open spec fn deliverable(start_time: Timestamp, end_time: Timestamp) -> bool {
    start_time.nanos_until(end_time) > MIN_DURATION_NANOS
}

/// Whether the interval from `start_time` to `end_time` under `app_name` can
/// be sealed into a session: the name is not empty and the interval is long
/// enough to be delivered.
pub open spec fn sealable(app_name: Seq<char>, start_time: Timestamp, end_time: Timestamp) -> bool {
    app_name.len() > 0 && deliverable(start_time, end_time)
}

/// How a sealed session is sent.
#[derive(Clone, Copy, Debug, PartialEq, Eq, Structural)]
pub enum DeliveryMode {
    /// Sent as a task of its own; the tracker does not wait for the outcome.
    FireAndForget,
    /// The tracker waits until the one attempt has ended.
    Blocking,
}

/// What identifies the reporting device in every session it sends.
#[derive(Clone, Debug)]
pub struct DeviceIdentity {
    pub device_id: String,
    pub platform: String,
    pub time_zone: String,
}

/// A device identity as plain text.
pub struct DeviceIdentityView {
    pub device_id: Seq<char>,
    pub platform: Seq<char>,
    pub time_zone: Seq<char>,
}

impl View for DeviceIdentity {
    type V = DeviceIdentityView;

    open spec fn view(&self) -> DeviceIdentityView {
        DeviceIdentityView {
            device_id: self.device_id@,
            platform: self.platform@,
            time_zone: self.time_zone@,
        }
    }
}

/// A sealed session as plain values.
pub struct SessionView {
    pub app_name: Seq<char>,
    pub start_time: Timestamp,
    pub end_time: Timestamp,
    pub device_id: Seq<char>,
    pub platform: Seq<char>,
    pub time_zone: Seq<char>,
}

impl SessionView {
    /// The session that closing `app_name`, open since `start_time`, at
    /// `end_time` on the given device yields.
    pub open spec fn sealed(
        app_name: Seq<char>,
        start_time: Timestamp,
        end_time: Timestamp,
        identity: DeviceIdentityView,
    ) -> SessionView {
        SessionView {
            app_name,
            start_time,
            end_time,
            device_id: identity.device_id,
            platform: identity.platform,
            time_zone: identity.time_zone,
        }
    }

    /// Whether two sessions share a moment of their `[start, end)` intervals.
    pub open spec fn overlaps(self, other: SessionView) -> bool {
        self.start_time.precedes(other.end_time) && other.start_time.precedes(self.end_time)
    }
}

/// A sealed session. Its application name is never empty, it always ends
/// after it started, and nothing changes it once it exists.
pub struct Session {
    app_name: String,
    start_time: Timestamp,
    end_time: Timestamp,
    device_id: String,
    platform: String,
    time_zone: String,
}

impl View for Session {
    type V = SessionView;

    closed spec fn view(&self) -> SessionView {
        SessionView {
            app_name: self.app_name@,
            start_time: self.start_time,
            end_time: self.end_time,
            device_id: self.device_id@,
            platform: self.platform@,
            time_zone: self.time_zone@,
        }
    }
}

impl Session {
    #[verifier::type_invariant]
    spec fn named_and_ends_after_start(self) -> bool {
        sealable(self.app_name@, self.start_time, self.end_time)
    }

    /// Seals the interval from `start_time` to `end_time` for `app_name`.
    /// An empty name gives no session, nor does an interval that is not long
    /// enough to be delivered.
    pub fn seal(
        app_name: String,
        start_time: Timestamp,
        end_time: Timestamp,
        identity: &DeviceIdentity,
    ) -> (session: Option<Session>)
        ensures
            session is Some <==> sealable(app_name@, start_time, end_time),
            session matches Some(s) ==> s@ == SessionView::sealed(
                app_name@,
                start_time,
                end_time,
                identity@,
            ),
    {
        if !app_name.as_str().is_empty() && start_time.elapsed_nanos(&end_time)
            > MIN_DURATION_NANOS as i128 {
            Some(
                Session {
                    app_name,
                    start_time,
                    end_time,
                    device_id: identity.device_id.clone(),
                    platform: identity.platform.clone(),
                    time_zone: identity.time_zone.clone(),
                },
            )
        } else {
            None
        }
    }

    pub fn app_name(&self) -> (name: &String)
        ensures
            name@ == self@.app_name,
            name@.len() > 0,
    {
        proof {
            use_type_invariant(self);
        }
        &self.app_name
    }

    pub fn start_time(&self) -> (t: Timestamp)
        ensures
            t == self@.start_time,
    {
        self.start_time
    }

    pub fn end_time(&self) -> (t: Timestamp)
        ensures
            t == self@.end_time,
            self@.start_time.precedes(t),
    {
        proof {
            use_type_invariant(self);
        }
        self.end_time
    }

    pub fn device_id(&self) -> (id: &String)
        ensures
            id@ == self@.device_id,
    {
        &self.device_id
    }

    pub fn platform(&self) -> (platform: &String)
        ensures
            platform@ == self@.platform,
    {
        &self.platform
    }

    pub fn time_zone(&self) -> (zone: &String)
        ensures
            zone@ == self@.time_zone,
    {
        &self.time_zone
    }

    /// Length of the session in nanoseconds.
    pub fn duration_nanos(&self) -> (n: u128)
        ensures
            n == self@.start_time.nanos_until(self@.end_time),
            n > 0,
    {
        proof {
            use_type_invariant(self);
        }
        let n: i128 = self.start_time.elapsed_nanos(&self.end_time);
        n as u128
    }

    /// Length of the session in whole seconds, the rest cut off.
    pub fn duration_secs(&self) -> (secs: u128)
        ensures
            secs == self@.start_time.nanos_until(self@.end_time) / 1_000_000_000,
    {
        self.duration_nanos() / 1_000_000_000
    }
}

} // verus!
