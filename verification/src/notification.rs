//! Short-lived messages to the user.

use crate::time::{Duration, Timestamp};
use vstd::prelude::*;

verus! {

/// Time that a notification stays on the screen, in milliseconds.
pub const NOTIFICATION_DECAY_MILLIS: i64 = 5000;

/// A message that some background action has for the user. It takes no
/// focus, shows for a short time and then goes away by itself.
#[derive(Debug, PartialEq, Eq)]
pub struct Notification {
    pub message: String,
    pub timestamp: Timestamp,
}

impl Notification {
    /// The notification has been showing for the whole of its time at the
    /// moment `now`.
    pub open spec fn is_expired_at(&self, now: Timestamp) -> bool {
        now.since_epoch() - self.timestamp.since_epoch() >= NOTIFICATION_DECAY_MILLIS * 1_000_000
    }

    /// A notification that is raised at `timestamp`.
    pub fn new_at(message: String, timestamp: Timestamp) -> (notification: Notification)
        ensures
            notification.message == message,
            notification.timestamp == timestamp,
    {
        Notification { message, timestamp }
    }

    /// A notification that is raised now, by the system clock.
    pub fn new(message: String) -> (notification: Notification)
        ensures
            notification.message == message,
    {
        Self::new_at(message, Timestamp::now())
    }

    /// Whether the notification has been showing for the whole of its time
    /// at the moment `now`.
    pub fn expired_at(&self, now: Timestamp) -> (expired: bool)
        ensures
            expired == self.is_expired_at(now),
    {
        let shown = now.duration_since(&self.timestamp);
        let decay = Duration::milliseconds(NOTIFICATION_DECAY_MILLIS);
        shown.nanos >= decay.nanos
    }

    /// Whether the notification has been showing for the whole of its time,
    /// by the system clock.
    pub fn expired(&self) -> (expired: bool)
        ensures
            exists|now: Timestamp| expired == #[trigger] self.is_expired_at(now),
    {
        let now = Timestamp::now();
        let expired = self.expired_at(now);
        assert(expired == self.is_expired_at(now));
        expired
    }
}

} // verus!
