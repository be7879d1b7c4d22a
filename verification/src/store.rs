//! The stored form of a subscription.
//!
//! Each accepted subscriber is recorded as one row of the relation
//! `subscriptions (id, email, name, subscribed_at, status)`. This module
//! says what such a row holds and supplies the two values that come from
//! outside the request: a fresh identifier and the current instant. Writing
//! the row is left to the program around the library.

use vstd::prelude::*;
use crate::domain::new_subscriber::NewSubscriber;
use crate::domain::subscriber_email::valid_email;
use crate::domain::subscriber_name::valid_name;

verus! {

/// The status every row is stored with.
pub const CONFIRMED: &'static str = "confirmed";

/// `id`, read as the sixteen bytes of a UUID with the first byte highest,
/// has the layout of a version 4 UUID: the version field is 4 and the
/// variant field is binary 10.
pub open spec fn is_version_4(id: u128) -> bool {
    &&& (id >> 76) & 0xf == 4
    &&& (id >> 62) & 0x3 == 2
}

/// An instant on the UTC time line: whole seconds since 1970-01-01 00:00:00
/// UTC, and the nanoseconds since the last whole second.
#[derive(Debug, Clone, Copy, PartialEq, Eq, Structural)]
pub struct UtcInstant {
    pub secs: i64,
    pub nanos: u32,
}

impl UtcInstant {
    /// The nanoseconds stay below one second.
    pub open spec fn wf(self) -> bool {
        self.nanos < 1_000_000_000
    }
}

/// A fresh version 4 UUID, as a 128-bit number.
///
/// Calls `uuid::Uuid::new_v4` and reads the result with `Uuid::as_u128`. All
/// that is claimed of the number is its layout: `new_v4` takes 128 random
/// bits and overwrites the version and variant fields. Which number comes
/// back differs from call to call. `new_v4` panics where the operating
/// system cannot supply random bytes.
#[verifier::external_body]
pub(crate) fn fresh_uuid() -> (id: u128)
    ensures
        is_version_4(id),
{
    uuid::Uuid::new_v4().as_u128()
}

/// The current instant.
///
/// Calls `chrono::Utc::now` and reads the result with `DateTime::timestamp`
/// and `DateTime::timestamp_subsec_nanos`. All that is claimed of the
/// instant is that its nanoseconds stay below one second: `now` builds its
/// result from the system clock's distance to the epoch, whose sub-second
/// part does, and never yields a leap second. `now` panics where the system
/// clock stands before 1970.
#[verifier::external_body]
pub(crate) fn utc_now() -> (now: UtcInstant)
    ensures
        now.wf(),
{
    let now = chrono::Utc::now();
    UtcInstant { secs: now.timestamp(), nanos: now.timestamp_subsec_nanos() }
}

/// One row of the relation `subscriptions`.
#[derive(Debug, PartialEq, Eq)]
pub struct SubscriptionRow {
    pub id: u128,
    pub email: String,
    pub name: String,
    pub subscribed_at: UtcInstant,
    pub status: String,
}

impl SubscriptionRow {
    /// The row is one that may be stored: its identifier is a version 4
    /// UUID, its name and address are acceptable, its instant is well
    /// formed and its status is [`CONFIRMED`].
    pub open spec fn wf(&self) -> bool {
        &&& is_version_4(self.id)
        &&& valid_email(self.email@)
        &&& valid_name(self.name@)
        &&& self.subscribed_at.wf()
        &&& self.status@ == CONFIRMED@
    }

    /// The row carries the name and address of `subscriber`.
    pub open spec fn records(&self, subscriber: &NewSubscriber) -> bool {
        &&& self.email@ == subscriber.email@
        &&& self.name@ == subscriber.name@
    }

    /// The row that records `subscriber` under the identifier `id` as
    /// subscribed at `subscribed_at`.
    pub fn new(id: u128, subscribed_at: UtcInstant, subscriber: &NewSubscriber) -> (row: Self)
        ensures
            row.id == id,
            row.subscribed_at == subscribed_at,
            row.records(subscriber),
            row.status@ == CONFIRMED@,
            row.wf() <==> is_version_4(id) && subscribed_at.wf(),
    {
        SubscriptionRow {
            id,
            email: subscriber.email.as_ref().to_string(),
            name: subscriber.name.as_ref().to_string(),
            subscribed_at,
            status: CONFIRMED.to_string(),
        }
    }
}

} // verus!
