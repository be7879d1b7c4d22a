//! A subscriber that may be stored.

use vstd::prelude::*;
use crate::domain::subscriber_email::SubscriberEmail;
use crate::domain::subscriber_name::SubscriberName;

verus! {

/// A name and an email address, each already accepted. There is no way to
/// hold a subscriber whose name or address was refused.
#[derive(Debug, PartialEq, Eq)]
pub struct NewSubscriber {
    pub email: SubscriberEmail,
    pub name: SubscriberName,
}

impl Clone for NewSubscriber {
    fn clone(&self) -> (copy: Self)
        ensures
            copy.email@ == self.email@,
            copy.name@ == self.name@,
    {
        NewSubscriber { email: self.email.clone(), name: self.name.clone() }
    }
}

} // verus!
