//! What a subscriber is: a name and an email address that passed validation.

pub mod new_subscriber;
pub mod subscriber_email;
pub mod subscriber_name;
pub mod validation_error;
