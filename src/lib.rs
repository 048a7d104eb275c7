//! Newsletter subscriptions: validated subscriber values, the subscription
//! store with its confirmation tokens, the confirmation email request, and
//! the decisions that turn each step's outcome into a response.
pub mod configuration;
pub mod email_client;
pub mod lifecycle;
pub mod new_subscriber;
pub mod store;
pub mod subscriber_email;
pub mod subscriber_name;
