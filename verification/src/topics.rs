//! The topics endpoints: listing, creation, and topic membership.

pub mod create_topic;
pub mod create_topic_user;
pub mod delete_topic_user;
pub mod get_topics;
