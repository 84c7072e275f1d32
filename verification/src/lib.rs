//! Validation and matching of publish/subscribe topic names.
//!
//! A topic is a string of Unicode characters, divided into levels by `/`.
//! Publisher topics are literal; subscriber topics may use the wildcards
//! `+` (stands for exactly one level) and `#` (stands for all remaining
//! levels, legal only as the final character). This crate answers two
//! questions: whether a string is a legal topic for its role, and whether
//! a publish topic matches a subscribe pattern.

pub mod model;
pub mod topics;

pub use model::lemma_match_reflexive;
pub use model::lemma_publisher_valid_is_subscriber_valid;
pub use topics::does_topic_match;
pub use topics::does_valid_topic_match;
pub use topics::is_publisher_topic_valid;
pub use topics::is_subscriber_topic_valid;
