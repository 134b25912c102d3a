//! Page selector for a discussion thread: a sliding window of page links
//! with scroll controls, driven by messages.

pub mod window;
pub mod selector;
pub mod lemmas;

pub use selector::{Inner, Message, Outcome, Props};
