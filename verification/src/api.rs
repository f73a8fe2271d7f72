//! What the service answers with.

pub mod forms;
