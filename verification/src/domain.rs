//! The dictation domain: its data, the vocabulary rules, the collaborators the
//! session drives, and the session state machine itself.

pub mod collaborators;
pub mod manager;
pub mod ports;
pub mod types;
pub mod vocabulary;
