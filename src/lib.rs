//! An actor that owns a counter and an optional text, driven one command at a
//! time, with the decisions of its mailbox loop and of its handles.
pub mod actor;
pub mod laws;
pub mod supervisor;
