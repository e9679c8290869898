//! Session engine of an editor-integration server: documents kept in step
//! with the editor, requests in flight, and the replies that go back.

pub mod buffer;
pub mod config;
pub mod error;
pub mod laws;
pub mod session;
pub mod store;
pub mod tasks;
pub mod text;
