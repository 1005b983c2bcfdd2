//! Composition and delivery workflow of a mailer for HTML reports. The
//! crate decides what is sent and what is logged; reading files, talking
//! to the mail server and appending to the log are left to the caller.

pub mod address;
pub mod log;
pub mod message;
pub mod report;
pub mod request;
pub mod stamp;
pub mod workflow;
