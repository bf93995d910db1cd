//! A collector for browser Content-Security-Policy violation reports: which reports it takes,
//! what it answers, and the structured log entries that it writes of them.
//!
//! The HTTP server around it serves the routes of the [`app`]. It turns a report into the
//! arguments of [`App::receive_csp_report`], sends the status that comes back and prints the
//! [`log_line`] of the entry that comes with it.

pub mod content_type;
pub mod entry;
pub mod headers;
pub mod json;
pub mod report;
pub mod request_log;
pub mod server;
pub mod text;
pub mod trace;

pub use content_type::is_accepted_content_type;
pub use entry::log_line;
pub use report::{accepted_report, handle_csp_report, rejected_report, Reply, Status};
pub use request_log::build_http_request_log;
pub use server::{app, configure, health, listening_entry, shutdown_entry, App, Config};
pub use trace::{extract_trace, set_trace};
