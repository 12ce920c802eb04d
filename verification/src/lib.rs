//! Session store and tool logic for an HWPX editing server.
//!
//! The document engine itself stays outside this crate; what is here is the
//! bookkeeping of open documents, the request checks and defaults, and the
//! reports that are computed from a plain snapshot of a document.

pub mod decimal;
pub mod doc_id;
pub mod error;
pub mod store;
pub mod params;
pub mod text;
pub mod model;
pub mod report;
pub mod forms;
pub mod laws;
