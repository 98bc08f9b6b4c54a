//! A content-addressed dataset repository.
//!
//! A file is stored under the fingerprint of its bytes, next to a
//! description record kept under the same fingerprint:
//!
//! ```text
//! <root>/
//!   data/<fingerprint>          the file, as it was
//!   description/<fingerprint>   text about it, written by the operator
//! ```
//!
//! The library decides and computes; it touches no file itself. The work of
//! adding a dataset (`add`) and of scanning the descriptions (`scan`) is a
//! workflow each: it names the next action, a driver carries the action out
//! and answers with an event, and the workflow moves on (`protocol`). Beside
//! them stand the parts that they are made of: fingerprints (`fingerprint`),
//! paths (`layout`), the text of a new record (`description`) and substring
//! search (`search`).

pub mod add;
pub mod description;
pub mod fingerprint;
pub mod layout;
pub mod protocol;
pub mod scan;
pub mod search;
