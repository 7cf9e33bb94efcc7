//! Query gateway core: a read-only guard over SQL text, table resources addressed
//! by URI, a per-column-type row marshaler, the lazy connection slot, and the
//! method dispatcher that ties them together.

pub mod text;
pub mod error;
pub mod guard;
pub mod catalog;
pub mod marshal;
pub mod connection;
pub mod dispatch;
