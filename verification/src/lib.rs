//! A filesystem whose tree, names and attributes live in a relational store.
//!
//! The crate holds the node identity and naming model: inode allocation, the
//! metadata and naming records, the statements that read and write them, the
//! schema bootstrap, and the replies to the calls of the kernel.

pub mod bits;
pub mod text;
pub mod file_type;
pub mod object_type;
pub mod node_type;
pub mod sql;
pub mod errors;
pub mod allocator;
pub mod ids;
pub mod clock;
pub mod node_name;
pub mod node_record;
pub mod schema_sql;
pub mod schema;
pub mod dir_entries;
pub mod startup;
pub mod datavir_fs;
pub mod content;
pub mod files;
pub mod bundle;
