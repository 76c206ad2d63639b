//! Primitive types of a music library and the row encodings of its database.

pub mod database;
pub mod db2;
pub mod prim;
pub mod sql;
pub mod text;
