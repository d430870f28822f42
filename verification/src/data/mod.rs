//! A document seen as a source of examinees.

pub mod datasource;
pub mod types;
