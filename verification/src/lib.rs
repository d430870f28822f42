//! Password-protected document container for an exam-management dataset.
//!
//! The `storage` module defines the binary layout of a saved document, the
//! password check that guards it and the pipeline that compresses and
//! encrypts its payload. The `models` module holds the records a document
//! is made of, `ctx` the state of a running application, `ipc` what its
//! commands take and give together with the import of examinees from a
//! spreadsheet, `data` a document seen as a source of examinees, and
//! `event` the events the application emits.

pub mod ctx;
pub mod data;
pub mod event;
pub mod ipc;
pub mod models;
pub mod storage;
