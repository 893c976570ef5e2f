//! A store for short-lived image files.
//!
//! Images arrive as base64 text, are written under a fresh name into the
//! `temp` directory below the application's data directory, and are removed
//! again one at a time or all at once.
//!
//! The crate decides; it never touches the file system itself. Each
//! operation is a session that asks its caller for one file-system action at
//! a time and is told how that action went. What is decoded, which file is
//! named, which entries are removed and which error is reported are all
//! fixed here, with contracts that Verus checks.

pub mod cleanup;
pub mod clear;
pub mod clear_laws;
pub mod error;
pub mod image_path;
pub mod naming;
pub mod payload;
pub mod save;
pub mod save_laws;

pub use error::StoreError;
pub use image_path::ImagePath;
