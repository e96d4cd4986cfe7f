//! A compiler of slideshows for the terminal, and the state machine of the
//! session that shows them.
//!
//! The elements of a document are turned into slides, each an ordered list of
//! draw instructions ([`builder`], specified in [`model`]); the presenter
//! keeps the presentation that is shown and says what each command leads to
//! ([`presenter`]). What holds of every build is proved in [`laws`],
//! [`leading`] and [`opening`].
pub mod builder;
pub mod command;
pub mod elements;
pub mod error;
pub mod footer;
pub mod laws;
pub mod layout;
pub mod leading;
pub mod metadata;
pub mod model;
pub mod opening;
pub mod presentation;
pub mod presenter;
pub mod strings;
pub mod style;
pub mod text;
pub mod theme;
pub mod width;
pub mod yaml;
