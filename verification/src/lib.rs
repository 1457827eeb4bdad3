//! Checks code listings embedded in documents against their canonical sources.
//!
//! A listing is a fenced code block directly followed by a link to the place where the
//! code really lives. A check runs in three steps:
//!
//! 1. [`listings`] finds the listings of a document;
//! 2. the caller requests [`Listing::raw_url`] and hands the answer to
//!    [`Listing::check`], which gives a [`CheckedListing`] or says why there is none;
//! 3. [`diff`] decides whether the listing is up to date with the canonical text, and
//!    renders a unified diff when it is not.
//!
//! The library makes no request and reads no file itself.

pub mod compare;
pub mod extract;
pub mod fetch;
pub mod indent;
pub mod listing;
pub mod text;

pub use crate::compare::diff;
pub use crate::extract::listings;
pub use crate::fetch::{FetchError, Fetched};
pub use crate::indent::indent;
pub use crate::listing::{CheckedListing, Listing};
