//! Pairing a listing with its canonical text.
//!
//! The request itself is made by the caller. This module says which address to ask
//! for, and what follows from the answer: a checked listing, or one of two errors that
//! tell a failed request from a response with a bad status.

use crate::listing::{CheckedListing, CheckedListingView, Listing};
use vstd::prelude::*;
use vstd::string::StringExecFns;

verus! {

/// What is put behind a listing's address to ask for the text as it is stored, not as
/// a page that shows it.
pub const RAW_SUFFIX: &'static str = "?raw=true";

/// The address to request for a listing whose link points at `url`.
pub open spec fn raw_url_of(url: Seq<char>) -> Seq<char> {
    url + RAW_SUFFIX@
}

/// Whether `status` is one of the success codes of HTTP, 200 to 299.
pub open spec fn is_success(status: u16) -> bool {
    200 <= status <= 299
}

/// The answer to one request for a canonical text.
#[derive(Debug, PartialEq, Eq)]
pub enum Fetched {
    /// The request failed before any response arrived.
    NoResponse,
    /// A response arrived with this status code. `body` is its body as text, or `None`
    /// when the body could not be read to its end.
    Response { status: u16, body: Option<String> },
}

/// Why no canonical text could be had for a listing.
#[derive(Debug, PartialEq, Eq)]
pub enum FetchError {
    /// The request to `url` failed: no response arrived, or its body could not be read.
    Request { url: String },
    /// The request to `url` was answered with `status`, which is not a success code.
    Status { url: String, status: u16 },
}

impl Listing {
    /// The address to request for this listing: its link with [`RAW_SUFFIX`] behind it.
    pub fn raw_url(&self) -> (address: String)
        ensures
            address@ == raw_url_of(self.url@),
    {
        let mut address = self.url.clone();
        address.append(RAW_SUFFIX);
        address
    }

    /// Pairs the listing with the canonical text in `fetched`, the answer to a request
    /// for [`Listing::raw_url`].
    ///
    /// A response with a success status and a readable body gives the checked listing,
    /// with the body as its canonical text, unchanged. A response with any other status
    /// gives [`FetchError::Status`], whatever its body. A request without a response,
    /// or with a body that could not be read, gives [`FetchError::Request`]. Both
    /// errors carry the address that was requested.
    pub fn check(self, fetched: Fetched) -> (checked: Result<CheckedListing, FetchError>)
        ensures
            fetched is NoResponse ==> (checked matches Err(FetchError::Request { url })
                && url@ == raw_url_of(self.url@)),
            fetched matches Fetched::Response { status, body } ==> if !is_success(status) {
                checked matches Err(FetchError::Status { url, status: refused }) && refused
                    == status && url@ == raw_url_of(self.url@)
            } else {
                match body {
                    Some(text) => checked matches Ok(listing) && listing@ == (
                    CheckedListingView {
                        title: self.title@,
                        local: self.local@,
                        remote: text@,
                        url: self.url@,
                    }),
                    None => checked matches Err(FetchError::Request { url }) && url@
                        == raw_url_of(self.url@),
                }
            },
    {
        match fetched {
            Fetched::NoResponse => Err(FetchError::Request { url: self.raw_url() }),
            Fetched::Response { status, body } => {
                if status < 200 || status > 299 {
                    Err(FetchError::Status { url: self.raw_url(), status: status })
                } else {
                    match body {
                        Some(text) => Ok(
                            CheckedListing {
                                title: self.title,
                                local: self.local,
                                remote: text,
                                url: self.url,
                            },
                        ),
                        None => Err(FetchError::Request { url: self.raw_url() }),
                    }
                }
            },
        }
    }
}

} // verus!
