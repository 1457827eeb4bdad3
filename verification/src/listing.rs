//! The records that flow through a check: a listing as found in a document, and a
//! listing paired with its canonical text.

use vstd::prelude::*;

verus! {

/// A code block of a document together with the link that follows it.
#[derive(Debug, PartialEq, Eq)]
pub struct Listing {
    /// The text of the link.
    pub title: String,
    /// The body of the code block, as the document has it.
    pub local: String,
    /// The target of the link: where the canonical text lives.
    pub url: String,
}

/// What a [`Listing`] holds, as sequences of characters.
pub struct ListingView {
    pub title: Seq<char>,
    pub local: Seq<char>,
    pub url: Seq<char>,
}

impl View for Listing {
    type V = ListingView;

    open spec fn view(&self) -> ListingView {
        ListingView { title: self.title@, local: self.local@, url: self.url@ }
    }
}

impl DeepView for Listing {
    type V = ListingView;

    open spec fn deep_view(&self) -> ListingView {
        self@
    }
}

/// A listing together with the canonical text that was fetched for it.
#[derive(Debug, PartialEq, Eq)]
pub struct CheckedListing {
    /// The text of the link.
    pub title: String,
    /// The body of the code block, as the document has it.
    pub local: String,
    /// The canonical text, exactly as it was received.
    pub remote: String,
    /// The target of the link.
    pub url: String,
}

/// What a [`CheckedListing`] holds, as sequences of characters.
pub struct CheckedListingView {
    pub title: Seq<char>,
    pub local: Seq<char>,
    pub remote: Seq<char>,
    pub url: Seq<char>,
}

impl View for CheckedListing {
    type V = CheckedListingView;

    open spec fn view(&self) -> CheckedListingView {
        CheckedListingView {
            title: self.title@,
            local: self.local@,
            remote: self.remote@,
            url: self.url@,
        }
    }
}

} // verus!
