//! Finding the listings of a document.
//!
//! A listing is a fenced code block directly followed by a parenthesised link. The
//! shape is written down once, as a regular expression, and the `regex` crate does the
//! matching; everything after the match is decided here.

use crate::listing::{Listing, ListingView};
use regex::Regex;
use vstd::prelude::*;

verus! {

/// The shape of a listing, as a regular expression. In order:
///
/// - at the start of a line, three backticks and the rest of that line, which may hold
///   a language tag;
/// - `code`: the lines of the block, one at least, with no backtick in them;
/// - a line of three backticks;
/// - directly after it `([`, then `title`, then `](`, then `link`, which stays on one
///   line, then `)`.
///
/// A block without lines still matches, with nothing captured as `code`.
pub const LISTING_PATTERN: &'static str =
    r"(?m)^```.*?\n(?<code>[^`]+?\n)?```\n\(\[(?<title>[\s\S]+?)\]\((?<link>.*?)\)";

/// The name of the group that captures the body of the code block.
pub const CODE_GROUP: &'static str = "code";

/// The name of the group that captures the text of the link.
pub const TITLE_GROUP: &'static str = "title";

/// The name of the group that captures the target of the link.
pub const LINK_GROUP: &'static str = "link";

/// `regex::Error`, the reason for which a pattern was refused. Nothing is read from it.
#[verifier::external_type_specification]
#[verifier::external_body]
pub struct ExRegexError(regex::Error);

/// What three named groups captured in one match, in the order in which the names were
/// given. A group that took no part in the match is `None`.
pub type Captured = (Option<String>, Option<String>, Option<String>);

/// A [`Captured`] as sequences of characters.
pub type CapturedView = (Option<Seq<char>>, Option<Seq<char>>, Option<Seq<char>>);

/// Whether `regex::Regex::new` accepts `pattern`: the pattern is well formed, and its
/// compiled form stays within the size limit that the engine sets by default.
pub uninterp spec fn pattern_accepted(pattern: Seq<char>) -> bool;

/// The captures of the groups named `first`, `second` and `third` in the successive
/// non-overlapping matches of `pattern` in `text`, as the `regex` crate finds them.
pub uninterp spec fn named_captures(
    pattern: Seq<char>,
    first: Seq<char>,
    second: Seq<char>,
    third: Seq<char>,
    text: Seq<char>,
) -> Seq<CapturedView>;

/// Compiles `pattern` with `regex::Regex::new`, walks `regex::Regex::captures_iter`
/// over `text` and reads three groups of every match with `regex::Captures::name` and
/// `regex::Match::as_str`.
///
/// Trusted: the result is `Ok` for exactly the patterns that `Regex::new` accepts,
/// whatever the text, and it is then the sequence that [`named_captures`] names.
#[verifier::external_body]
fn find_captures(pattern: &str, first: &str, second: &str, third: &str, text: &str) -> (found:
    Result<Vec<Captured>, regex::Error>)
    ensures
        found is Ok <==> pattern_accepted(pattern@),
        found matches Ok(captures) ==> captures.deep_view() == named_captures(
            pattern@,
            first@,
            second@,
            third@,
            text@,
        ),
{
    let compiled = Regex::new(pattern)?;
    Ok(
        compiled.captures_iter(text).map(
            |m|
                (
                    m.name(first).map(|g| String::from(g.as_str())),
                    m.name(second).map(|g| String::from(g.as_str())),
                    m.name(third).map(|g| String::from(g.as_str())),
                ),
        ).collect(),
    )
}

/// The listing that one capture of (code, title, link) stands for: none unless all
/// three groups took part in the match.
pub open spec fn listing_of(capture: CapturedView) -> Option<ListingView> {
    match capture {
        (Some(code), Some(title), Some(link)) => Some(
            ListingView { title: title, local: code, url: link },
        ),
        _ => None,
    }
}

/// The listings that a sequence of captures stands for, in the order of the captures.
pub open spec fn listings_of(captures: Seq<CapturedView>) -> Seq<ListingView> {
    captures.filter_map(|capture: CapturedView| listing_of(capture))
}

/// Every listing comes from a capture of its own: there are never more listings than
/// captures, and so none where nothing was captured.
pub proof fn lemma_listings_bounded(captures: Seq<CapturedView>)
    ensures
        listings_of(captures).len() <= captures.len(),
    decreases captures.len(),
{
    if captures.len() > 0 {
        lemma_listings_bounded(captures.drop_last());
    }
}

/// The captures of code, title and link in the successive matches of the listing
/// pattern in `text`.
pub open spec fn listing_captures(text: Seq<char>) -> Seq<CapturedView> {
    named_captures(LISTING_PATTERN@, CODE_GROUP@, TITLE_GROUP@, LINK_GROUP@, text)
}

/// Turns the captures of (code, title, link) into listings, keeping their order and
/// passing over every capture in which one of the three groups is missing.
pub fn listings_from_captures(captures: Vec<Captured>) -> (found: Vec<Listing>)
    ensures
        found.deep_view() == listings_of(captures.deep_view()),
        captures.len() == 0 ==> found.len() == 0,
{
    proof {
        lemma_listings_bounded(captures.deep_view());
    }
    let ghost all = captures.deep_view();
    let mut found: Vec<Listing> = Vec::new();
    for capture in it: captures
        invariant
            it.seq().len() == all.len(),
            forall|i: int| 0 <= i < all.len() ==> (#[trigger] it.seq()[i]).deep_view() == all[i],
            found.deep_view() == listings_of(all.take(it.index())),
    {
        proof {
            all.lemma_filter_map_take_succ(|c: CapturedView| listing_of(c), it.index());
        }
        let ghost before = found.deep_view();
        match capture {
            (Some(code), Some(title), Some(link)) => {
                found.push(Listing { title: title, local: code, url: link });
                assert(found.deep_view() =~= before.push(listing_of(all[it.index()])->0));
            },
            _ => {},
        }
    }
    assert(all.take(all.len() as int) =~= all);
    found
}

/// The regex engine refused to compile the listing pattern.
#[derive(Debug, PartialEq, Eq)]
pub struct PatternRejected;

/// The listings of a document, in their order of appearance.
///
/// Every match of the listing pattern in which the code, the title and the link were
/// all captured gives one listing; a match without one of them (a code block with no
/// lines) gives none. A text without any match has no listings.
///
/// Whether the result is `Ok` does not depend on the text: it is `Ok` for every text
/// where the regex engine accepts [`LISTING_PATTERN`], and [`PatternRejected`] for every
/// text where it does not.
pub fn listings(text: &str) -> (found: Result<Vec<Listing>, PatternRejected>)
    ensures
        found is Ok <==> pattern_accepted(LISTING_PATTERN@),
        found matches Ok(listings) ==> listings.deep_view() == listings_of(
            listing_captures(text@),
        ),
        found matches Ok(listings) ==> (listing_captures(text@).len() == 0 ==> listings.len()
            == 0),
{
    let outcome = find_captures(LISTING_PATTERN, CODE_GROUP, TITLE_GROUP, LINK_GROUP, text);
    proof {
        if outcome is Ok {
            lemma_listings_bounded(outcome->Ok_0.deep_view());
        }
    }
    listings_from_search(outcome)
}

/// What a search for listings comes to, for either way in which the regex engine may
/// answer: captures become listings as [`listings_from_captures`] makes them, and a
/// refused pattern becomes [`PatternRejected`].
pub fn listings_from_search(outcome: Result<Vec<Captured>, regex::Error>) -> (found: Result<
    Vec<Listing>,
    PatternRejected,
>)
    ensures
        found is Ok <==> outcome is Ok,
        outcome matches Ok(captures) ==> (found matches Ok(listings) && listings.deep_view()
            == listings_of(captures.deep_view())),
{
    match outcome {
        Ok(captures) => Ok(listings_from_captures(captures)),
        Err(_) => Err(PatternRejected),
    }
}

} // verus!
