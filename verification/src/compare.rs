//! Deciding whether a listing is up to date, and showing the difference when it is not.
//!
//! A listing is up to date when the canonical text contains it, either as it stands or
//! with its lines indented by four spaces or by a tab. Otherwise the two texts are
//! compared line by line with the `similar` crate and the result is rendered as a
//! unified diff.

use crate::indent::{indent_chars, indented};
use crate::text::{chars_of, contains, contains_chars, lemma_contains_itself};
use similar::TextDiff;
use vstd::prelude::*;

verus! {

/// Four spaces: the first of the two indentations under which a listing may stand in
/// its canonical text.
pub open spec fn four_spaces() -> Seq<char> {
    seq![' ', ' ', ' ', ' ']
}

/// One tab: the second of the two indentations.
pub open spec fn tab() -> Seq<char> {
    seq!['\t']
}

/// Whether `remote` contains `local`: as it stands, indented by four spaces, or
/// indented by a tab.
pub open spec fn up_to_date(local: Seq<char>, remote: Seq<char>) -> bool {
    ||| contains(remote, local)
    ||| contains(remote, indented(local, four_spaces()))
    ||| contains(remote, indented(local, tab()))
}

/// A text is up to date with itself.
pub proof fn lemma_same_text_is_up_to_date(text: Seq<char>)
    ensures
        up_to_date(text, text),
{
    lemma_contains_itself(text);
}

/// A text is up to date with its own indentation, by four spaces and by a tab alike.
pub proof fn lemma_indented_text_is_up_to_date(local: Seq<char>)
    ensures
        up_to_date(local, indented(local, four_spaces())),
        up_to_date(local, indented(local, tab())),
{
    lemma_contains_itself(indented(local, four_spaces()));
    lemma_contains_itself(indented(local, tab()));
}

/// The unified diff that the `similar` crate renders for the line-by-line comparison
/// of `local` with `remote`: hunks with three lines of context and no file header.
pub uninterp spec fn unified_diff_text(local: Seq<char>, remote: Seq<char>) -> Seq<char>;

/// Compares the two texts with `similar::TextDiff::from_lines` and renders the result
/// of `similar::TextDiff::unified_diff` in its default form.
///
/// Trusted: the result is the text that [`unified_diff_text`] names, and it is not
/// empty when the two texts differ. The lines that are compared make up the whole of
/// each text, so two different texts differ in a line, and every run of changed lines
/// is rendered as a hunk under a header.
#[verifier::external_body]
fn unified_diff(local: &str, remote: &str) -> (text: String)
    ensures
        text@ == unified_diff_text(local@, remote@),
        local@ != remote@ ==> text@.len() > 0,
{
    format!("{}", TextDiff::from_lines(local, remote).unified_diff())
}

/// Whether `remote` contains `local`: as it stands, indented by four spaces, or
/// indented by a tab.
pub fn is_up_to_date(local: &Vec<char>, remote: &Vec<char>) -> (current: bool)
    ensures
        current == up_to_date(local@, remote@),
{
    if contains_chars(remote, local) {
        return true;
    }
    let mut spaces: Vec<char> = Vec::new();
    spaces.push(' ');
    spaces.push(' ');
    spaces.push(' ');
    spaces.push(' ');
    assert(spaces@ =~= four_spaces());
    if contains_chars(remote, &indent_chars(local, &spaces)) {
        return true;
    }
    let mut one_tab: Vec<char> = Vec::new();
    one_tab.push('\t');
    assert(one_tab@ =~= tab());
    contains_chars(remote, &indent_chars(local, &one_tab))
}

/// Compares a listing with its canonical text.
///
/// Returns `None` when the listing is up to date, and otherwise the unified diff from
/// the listing to the canonical text, which is then never empty.
#[must_use]
pub fn diff(local: &str, remote: &str) -> (changes: Option<String>)
    ensures
        changes is None <==> up_to_date(local@, remote@),
        changes matches Some(text) ==> text@ == unified_diff_text(local@, remote@),
        changes matches Some(text) ==> text@.len() > 0,
        remote@ == local@ ==> changes is None,
        remote@ == indented(local@, four_spaces()) ==> changes is None,
        remote@ == indented(local@, tab()) ==> changes is None,
{
    proof {
        lemma_same_text_is_up_to_date(local@);
        lemma_indented_text_is_up_to_date(local@);
    }
    let local_chars = chars_of(local);
    let remote_chars = chars_of(remote);
    if is_up_to_date(&local_chars, &remote_chars) {
        None
    } else {
        Some(unified_diff(local, remote))
    }
}

} // verus!
