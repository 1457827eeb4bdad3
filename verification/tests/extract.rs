use up2code::extract::{listings_from_captures, listings_from_search, Captured, PatternRejected};
use up2code::{listings, Listing};

fn found_in(text: &str) -> Vec<Listing> {
    match listings(text) {
        Ok(found) => found,
        Err(_) => panic!("the listing pattern must compile"),
    }
}

fn listing(title: &str, local: &str, url: &str) -> Listing {
    Listing { title: String::from(title), local: String::from(local), url: String::from(url) }
}

#[test]
fn two_listings_come_out_in_document_order() {
    let text = "Intro\n\n```rust\nfn one() {}\n```\n([Listing `one`](https://example.com/one.rs))\n\nMore\n\n```\nline a\nline b\n```\n([Listing `two`](https://example.com/two.rs))\n";
    let found = found_in(text);
    assert_eq!(
        found,
        vec![
            listing("Listing `one`", "fn one() {}\n", "https://example.com/one.rs"),
            listing("Listing `two`", "line a\nline b\n", "https://example.com/two.rs"),
        ]
    );
}

#[test]
fn text_without_listings_has_none() {
    assert_eq!(found_in(""), vec![]);
    assert_eq!(found_in("Just a paragraph.\n\nAnd [a link](https://example.com).\n"), vec![]);
}

#[test]
fn fenced_block_without_link_is_ignored() {
    let text = "```rust\nfn main() {}\n```\n\nNo link follows.\n";
    assert_eq!(found_in(text), vec![]);
}

#[test]
fn link_must_follow_the_fence_directly() {
    let text = "```rust\nfn main() {}\n```\n\n([Listing](https://example.com/main.rs))\n";
    assert_eq!(found_in(text), vec![]);
}

#[test]
fn code_block_without_lines_is_skipped() {
    let text = "```rust\n```\n([Listing `empty`](https://example.com/empty.rs))\n";
    assert_eq!(found_in(text), vec![]);
}

#[test]
fn unlinked_block_does_not_disturb_the_next_listing() {
    let text = "```\nplain\n```\n\ntext\n\n```rust\nfn two() {}\n```\n([two](https://example.com/two.rs))\n";
    assert_eq!(found_in(text), vec![listing("two", "fn two() {}\n", "https://example.com/two.rs")]);
}

#[test]
fn fence_must_start_a_line() {
    let text = "x```rust\nfn main() {}\n```\n([Listing](https://example.com/main.rs))\n";
    assert_eq!(found_in(text), vec![]);
}

#[test]
fn language_tag_is_not_part_of_the_code() {
    let text = "```rust,ignore\nlet x = 1;\n```\n([x](u))";
    assert_eq!(found_in(text), vec![listing("x", "let x = 1;\n", "u")]);
}

#[test]
fn captures_with_all_groups_become_listings() {
    let captures: Vec<Captured> = vec![
        (Some(String::from("code 1\n")), Some(String::from("first")), Some(String::from("u1"))),
        (Some(String::from("code 2\n")), Some(String::from("second")), Some(String::from("u2"))),
    ];
    assert_eq!(
        listings_from_captures(captures),
        vec![listing("first", "code 1\n", "u1"), listing("second", "code 2\n", "u2")]
    );
}

#[test]
fn captures_with_a_missing_group_are_passed_over() {
    let captures: Vec<Captured> = vec![
        (None, Some(String::from("no code")), Some(String::from("u0"))),
        (Some(String::from("kept\n")), Some(String::from("kept")), Some(String::from("u1"))),
        (Some(String::from("c\n")), None, Some(String::from("u2"))),
        (Some(String::from("c\n")), Some(String::from("no link")), None),
        (None, None, None),
    ];
    assert_eq!(listings_from_captures(captures), vec![listing("kept", "kept\n", "u1")]);
}

#[test]
fn no_captures_give_no_listings() {
    assert_eq!(listings_from_captures(Vec::new()), vec![]);
}

#[test]
fn a_search_that_found_captures_gives_their_listings() {
    let captures: Vec<Captured> = vec![
        (None, Some(String::from("skipped")), Some(String::from("u0"))),
        (Some(String::from("code\n")), Some(String::from("kept")), Some(String::from("u1"))),
    ];
    assert_eq!(listings_from_search(Ok(captures)), Ok(vec![listing("kept", "code\n", "u1")]));
    assert_eq!(listings_from_search(Ok(Vec::new())), Ok(vec![]));
}

#[test]
fn a_refused_pattern_gives_no_listings_but_an_error() {
    let refusal = match regex::Regex::new("(") {
        Ok(_) => panic!("an unclosed group is no pattern"),
        Err(refusal) => refusal,
    };
    assert_eq!(listings_from_search(Err(refusal)), Err(PatternRejected));
}

#[test]
fn malformed_text_is_no_error() {
    for text in [
        "```rust\nfn open() {\n",
        "```\n",
        "text\n```\nmore text\n",
        "([Listing](https://example.com/main.rs))\n",
        "```rust\ncode\n```\n([title without end\n",
        "```rust\ncode\n```\n([title](link without end\n",
    ] {
        assert_eq!(listings(text), Ok(vec![]));
    }
}
