use up2code::{CheckedListing, FetchError, Fetched, Listing};

fn listing() -> Listing {
    Listing {
        title: String::from("Listing `hello/1`"),
        local: String::from("fn main() {}\n"),
        url: String::from("https://github.com/bitfield/example/blob/src/main.rs"),
    }
}

const RAW: &str = "https://github.com/bitfield/example/blob/src/main.rs?raw=true";

#[test]
fn raw_url_asks_for_the_raw_text() {
    assert_eq!(listing().raw_url(), RAW);
}

#[test]
fn check_attaches_the_body_unchanged() {
    let body = String::from("  fn main() {}\r\n\n");
    let fetched = Fetched::Response { status: 200, body: Some(body) };
    assert_eq!(
        listing().check(fetched),
        Ok(CheckedListing {
            title: String::from("Listing `hello/1`"),
            local: String::from("fn main() {}\n"),
            remote: String::from("  fn main() {}\r\n\n"),
            url: String::from("https://github.com/bitfield/example/blob/src/main.rs"),
        })
    );
}

#[test]
fn check_accepts_every_success_status() {
    for status in [200u16, 204, 299] {
        let fetched = Fetched::Response { status, body: Some(String::new()) };
        assert!(listing().check(fetched).is_ok());
    }
}

#[test]
fn check_reports_a_bad_status_as_a_status_error() {
    for status in [404u16, 500, 199, 300, 304, 0, 65535] {
        let fetched = Fetched::Response { status, body: Some(String::from("Not Found")) };
        assert_eq!(
            listing().check(fetched),
            Err(FetchError::Status { url: String::from(RAW), status })
        );
    }
}

#[test]
fn check_reports_a_bad_status_even_without_a_body() {
    let fetched = Fetched::Response { status: 503, body: None };
    assert_eq!(
        listing().check(fetched),
        Err(FetchError::Status { url: String::from(RAW), status: 503 })
    );
}

#[test]
fn check_reports_a_missing_response_as_a_request_error() {
    assert_eq!(
        listing().check(Fetched::NoResponse),
        Err(FetchError::Request { url: String::from(RAW) })
    );
}

#[test]
fn check_reports_an_unreadable_body_as_a_request_error() {
    let fetched = Fetched::Response { status: 200, body: None };
    assert_eq!(listing().check(fetched), Err(FetchError::Request { url: String::from(RAW) }));
}

#[test]
fn bad_status_is_told_apart_from_differing_content() {
    let refused = listing().check(Fetched::Response { status: 404, body: Some(String::new()) });
    assert!(matches!(refused, Err(FetchError::Status { status: 404, .. })));
    let fetched = Fetched::Response { status: 200, body: Some(String::from("fn other() {}\n")) };
    let checked = match listing().check(fetched) {
        Ok(checked) => checked,
        Err(_) => panic!("a success status with a body is no error"),
    };
    assert!(up2code::diff(&checked.local, &checked.remote).is_some());
}
