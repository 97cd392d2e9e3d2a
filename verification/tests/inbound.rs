use velo::{load_from_url, InboundError};

#[test]
fn a_single_link_in_the_document_parameter_is_fetched() {
    let found = load_from_url("https://app.example/?document=https%3A%2F%2Fhost.example%2Fdoc.json");
    assert_eq!(found, Ok(Some("https://host.example/doc.json".to_string())));
}

#[test]
fn a_link_is_found_within_other_text() {
    let found = load_from_url("https://app.example/?document=see+https://host.example/doc.json+now");
    assert_eq!(found, Ok(Some("https://host.example/doc.json".to_string())));
}

#[test]
fn several_links_are_ignored() {
    let found = load_from_url(
        "https://app.example/?document=https://a.example/x.json%20https://b.example/y.json",
    );
    assert_eq!(found, Ok(None));
}

#[test]
fn a_parameter_without_a_link_is_ignored() {
    assert_eq!(load_from_url("https://app.example/?document=notes"), Ok(None));
    assert_eq!(load_from_url("https://app.example/?document="), Ok(None));
    assert_eq!(load_from_url("https://app.example/?document=mail@host.example"), Ok(None));
}

#[test]
fn an_address_without_the_parameter_is_ignored() {
    assert_eq!(load_from_url("https://app.example/"), Ok(None));
    assert_eq!(load_from_url("https://app.example/?doc=https://host.example/doc.json"), Ok(None));
    assert_eq!(
        load_from_url("https://app.example/#document=https://host.example/doc.json"),
        Ok(None)
    );
}

#[test]
fn the_last_document_parameter_counts() {
    let found = load_from_url(
        "https://app.example/?document=https://a.example/x.json&theme=dark&document=https://b.example/y.json",
    );
    assert_eq!(found, Ok(Some("https://b.example/y.json".to_string())));
    let found = load_from_url("https://app.example/?document=https://a.example/x.json&document=none");
    assert_eq!(found, Ok(None));
}

#[test]
fn an_address_that_does_not_parse_is_an_error() {
    assert_eq!(load_from_url("not an address"), Err(InboundError::InvalidAddress));
    assert_eq!(load_from_url(""), Err(InboundError::InvalidAddress));
}
