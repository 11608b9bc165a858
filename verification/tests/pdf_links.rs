use page_assets::pdf_links::{extract_pdf_links, PdfLinks};
use url::Url;

fn base() -> Url {
    Url::parse("https://x.test/docs/index.html").unwrap()
}

fn links(body: &str) -> Option<Vec<String>> {
    extract_pdf_links(body, &base()).map(PdfLinks::into_links)
}

fn list(items: &[&str]) -> Option<Vec<String>> {
    Some(items.iter().map(|item| item.to_string()).collect())
}

#[test]
fn no_pdf_anchor_gives_none() {
    assert_eq!(links("<a href=\"page.html\">a page</a><p>text</p>"), None);
    assert_eq!(links(""), None);
    assert!(extract_pdf_links("<a name=\"top\"></a>", &base()).is_none());
}

#[test]
fn relative_targets_are_resolved_against_the_base() {
    assert_eq!(
        links("<a href=\"a.pdf\">A</a><a href=\"/root.pdf\">R</a><a href=\"../up.pdf\">U</a>"),
        list(&[
            "https://x.test/docs/a.pdf",
            "https://x.test/root.pdf",
            "https://x.test/up.pdf",
        ])
    );
}

#[test]
fn an_absolute_target_keeps_its_own_host() {
    assert_eq!(
        links("<a href=\"https://other.test/files/b.pdf\">B</a>"),
        list(&["https://other.test/files/b.pdf"])
    );
}

#[test]
fn an_absolute_target_comes_back_as_the_parsed_address() {
    assert_eq!(
        links("<a href=\"HTTPS://Other.TEST/Files/b.pdf\">B</a>"),
        list(&["https://other.test/Files/b.pdf"])
    );
}

#[test]
fn only_targets_that_end_in_the_suffix_are_taken() {
    assert_eq!(
        links("<a href=\"a.pdf\">A</a><a href=\"a.pdf?download=1\">Q</a><a href=\"notes.txt\">N</a><a href=\"b.pdf\">B</a>"),
        list(&["https://x.test/docs/a.pdf", "https://x.test/docs/b.pdf"])
    );
}

#[test]
fn a_target_that_is_no_address_either_way_is_left_out() {
    assert_eq!(
        links("<a href=\"http://[broken/a.pdf\">X</a><a href=\"ok.pdf\">O</a>"),
        list(&["https://x.test/docs/ok.pdf"])
    );
    assert_eq!(links("<a href=\"http://[broken/a.pdf\">X</a>"), None);
}

#[test]
fn the_same_target_twice_is_kept_twice() {
    assert_eq!(
        links("<a href=\"a.pdf\">1</a><a href=\"a.pdf\">2</a>"),
        list(&["https://x.test/docs/a.pdf", "https://x.test/docs/a.pdf"])
    );
}

#[test]
fn only_anchors_are_looked_at() {
    assert_eq!(links("<link href=\"style.pdf\"><area href=\"map.pdf\">"), None);
}

#[test]
fn links_keep_what_they_were_made_of() {
    let made = PdfLinks::new(vec!["https://x.test/a.pdf".to_string(), "https://x.test/b.pdf".to_string()]);
    assert_eq!(made.links().len(), 2);
    assert_eq!(made.links()[1], "https://x.test/b.pdf");
    let copy = made.clone();
    assert_eq!(copy.into_links(), vec!["https://x.test/a.pdf".to_string(), "https://x.test/b.pdf".to_string()]);
}
