use page_assets::images::{extract_image_urls_and_alts, try_extract_image_urls_and_alts};
use url::Url;

fn base() -> Url {
    Url::parse("https://x.test/").unwrap()
}

fn pairs(html: &str, base: &Url) -> Vec<(String, String)> {
    extract_image_urls_and_alts(html, base)
        .into_iter()
        .map(|(url, alt)| (url.as_str().to_string(), alt))
        .collect()
}

fn pair(url: &str, alt: &str) -> (String, String) {
    (url.to_string(), alt.to_string())
}

#[test]
fn primary_and_lazy_sources_both_count() {
    let found = pairs("<img src=\"/a.png\" alt=\"A\"><img data-src=\"b.jpg\">", &base());
    assert_eq!(
        found,
        vec![pair("https://x.test/a.png", "A"), pair("https://x.test/b.jpg", "")]
    );
}

#[test]
fn primary_source_wins_over_lazy_source() {
    let found = pairs("<img src=\"one.png\" data-src=\"two.png\">", &base());
    assert_eq!(found, vec![pair("https://x.test/one.png", "")]);
}

#[test]
fn image_without_any_source_is_skipped() {
    let found = pairs(
        "<img src=\"a.png\"><img alt=\"nothing to load\"><img src=\"c.png\">",
        &base(),
    );
    assert_eq!(
        found,
        vec![pair("https://x.test/a.png", ""), pair("https://x.test/c.png", "")]
    );
}

#[test]
fn image_with_a_malformed_source_is_skipped() {
    let found = pairs(
        "<img src=\"a.png\" alt=\"first\"><img src=\"http://[broken/x.png\" alt=\"bad\"><img src=\"c.png\" alt=\"third\">",
        &base(),
    );
    assert_eq!(
        found,
        vec![pair("https://x.test/a.png", "first"), pair("https://x.test/c.png", "third")]
    );
}

#[test]
fn malformed_primary_source_does_not_fall_back() {
    let found = pairs("<img src=\"http://[broken\" data-src=\"ok.png\">", &base());
    assert_eq!(found, Vec::<(String, String)>::new());
}

#[test]
fn the_same_image_twice_gives_two_entries() {
    let found = pairs("<p><img src=\"a.png\"></p><div><img src=\"a.png\"></div>", &base());
    assert_eq!(
        found,
        vec![pair("https://x.test/a.png", ""), pair("https://x.test/a.png", "")]
    );
}

#[test]
fn sources_resolve_against_the_directory_of_the_base() {
    let base = Url::parse("https://x.test/shop/list.html?page=2").unwrap();
    let found = pairs(
        "<img src=\"thumb.png\"><img src=\"../logo.svg\"><img src=\"//cdn.test/i.gif\"><img src=\"http://other.test/p.jpg\">",
        &base,
    );
    assert_eq!(
        found,
        vec![
            pair("https://x.test/shop/thumb.png", ""),
            pair("https://x.test/logo.svg", ""),
            pair("https://cdn.test/i.gif", ""),
            pair("http://other.test/p.jpg", ""),
        ]
    );
}

#[test]
fn an_empty_source_resolves_to_the_base_itself() {
    let found = pairs("<img src=\"\" alt=\"self\">", &base());
    assert_eq!(found, vec![pair("https://x.test/", "self")]);
}

#[test]
fn a_page_without_images_gives_nothing() {
    assert_eq!(pairs("<p>no pictures here</p>", &base()), Vec::<(String, String)>::new());
    assert_eq!(pairs("", &base()), Vec::<(String, String)>::new());
}

#[test]
fn other_elements_with_a_source_are_not_images() {
    let found = pairs("<script src=\"a.js\"></script><img src=\"a.png\"><iframe src=\"f.html\"></iframe>", &base());
    assert_eq!(found, vec![pair("https://x.test/a.png", "")]);
}

#[test]
fn the_checked_entry_point_finds_the_same_images() {
    let html = "<img src=\"/a.png\" alt=\"A\"><img><img data-src=\"b.jpg\">";
    let checked = try_extract_image_urls_and_alts(html, &base()).expect("img is a selector");
    let plain = extract_image_urls_and_alts(html, &base());
    assert_eq!(checked, plain);
    assert_eq!(checked.len(), 2);
}
