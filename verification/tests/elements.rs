use page_assets::images::{resolve_image, resolve_images};
use page_assets::pdf_links::{resolve_pdf_link, resolve_pdf_links};
use scraper::{ElementRef, Html, Selector};
use url::Url;

fn base() -> Url {
    Url::parse("https://x.test/a/b.html").unwrap()
}

fn all<'a>(document: &'a Html, pattern: &str) -> Vec<ElementRef<'a>> {
    let selector = Selector::parse(pattern).unwrap();
    document.select(&selector).collect()
}

#[test]
fn one_image_element_gives_its_address_and_text() {
    let document = Html::parse_fragment("<img src=\"pic.png\" alt=\"a picture\" data-src=\"lazy.png\">");
    let images = all(&document, "img");
    let (url, alt) = resolve_image(&images[0], &base()).unwrap();
    assert_eq!(url.as_str(), "https://x.test/a/pic.png");
    assert_eq!(alt, "a picture");
}

#[test]
fn one_image_element_without_a_source_gives_nothing() {
    let document = Html::parse_fragment("<img alt=\"a picture\" srcset=\"pic.png 2x\">");
    let images = all(&document, "img");
    assert_eq!(resolve_image(&images[0], &base()), None);
}

#[test]
fn image_elements_are_taken_in_the_order_given() {
    let document = Html::parse_fragment("<img src=\"1.png\"><img data-src=\"2.png\"><img src=\"3.png\">");
    let mut images = all(&document, "img");
    images.reverse();
    let found: Vec<String> = resolve_images(&images, &base())
        .into_iter()
        .map(|(url, _)| url.as_str().to_string())
        .collect();
    assert_eq!(
        found,
        vec!["https://x.test/a/3.png", "https://x.test/a/2.png", "https://x.test/a/1.png"]
    );
}

#[test]
fn any_element_with_a_source_can_be_resolved() {
    let document = Html::parse_fragment("<video src=\"clip.mp4\" alt=\"clip\"></video>");
    let elements = all(&document, "video");
    let found = resolve_images(&elements, &base());
    assert_eq!(found.len(), 1);
    assert_eq!(found[0].0.as_str(), "https://x.test/a/clip.mp4");
    assert_eq!(found[0].1, "clip");
}

#[test]
fn one_anchor_gives_its_address() {
    let document = Html::parse_fragment("<a href=\"paper.pdf\">paper</a><a href=\"ftp://files.test/x.pdf\">x</a><a>none</a>");
    let anchors = all(&document, "a");
    assert_eq!(resolve_pdf_link(&anchors[0], &base()), Some("https://x.test/a/paper.pdf".to_string()));
    assert_eq!(resolve_pdf_link(&anchors[1], &base()), Some("ftp://files.test/x.pdf".to_string()));
    assert_eq!(resolve_pdf_link(&anchors[2], &base()), None);
}

#[test]
fn anchors_are_taken_in_the_order_given() {
    let document = Html::parse_fragment("<a href=\"1.pdf\">1</a><a name=\"x\">x</a><a href=\"2.pdf\">2</a>");
    let anchors = all(&document, "a");
    assert_eq!(
        resolve_pdf_links(&anchors, &base()),
        vec!["https://x.test/a/1.pdf".to_string(), "https://x.test/a/2.pdf".to_string()]
    );
    assert_eq!(resolve_pdf_links(&Vec::new(), &base()), Vec::<String>::new());
}
