use pi_natives::errors::ErrorKind;
use pi_natives::html::{html_to_markdown, HtmlToMarkdownOptions};

const PAGE: &str = "<html><body>\
    <nav><a href=\"/archive\">Old Posts Archive</a></nav>\
    <h1>Trip Report</h1>\
    <p>We reached the summit at noon.</p>\
    <img src=\"summit.png\" alt=\"summit photo\">\
    </body></html>";

#[test]
fn converts_heading_to_markdown() {
    let out = html_to_markdown("<h1>Hello World</h1>".to_string(), None).unwrap();
    assert!(out.contains("Hello World"));
    assert!(!out.contains("<h1>"));
}

#[test]
fn defaults_keep_navigation_and_images() {
    let out = html_to_markdown(PAGE.to_string(), None).unwrap();
    assert!(out.contains("Old Posts Archive"));
    assert!(out.contains("summit"));
}

#[test]
fn absent_options_equal_disabled_toggles() {
    let none_out = html_to_markdown(PAGE.to_string(), None).unwrap();
    let default_out = html_to_markdown(
        PAGE.to_string(),
        Some(HtmlToMarkdownOptions::default()),
    )
    .unwrap();
    let explicit_out = html_to_markdown(
        PAGE.to_string(),
        Some(HtmlToMarkdownOptions { clean_content: Some(false), skip_images: Some(false) }),
    )
    .unwrap();
    assert_eq!(none_out, default_out);
    assert_eq!(none_out, explicit_out);
}

#[test]
fn clean_content_removes_navigation() {
    let out = html_to_markdown(
        PAGE.to_string(),
        Some(HtmlToMarkdownOptions { clean_content: Some(true), skip_images: None }),
    )
    .unwrap();
    assert!(!out.contains("Old Posts Archive"));
    assert!(out.contains("Trip Report"));
}

#[test]
fn skip_images_removes_image_references() {
    let out = html_to_markdown(
        PAGE.to_string(),
        Some(HtmlToMarkdownOptions { clean_content: Some(false), skip_images: Some(true) }),
    )
    .unwrap();
    assert!(!out.contains("summit.png"));
    assert!(!out.contains("!["));
    assert!(out.contains("We reached the summit at noon."));
}

#[test]
fn skip_images_is_independent_of_clean_content() {
    let out = html_to_markdown(
        PAGE.to_string(),
        Some(HtmlToMarkdownOptions { clean_content: Some(true), skip_images: Some(true) }),
    )
    .unwrap();
    assert!(!out.contains("summit.png"));
    assert!(!out.contains("!["));
    assert!(!out.contains("Old Posts Archive"));
}

#[test]
fn binary_input_is_conversion_failure() {
    let err = html_to_markdown("%PDF-1.7 not html at all".to_string(), None).unwrap_err();
    assert_eq!(err.kind(), ErrorKind::ConversionFailed);
    assert!(!err.message.is_empty());
}
