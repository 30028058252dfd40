//! HTML-to-Markdown conversion.
//!
//! The converter itself is an external collaborator, consumed as a black
//! box: `convert(html, options) -> markdown | error`. This module owns the
//! option record, the defaulting of its toggles, and the classification of
//! the collaborator's failures; what the collaborator returns for given
//! inputs is named, not restated.

use vstd::prelude::*;

use crate::errors::{ErrorKind, NativeError};

verus! {

/// Options for HTML-to-Markdown conversion: two independent toggles, each
/// meaningful in isolation, each defaulting to off when absent.
#[derive(Debug)]
pub struct HtmlToMarkdownOptions {
    /// Remove structural noise — navigation elements, forms, headers,
    /// footers — with an aggressive stripping preset.
    pub clean_content: Option<bool>,
    /// Omit image references from the output entirely.
    pub skip_images: Option<bool>,
}

impl Default for HtmlToMarkdownOptions {
    /// Both toggles absent: conversion neither strips structure nor skips
    /// images.
    fn default() -> (r: Self)
        ensures
            r.clean_content is None,
            r.skip_images is None,
    {
        HtmlToMarkdownOptions { clean_content: None, skip_images: None }
    }
}

/// The content-cleaning toggle that a call with these options asks for: on
/// exactly when the record is present and sets it to on.
pub open spec fn effective_clean_content(options: Option<HtmlToMarkdownOptions>) -> bool {
    match options {
        Some(o) => match o.clean_content {
            Some(b) => b,
            None => false,
        },
        None => false,
    }
}

/// The image-skipping toggle that a call with these options asks for: on
/// exactly when the record is present and sets it to on.
pub open spec fn effective_skip_images(options: Option<HtmlToMarkdownOptions>) -> bool {
    match options {
        Some(o) => match o.skip_images {
            Some(b) => b,
            None => false,
        },
        None => false,
    }
}

/// The outcome of the collaborator's conversion for the given HTML and
/// toggles: the produced Markdown, or nothing when it reports a failure. A
/// function of these arguments alone.
pub uninterp spec fn markdown_of(html: Seq<char>, clean_content: bool, skip_images: bool) -> Option<
    Seq<char>,
>;

/// Relies on `html_to_markdown_rs::convert`: converts the HTML under the
/// given toggles — content cleaning enables the aggressive preprocessing
/// preset with navigation and form removal — reading nothing but its
/// arguments, so both success and output are a function of them alone,
/// named [`markdown_of`]. An absent content field of a successful
/// conversion comes back as the empty string, as part of the named
/// outcome.
#[verifier::external_body]
fn convert_html(html: &str, clean_content: bool, skip_images: bool) -> (r: Result<String, String>)
    ensures
        r is Ok ==> markdown_of(html@, clean_content, skip_images) is Some,
        markdown_of(html@, clean_content, skip_images) is Some ==> r is Ok,
        r is Ok ==> Some(r->Ok_0@) == markdown_of(html@, clean_content, skip_images),
{
    let preprocessing = html_to_markdown_rs::PreprocessingOptions {
        enabled: clean_content,
        preset: html_to_markdown_rs::PreprocessingPreset::Aggressive,
        remove_navigation: true,
        remove_forms: true,
    };
    let options = html_to_markdown_rs::ConversionOptions {
        skip_images,
        preprocessing,
        ..Default::default()
    };
    match html_to_markdown_rs::convert(html, Some(options)) {
        Ok(result) => Ok(result.content.unwrap_or_default()),
        Err(e) => Err(format!("Conversion error: {e}")),
    }
}

/// Converts HTML to Markdown.
///
/// Each toggle of the options defaults to off when the record, or the
/// toggle itself, is absent. Both the converter's success and its output
/// are a function of the HTML and the two effective toggles alone: the
/// call succeeds exactly when the converter produces Markdown for them,
/// and a failure it reports comes back as a conversion error carrying its
/// reason.
pub fn html_to_markdown(html: String, options: Option<HtmlToMarkdownOptions>) -> (r: Result<
    String,
    NativeError,
>)
    ensures
        r is Ok <==> markdown_of(
            html@,
            effective_clean_content(options),
            effective_skip_images(options),
        ) is Some,
        r is Ok ==> Some(r->Ok_0@) == markdown_of(
            html@,
            effective_clean_content(options),
            effective_skip_images(options),
        ),
        r is Err ==> r->Err_0.kind == ErrorKind::ConversionFailed,
{
    let clean_content: bool = match &options {
        Some(o) => match o.clean_content {
            Some(b) => b,
            None => false,
        },
        None => false,
    };
    let skip_images: bool = match &options {
        Some(o) => match o.skip_images {
            Some(b) => b,
            None => false,
        },
        None => false,
    };
    match convert_html(html.as_str(), clean_content, skip_images) {
        Ok(markdown) => Ok(markdown),
        Err(msg) => Err(NativeError::new(ErrorKind::ConversionFailed, msg)),
    }
}

} // verus!
