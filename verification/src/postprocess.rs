use vstd::prelude::*;

use crate::error::PostProcessError;

verus! {

/// What CSS inlining yields for an HTML document: the self-contained
/// document, or nothing when the inliner rejects the input. With remote
/// and file stylesheet loading disabled the outcome is a function of the
/// markup alone.
pub uninterp spec fn inline_css_of(html: Seq<char>) -> Option<Seq<char>>;

/// What HTML-to-text conversion yields for a document at a wrap width:
/// the wrapped plain text, or nothing when the converter rejects the
/// input. The outcome is a function of the markup and the width alone.
pub uninterp spec fn text_of(html: Seq<char>, width: int) -> Option<Seq<char>>;

/// Relies on css_inline::inline (crate css-inline, built without its
/// remote and file stylesheet features): rewrites the rules of the
/// document's <style> blocks into inline `style` attributes, a
/// deterministic transformation of the HTML text.
#[verifier::external_body]
pub(crate) fn inline_css(html: &str) -> (r: Result<String, PostProcessError>)
    ensures
        (match r {
            Ok(s) => inline_css_of(html@) == Some(s@),
            Err(e) => inline_css_of(html@) is None && e == PostProcessError::CssInline,
        }),
{
    match css_inline::inline(html) {
        Ok(s) => Ok(s),
        Err(_) => Err(PostProcessError::CssInline),
    }
}

/// Relies on html2text::from_read: reads the document from an in-memory
/// byte slice and renders it as plain text wrapped at `width` columns, a
/// deterministic transformation of the HTML text and the width.
#[verifier::external_body]
pub(crate) fn html_to_text(html: &str, width: usize) -> (r: Result<String, PostProcessError>)
    ensures
        (match r {
            Ok(s) => text_of(html@, width as int) == Some(s@),
            Err(e) => text_of(html@, width as int) is None && e
                == PostProcessError::TextConversion,
        }),
{
    match html2text::from_read(html.as_bytes(), width) {
        Ok(s) => Ok(s),
        Err(_) => Err(PostProcessError::TextConversion),
    }
}

} // verus!
