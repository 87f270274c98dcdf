use vstd::prelude::*;

verus! {

/// Failure of a post-processing step of a render.
#[derive(Debug, Clone, Copy, PartialEq, Eq, Structural)]
pub enum PostProcessError {
    /// CSS inlining rejected the theme's HTML markup.
    CssInline,
    /// HTML-to-text conversion rejected the theme's text markup.
    TextConversion,
}

/// Failure of a theme's render step: the theme could not produce markup
/// for the given context.
#[derive(Debug, Clone)]
pub struct TemplateError {
    /// What went wrong, as the theme reports it.
    pub message: String,
}

impl View for TemplateError {
    type V = Seq<char>;

    open spec fn view(&self) -> Seq<char> {
        self.message@
    }
}

/// Failure of a render call, telling templating problems apart from
/// post-processing problems. A failed stage aborts the render: no partial
/// output is ever returned.
#[derive(Debug)]
pub enum Error {
    /// The theme failed to produce markup.
    Template(TemplateError),
    /// A post-processing step failed on the markup the theme produced.
    PostProcess(PostProcessError),
}

/// The mathematical value of an [`Error`].
pub enum ErrorView {
    Template(Seq<char>),
    PostProcess(PostProcessError),
}

impl View for Error {
    type V = ErrorView;

    open spec fn view(&self) -> ErrorView {
        match self {
            Error::Template(e) => ErrorView::Template(e@),
            Error::PostProcess(p) => ErrorView::PostProcess(*p),
        }
    }
}

} // verus!
