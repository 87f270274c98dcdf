mod default;

pub use default::{
    opt_or_empty, render_html_markup, render_text_markup, spec_action_html, spec_action_marker,
    spec_action_text, spec_actions_html, spec_actions_text, spec_align_attr, spec_cell,
    spec_columns, spec_columns_from, spec_columns_view, spec_dict, spec_greeting_block,
    spec_header_block, spec_header_cells, spec_html_markup, spec_html_open, spec_insert_col,
    spec_opt_para, spec_paras, spec_row_cells, spec_row_cols, spec_rows, spec_summary_block,
    spec_table_markup, spec_tables_block, spec_text_markup, spec_trouble_line, spec_width_attr,
    DefaultTheme,
};

use vstd::prelude::*;

use crate::email::{Email, EmailView};
use crate::error::TemplateError;
use crate::{Branding, BrandingView};

verus! {

/// What a theme renders from: the sender's identity and the message.
pub struct TemplateContext<'a> {
    pub branding: &'a Branding,
    pub email: &'a Email<'a>,
}

/// The mathematical value of a [`TemplateContext`].
pub struct ContextView {
    pub branding: BrandingView,
    pub email: EmailView,
}

impl<'a> View for TemplateContext<'a> {
    type V = ContextView;

    open spec fn view(&self) -> ContextView {
        ContextView { branding: self.branding@, email: self.email@ }
    }
}

/// The value of a theme render's outcome: the markup, or the failure
/// message.
pub open spec fn markup_result_view(r: Result<String, TemplateError>) -> Result<
    Seq<char>,
    Seq<char>,
> {
    match r {
        Ok(s) => Ok(s@),
        Err(e) => Err(e@),
    }
}

/// A pluggable visual design: given a context it produces raw HTML markup
/// and raw text-oriented markup, or signals a theme-specific rendering
/// failure. Which outcome a theme yields for a context is fixed by its two
/// spec functions, so rendering the same context twice yields the same
/// outcome.
pub trait Theme {
    /// The HTML markup, or the failure message, this theme yields for a
    /// context.
    spec fn spec_html(&self, c: ContextView) -> Result<Seq<char>, Seq<char>>;

    /// The text-oriented markup, or the failure message, this theme yields
    /// for a context.
    spec fn spec_text(&self, c: ContextView) -> Result<Seq<char>, Seq<char>>;

    /// Renders the HTML-oriented markup for the context.
    fn html(&self, context: &TemplateContext<'_>) -> (r: Result<String, TemplateError>)
        ensures
            markup_result_view(r) == self.spec_html(context@),
    ;

    /// Renders the text-oriented markup for the context.
    fn text(&self, context: &TemplateContext<'_>) -> (r: Result<String, TemplateError>)
        ensures
            markup_result_view(r) == self.spec_text(context@),
    ;
}

} // verus!
