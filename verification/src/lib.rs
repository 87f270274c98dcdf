mod builder;
mod email;
mod error;
mod laws;
mod postprocess;
mod strutil;
pub mod themes;

pub use builder::{spec_append, spec_build, spec_default_builder, spec_empty_builder, EmailBuilder, EmailBuilderView};
pub use email::{Action, ActionView, Email, EmailView, Greeting, GreetingView, Table, TableColumns, TableColumnsView, TableView};
pub use email::spec_greeting_text;
pub use error::{Error, ErrorView, PostProcessError, TemplateError};
pub use laws::{
    lemma_action_chain_order, lemma_append_order, lemma_default_build,
    lemma_dictionary_chain_order, lemma_greeting_rendered, lemma_intro_chain_order,
    lemma_outro_chain_order, lemma_render_html_deterministic, lemma_render_text_deterministic,
    lemma_replace_discards_appends, lemma_replace_discards_structured,
    lemma_table_chain_order, lemma_columns_complete, lemma_columns_unique,
    lemma_template_failure_propagates_html, lemma_template_failure_propagates_text,
    lemma_trouble_substituted, spec_action_chain, spec_action_step, spec_append_all,
    spec_dictionary_chain, spec_dictionary_step, spec_intro_chain, spec_intro_step,
    spec_no_dup, spec_outro_chain, spec_outro_step, spec_rows_have_key, spec_table_chain,
    spec_table_step, spec_trouble_shown,
};
pub use postprocess::{inline_css_of, text_of};
pub use strutil::{contains_seq, escape_html, lookup, replace_all, spec_decimal, spec_digit, spec_escape, spec_escape_char, spec_lookup, spec_replace, str_eq, u32_to_string, vec_contains_str};
pub use strutil::{lemma_contains_append, lemma_contains_middle, lemma_contains_prepend, lemma_escape_concat, lemma_escape_plain};

use themes::{ContextView, TemplateContext, Theme};

use vstd::prelude::*;

verus! {

/// The width, in columns, that the plain-text rendition is wrapped to.
pub const TEXT_WRAP_WIDTH: usize = 80;

/// The sender's identity: shown in the header and footer of every message.
/// It is configuration, set once and never mutated by rendering.
#[derive(Debug, Clone)]
pub struct Branding {
    /// Product or company name.
    pub name: String,
    /// Link to the product or company site.
    pub link: String,
    /// Logo URL.
    pub logo: Option<String>,
    /// Copyright line; [`Branding::new`] computes a default one.
    pub copyright: Option<String>,
    /// Help text shown under action buttons; its `{ACTION}` marker is
    /// substituted per action at render time.
    pub trouble_text: String,
}

/// The mathematical value of a [`Branding`].
pub struct BrandingView {
    pub name: Seq<char>,
    pub link: Seq<char>,
    pub logo: Option<Seq<char>>,
    pub copyright: Option<Seq<char>>,
    pub trouble_text: Seq<char>,
}

impl View for Branding {
    type V = BrandingView;

    open spec fn view(&self) -> BrandingView {
        BrandingView {
            name: self.name@,
            link: self.link@,
            logo: self.logo.deep_view(),
            copyright: self.copyright.deep_view(),
            trouble_text: self.trouble_text@,
        }
    }
}

/// The help text a fresh branding carries.
pub open spec fn spec_default_trouble_text() -> Seq<char> {
    "If you're having trouble with the button '{ACTION}', copy and paste the URL below into your web browser."@
}

/// The copyright line computed for a product name.
pub open spec fn spec_default_copyright(name: Seq<char>) -> Seq<char> {
    "Copyright © "@ + name + ". All rights reserved."@
}

impl Branding {
    /// A branding for the given product name and link: the copyright line
    /// is computed from the name, the trouble text is the default one, and
    /// there is no logo.
    pub fn new(name: &str, link: &str) -> (r: Branding)
        ensures
            r@ == (BrandingView {
                name: name@,
                link: link@,
                logo: None,
                copyright: Some(spec_default_copyright(name@)),
                trouble_text: spec_default_trouble_text(),
            }),
    {
        let mut copyright = String::from_str("Copyright © ");
        copyright.append(name);
        copyright.append(". All rights reserved.");
        Branding {
            name: String::from_str(name),
            link: String::from_str(link),
            logo: None,
            copyright: Some(copyright),
            trouble_text: String::from_str(
                "If you're having trouble with the button '{ACTION}', copy and paste the URL below into your web browser.",
            ),
        }
    }
}

/// The value of a render call's outcome: the output string, or the error.
pub open spec fn render_result_view(r: Result<String, Error>) -> Result<Seq<char>, ErrorView> {
    match r {
        Ok(s) => Ok(s@),
        Err(e) => Err(e@),
    }
}

/// The render pipeline: holds a theme and a branding, and turns an email
/// into a final HTML string (theme markup with its CSS inlined) and a
/// final plain-text string (theme markup converted to wrapped text). It
/// never mutates the email or the branding, and a failed stage aborts the
/// render with that stage's error.
pub struct Mailgen<T: Theme> {
    pub theme: T,
    pub branding: Branding,
}

impl<T: Theme> Mailgen<T> {
    /// A pipeline over the given theme and branding.
    pub fn new(theme: T, branding: Branding) -> (r: Self)
        ensures
            r.theme == theme,
            r.branding == branding,
    {
        Mailgen { theme, branding }
    }

    /// The outcome a render to HTML yields for an email: the theme's HTML
    /// markup with its CSS inlined, or the first failing stage's error.
    pub open spec fn spec_render_html(&self, email: EmailView) -> Result<Seq<char>, ErrorView> {
        match self.theme.spec_html(ContextView { branding: self.branding@, email }) {
            Err(m) => Err(ErrorView::Template(m)),
            Ok(raw) => match inline_css_of(raw) {
                Some(inlined) => Ok(inlined),
                None => Err(ErrorView::PostProcess(PostProcessError::CssInline)),
            },
        }
    }

    /// The outcome a render to text yields for an email: the theme's
    /// text-oriented markup converted to plain text wrapped at
    /// [`TEXT_WRAP_WIDTH`] columns, or the first failing stage's error.
    pub open spec fn spec_render_text(&self, email: EmailView) -> Result<Seq<char>, ErrorView> {
        match self.theme.spec_text(ContextView { branding: self.branding@, email }) {
            Err(m) => Err(ErrorView::Template(m)),
            Ok(raw) => match text_of(raw, TEXT_WRAP_WIDTH as int) {
                Some(t) => Ok(t),
                None => Err(ErrorView::PostProcess(PostProcessError::TextConversion)),
            },
        }
    }

    /// Renders the self-contained HTML rendition of the email.
    pub fn render_html(&self, email: &Email<'_>) -> (r: Result<String, Error>)
        ensures
            render_result_view(r) == self.spec_render_html(email@),
    {
        let context = TemplateContext { branding: &self.branding, email };
        match self.theme.html(&context) {
            Err(e) => Err(Error::Template(e)),
            Ok(raw) => match postprocess::inline_css(raw.as_str()) {
                Ok(s) => Ok(s),
                Err(pe) => Err(Error::PostProcess(pe)),
            },
        }
    }

    /// Renders the plain-text rendition of the email, wrapped at
    /// [`TEXT_WRAP_WIDTH`] columns.
    pub fn render_text(&self, email: &Email<'_>) -> (r: Result<String, Error>)
        ensures
            render_result_view(r) == self.spec_render_text(email@),
    {
        let context = TemplateContext { branding: &self.branding, email };
        match self.theme.text(&context) {
            Err(e) => Err(Error::Template(e)),
            Ok(raw) => match postprocess::html_to_text(raw.as_str(), TEXT_WRAP_WIDTH) {
                Ok(s) => Ok(s),
                Err(pe) => Err(Error::PostProcess(pe)),
            },
        }
    }
}

} // verus!
