use vstd::prelude::*;

verus! {

/// The salutation of a message: either a templated greeting by name or a
/// custom line rendered verbatim.
#[derive(Debug, Clone, Copy)]
pub enum Greeting<'a> {
    /// Greets by name; renders as `Hey {name},`.
    Name(&'a str),
    /// Custom greeting, rendered verbatim.
    Custom(&'a str),
}

/// The mathematical value of a [`Greeting`].
pub enum GreetingView {
    Name(Seq<char>),
    Custom(Seq<char>),
}

impl<'a> View for Greeting<'a> {
    type V = GreetingView;

    open spec fn view(&self) -> GreetingView {
        match *self {
            Greeting::Name(n) => GreetingView::Name(n@),
            Greeting::Custom(c) => GreetingView::Custom(c@),
        }
    }
}

/// The text a greeting displays: `Hey {name},` for a greeting by name, the
/// custom line itself otherwise.
pub open spec fn spec_greeting_text(g: GreetingView) -> Seq<char> {
    match g {
        GreetingView::Name(n) => "Hey "@ + n + ","@,
        GreetingView::Custom(c) => c,
    }
}

impl<'a> Greeting<'a> {
    /// The display form of the greeting.
    pub fn render(&self) -> (r: String)
        ensures
            r@ == spec_greeting_text(self@),
    {
        match *self {
            Greeting::Name(n) => {
                let mut s = String::from_str("Hey ");
                s.append(n);
                s.append(",");
                s
            },
            Greeting::Custom(c) => String::from_str(c),
        }
    }
}

/// An action the reader can take from the message: a button with a label,
/// a link, an optional lead-in sentence and optional colors.
#[derive(Debug, Clone, Copy, Default)]
pub struct Action<'a> {
    /// Button label.
    pub text: &'a str,
    /// Button link.
    pub link: &'a str,
    /// Sentence displayed before the button.
    pub instructions: Option<&'a str>,
    /// Custom button colors as (foreground, background); both or neither.
    pub color: Option<(&'a str, &'a str)>,
}

/// The mathematical value of an [`Action`].
pub struct ActionView {
    pub text: Seq<char>,
    pub link: Seq<char>,
    pub instructions: Option<Seq<char>>,
    pub color: Option<(Seq<char>, Seq<char>)>,
}

impl<'a> View for Action<'a> {
    type V = ActionView;

    open spec fn view(&self) -> ActionView {
        ActionView {
            text: self.text@,
            link: self.link@,
            instructions: self.instructions.deep_view(),
            color: self.color.deep_view(),
        }
    }
}

/// Per-column overrides for a table: width and alignment by column name.
/// Names that match no column are inert.
#[derive(Debug, Clone)]
pub struct TableColumns<'a> {
    /// Custom width per column name.
    pub custom_width: Option<Vec<(&'a str, &'a str)>>,
    /// Custom alignment per column name.
    pub custom_alignment: Option<Vec<(&'a str, &'a str)>>,
}

/// The mathematical value of a [`TableColumns`].
pub struct TableColumnsView {
    pub custom_width: Option<Seq<(Seq<char>, Seq<char>)>>,
    pub custom_alignment: Option<Seq<(Seq<char>, Seq<char>)>>,
}

impl<'a> View for TableColumns<'a> {
    type V = TableColumnsView;

    open spec fn view(&self) -> TableColumnsView {
        TableColumnsView {
            custom_width: self.custom_width.deep_view(),
            custom_alignment: self.custom_alignment.deep_view(),
        }
    }
}

/// Tabular data: a title, rows of (column name, cell value) pairs, and
/// optional per-column overrides. Rows need not share the same columns.
#[derive(Debug, Clone)]
pub struct Table<'a> {
    /// Table title.
    pub title: &'a str,
    /// Rows; each row maps column names to cell values, in insertion order.
    pub data: Vec<Vec<(&'a str, &'a str)>>,
    /// Optional per-column overrides.
    pub columns: Option<TableColumns<'a>>,
}

/// The mathematical value of a [`Table`].
pub struct TableView {
    pub title: Seq<char>,
    pub data: Seq<Seq<(Seq<char>, Seq<char>)>>,
    pub columns: Option<TableColumnsView>,
}

impl<'a> View for Table<'a> {
    type V = TableView;

    open spec fn view(&self) -> TableView {
        TableView {
            title: self.title@,
            data: self.data.deep_view(),
            columns: match self.columns {
                Some(ref c) => Some(c@),
                None => None,
            },
        }
    }
}

/// A renderable message: every field is optional, sequences keep insertion
/// order, and the value never changes once built.
#[derive(Debug, Clone)]
pub struct Email<'a> {
    /// Preview line shown by mail clients; no effect on the body.
    pub summary: Option<&'a str>,
    /// Salutation.
    pub greeting: Option<Greeting<'a>>,
    /// Paragraphs rendered before the main content, in order.
    pub intros: Option<Vec<&'a str>>,
    /// (key, value) pairs rendered as a list; duplicate keys permitted.
    pub dictionary: Option<Vec<(&'a str, &'a str)>>,
    /// Tables, in order.
    pub tables: Option<Vec<Table<'a>>>,
    /// Call-to-action blocks, in order.
    pub actions: Option<Vec<Action<'a>>>,
    /// Paragraphs rendered after the main content, in order.
    pub outros: Option<Vec<&'a str>>,
    /// Closing signature.
    pub signature: Option<&'a str>,
}

/// The mathematical value of an [`Email`].
pub struct EmailView {
    pub summary: Option<Seq<char>>,
    pub greeting: Option<GreetingView>,
    pub intros: Option<Seq<Seq<char>>>,
    pub dictionary: Option<Seq<(Seq<char>, Seq<char>)>>,
    pub tables: Option<Seq<TableView>>,
    pub actions: Option<Seq<ActionView>>,
    pub outros: Option<Seq<Seq<char>>>,
    pub signature: Option<Seq<char>>,
}

impl<'a> View for Email<'a> {
    type V = EmailView;

    open spec fn view(&self) -> EmailView {
        EmailView {
            summary: self.summary.deep_view(),
            greeting: match self.greeting {
                Some(g) => Some(g@),
                None => None,
            },
            intros: self.intros.deep_view(),
            dictionary: self.dictionary.deep_view(),
            tables: match self.tables {
                Some(ref ts) => Some(ts@.map_values(|t: Table<'a>| t@)),
                None => None,
            },
            actions: match self.actions {
                Some(ref acts) => Some(acts@.map_values(|a: Action<'a>| a@)),
                None => None,
            },
            outros: self.outros.deep_view(),
            signature: self.signature.deep_view(),
        }
    }
}

} // verus!
