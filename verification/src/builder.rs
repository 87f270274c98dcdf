use vstd::prelude::*;

use crate::email::{Action, ActionView, Email, EmailView, Greeting, GreetingView, Table, TableView};

verus! {

/// Appends one element to an optional sequence, allocating it on first use.
pub open spec fn spec_append<T>(o: Option<Seq<T>>, v: T) -> Option<Seq<T>> {
    match o {
        Some(s) => Some(s.push(v)),
        None => Some(seq![v]),
    }
}

/// The mathematical value of an [`EmailBuilder`].
pub struct EmailBuilderView {
    pub summary: Option<Seq<char>>,
    pub greeting: Option<GreetingView>,
    pub intros: Option<Seq<Seq<char>>>,
    pub dictionary: Option<Seq<(Seq<char>, Seq<char>)>>,
    pub tables: Option<Seq<TableView>>,
    pub actions: Option<Seq<ActionView>>,
    pub outros: Option<Seq<Seq<char>>>,
    pub signature: Option<Seq<char>>,
}

/// A fluent, one-shot constructor for [`Email`]: each setter consumes the
/// builder and returns the updated one, and [`EmailBuilder::build`] turns
/// the accumulated fields into the finished message. Building never fails.
#[derive(Clone)]
pub struct EmailBuilder<'a> {
    summary: Option<&'a str>,
    greeting: Option<Greeting<'a>>,
    intros: Option<Vec<&'a str>>,
    dictionary: Option<Vec<(&'a str, &'a str)>>,
    tables: Option<Vec<Table<'a>>>,
    actions: Option<Vec<Action<'a>>>,
    outros: Option<Vec<&'a str>>,
    signature: Option<&'a str>,
}

impl<'a> View for EmailBuilder<'a> {
    type V = EmailBuilderView;

    closed spec fn view(&self) -> EmailBuilderView {
        EmailBuilderView {
            summary: self.summary.deep_view(),
            greeting: match self.greeting {
                Some(g) => Some(g@),
                None => None,
            },
            intros: self.intros.deep_view(),
            dictionary: self.dictionary.deep_view(),
            tables: match self.tables {
                Some(ref ts) => Some(ts@.map_values(|t: Table<'a>| t@)),
                None => None,
            },
            actions: match self.actions {
                Some(ref acts) => Some(acts@.map_values(|a: Action<'a>| a@)),
                None => None,
            },
            outros: self.outros.deep_view(),
            signature: self.signature.deep_view(),
        }
    }
}

/// The builder with every field empty.
pub open spec fn spec_empty_builder() -> EmailBuilderView {
    EmailBuilderView {
        summary: None,
        greeting: None,
        intros: None,
        dictionary: None,
        tables: None,
        actions: None,
        outros: None,
        signature: None,
    }
}

/// The builder that [`EmailBuilder::new`] returns: default greeting and
/// signature set, every other field empty.
pub open spec fn spec_default_builder() -> EmailBuilderView {
    EmailBuilderView {
        greeting: Some(GreetingView::Custom("Hey"@)),
        signature: Some("Yours truly,"@),
        ..spec_empty_builder()
    }
}

/// The email a builder state builds: each field copied as it stands.
pub open spec fn spec_build(b: EmailBuilderView) -> EmailView {
    EmailView {
        summary: b.summary,
        greeting: b.greeting,
        intros: b.intros,
        dictionary: b.dictionary,
        tables: b.tables,
        actions: b.actions,
        outros: b.outros,
        signature: b.signature,
    }
}

impl<'a> Default for EmailBuilder<'a> {
    /// A builder with every field empty, for callers that want full control.
    fn default() -> (r: Self)
        ensures
            r@ == spec_empty_builder(),
    {
        EmailBuilder {
            summary: None,
            greeting: None,
            intros: None,
            dictionary: None,
            tables: None,
            actions: None,
            outros: None,
            signature: None,
        }
    }
}

impl<'a> EmailBuilder<'a> {
    /// A builder with sane defaults: greeting `Custom("Hey")` and signature
    /// `"Yours truly,"` pre-set, every other field empty.
    #[must_use]
    pub fn new() -> (r: Self)
        ensures
            r@ == spec_default_builder(),
    {
        EmailBuilder {
            summary: None,
            greeting: Some(Greeting::Custom("Hey")),
            intros: None,
            dictionary: None,
            tables: None,
            actions: None,
            outros: None,
            signature: Some("Yours truly,"),
        }
    }

    /// Sets the summary, overwriting any prior value.
    #[must_use]
    pub fn summary(self, v: &'a str) -> (r: Self)
        ensures
            r@ == (EmailBuilderView { summary: Some(v@), ..self@ }),
    {
        let mut b = self;
        b.summary = Some(v);
        b
    }

    /// Sets the greeting, overwriting any prior value.
    #[must_use]
    pub fn greeting(self, v: Greeting<'a>) -> (r: Self)
        ensures
            r@ == (EmailBuilderView { greeting: Some(v@), ..self@ }),
    {
        let mut b = self;
        b.greeting = Some(v);
        b
    }

    /// Appends one intro paragraph; call order is render order.
    #[must_use]
    pub fn intro(self, v: &'a str) -> (r: Self)
        ensures
            r@ == (EmailBuilderView { intros: spec_append(self@.intros, v@), ..self@ }),
    {
        let ghost pre = self@;
        let mut b = self;
        match &mut b.intros {
            Some(intros) => intros.push(v),
            None => b.intros = Some(vec![v]),
        }
        proof {
            assert(b@.intros.unwrap() =~~= spec_append(pre.intros, v@).unwrap());
        }
        b
    }

    /// Replaces all intro paragraphs with the given sequence.
    #[must_use]
    pub fn set_intros(self, intros: Vec<&'a str>) -> (r: Self)
        ensures
            r@ == (EmailBuilderView { intros: Some(intros.deep_view()), ..self@ }),
    {
        let mut b = self;
        b.intros = Some(intros);
        b
    }

    /// Appends one (key, value) pair; call order is render order.
    #[must_use]
    pub fn dictionary(self, key: &'a str, value: &'a str) -> (r: Self)
        ensures
            r@ == (EmailBuilderView { dictionary: spec_append(self@.dictionary, (key@, value@)), ..self@ }),
    {
        let ghost pre = self@;
        let mut b = self;
        match &mut b.dictionary {
            Some(dictionary) => dictionary.push((key, value)),
            None => b.dictionary = Some(vec![(key, value)]),
        }
        proof {
            assert(b@.dictionary.unwrap() =~~= spec_append(pre.dictionary, (key@, value@)).unwrap());
        }
        b
    }

    /// Replaces all (key, value) pairs with the given sequence.
    #[must_use]
    pub fn set_dictionary(self, dictionary: Vec<(&'a str, &'a str)>) -> (r: Self)
        ensures
            r@ == (EmailBuilderView { dictionary: Some(dictionary.deep_view()), ..self@ }),
    {
        let mut b = self;
        b.dictionary = Some(dictionary);
        b
    }

    /// Appends one action; call order is render order.
    #[must_use]
    pub fn action(self, action: Action<'a>) -> (r: Self)
        ensures
            r@ == (EmailBuilderView { actions: spec_append(self@.actions, action@), ..self@ }),
    {
        let ghost pre = self@;
        let mut b = self;
        match &mut b.actions {
            Some(actions) => actions.push(action),
            None => b.actions = Some(vec![action]),
        }
        proof {
            assert(b@.actions.unwrap() =~~= spec_append(pre.actions, action@).unwrap());
        }
        b
    }

    /// Replaces all actions with the given sequence.
    #[must_use]
    pub fn set_actions(self, actions: Vec<Action<'a>>) -> (r: Self)
        ensures
            r@ == (EmailBuilderView { actions: Some(actions@.map_values(|a: Action<'a>| a@)), ..self@ }),
    {
        let mut b = self;
        b.actions = Some(actions);
        b
    }

    /// Appends one outro paragraph; call order is render order.
    #[must_use]
    pub fn outro(self, outro: &'a str) -> (r: Self)
        ensures
            r@ == (EmailBuilderView { outros: spec_append(self@.outros, outro@), ..self@ }),
    {
        let ghost pre = self@;
        let mut b = self;
        match &mut b.outros {
            Some(outros) => outros.push(outro),
            None => b.outros = Some(vec![outro]),
        }
        proof {
            assert(b@.outros.unwrap() =~~= spec_append(pre.outros, outro@).unwrap());
        }
        b
    }

    /// Replaces all outro paragraphs with the given sequence.
    #[must_use]
    pub fn set_outros(self, outros: Vec<&'a str>) -> (r: Self)
        ensures
            r@ == (EmailBuilderView { outros: Some(outros.deep_view()), ..self@ }),
    {
        let mut b = self;
        b.outros = Some(outros);
        b
    }

    /// Sets the signature, overwriting any prior value.
    #[must_use]
    pub fn signature(self, signature: &'a str) -> (r: Self)
        ensures
            r@ == (EmailBuilderView { signature: Some(signature@), ..self@ }),
    {
        let mut b = self;
        b.signature = Some(signature);
        b
    }

    /// Appends one table; call order is render order.
    #[must_use]
    pub fn table(self, table: Table<'a>) -> (r: Self)
        ensures
            r@ == (EmailBuilderView { tables: spec_append(self@.tables, table@), ..self@ }),
    {
        let ghost pre = self@;
        let mut b = self;
        match &mut b.tables {
            Some(tables) => tables.push(table),
            None => b.tables = Some(vec![table]),
        }
        proof {
            assert(b@.tables.unwrap() =~~= spec_append(pre.tables, table@).unwrap());
        }
        b
    }

    /// Replaces all tables with the given sequence.
    #[must_use]
    pub fn set_tables(self, tables: Vec<Table<'a>>) -> (r: Self)
        ensures
            r@ == (EmailBuilderView { tables: Some(tables@.map_values(|t: Table<'a>| t@)), ..self@ }),
    {
        let mut b = self;
        b.tables = Some(tables);
        b
    }

    /// Consumes the builder and produces the email, copying each field as it
    /// stands. Building never fails.
    #[must_use]
    pub fn build(self) -> (r: Email<'a>)
        ensures
            r@ == spec_build(self@),
    {
        Email {
            summary: self.summary,
            greeting: self.greeting,
            intros: self.intros,
            dictionary: self.dictionary,
            tables: self.tables,
            actions: self.actions,
            outros: self.outros,
            signature: self.signature,
        }
    }
}

} // verus!
