use vstd::prelude::*;

use crate::builder::{spec_append, spec_build, spec_default_builder, EmailBuilderView};
use crate::email::{ActionView, EmailView, GreetingView, TableView};
use crate::email::spec_greeting_text;
use crate::error::ErrorView;
use crate::strutil::{
    contains_seq, lemma_contains_append, lemma_contains_middle, lemma_contains_prepend,
    lemma_escape_plain, spec_escape,
};
use crate::themes::{
    opt_or_empty, spec_action_html, spec_action_text, spec_actions_html, spec_actions_text,
    spec_columns, spec_columns_from, spec_greeting_block, spec_html_markup, spec_insert_col,
    spec_row_cols, spec_text_markup, spec_trouble_line, ContextView, Theme,
};
use crate::{BrandingView, Mailgen};

verus! {

/// The optional sequence after appending every element of `vs` in order.
pub open spec fn spec_append_all<T>(o: Option<Seq<T>>, vs: Seq<T>) -> Option<Seq<T>>
    decreases vs.len(),
{
    if vs.len() == 0 {
        o
    } else {
        spec_append_all(spec_append(o, vs[0]), vs.skip(1))
    }
}

/// Law: appending elements one by one yields exactly the prior elements
/// followed by the appended ones, in append order.
pub proof fn lemma_append_order<T>(o: Option<Seq<T>>, vs: Seq<T>)
    ensures
        vs.len() > 0 || o is Some ==> spec_append_all(o, vs) == Some(opt_or_empty(o) + vs),
        vs.len() == 0 ==> spec_append_all(o, vs) == o,
    decreases vs.len(),
{
    if vs.len() == 0 {
    } else {
        let o1 = spec_append(o, vs[0]);
        lemma_append_order(o1, vs.skip(1));
        assert(opt_or_empty(o1) =~= opt_or_empty(o).push(vs[0]));
        assert(opt_or_empty(o).push(vs[0]) + vs.skip(1) =~= opt_or_empty(o) + vs);
    }
}

/// How one `intro` call transforms the builder's value.
pub open spec fn spec_intro_step(b: EmailBuilderView, v: Seq<char>) -> EmailBuilderView {
    EmailBuilderView { intros: spec_append(b.intros, v), ..b }
}

/// The builder after a chain of `intro` calls, one per element in order.
pub open spec fn spec_intro_chain(b: EmailBuilderView, vs: Seq<Seq<char>>) -> EmailBuilderView
    decreases vs.len(),
{
    if vs.len() == 0 {
        b
    } else {
        spec_intro_chain(spec_intro_step(b, vs[0]), vs.skip(1))
    }
}

/// Law: a chain of `intro` calls on a builder with no intros, followed by
/// `build`, yields an email whose intros are exactly the appended
/// elements in append order; no other field is touched.
pub proof fn lemma_intro_chain_order(b: EmailBuilderView, vs: Seq<Seq<char>>)
    ensures
        spec_intro_chain(b, vs) == (EmailBuilderView { intros: spec_append_all(b.intros, vs), ..b }),
        b.intros is None && vs.len() > 0 ==> spec_build(spec_intro_chain(b, vs)).intros == Some(
            vs,
        ),
    decreases vs.len(),
{
    if vs.len() == 0 {
    } else {
        lemma_intro_chain_order(spec_intro_step(b, vs[0]), vs.skip(1));
        lemma_append_order(b.intros, vs);
        if b.intros is None {
            assert(opt_or_empty(b.intros) + vs =~= vs);
        }
    }
}

/// How one `outro` call transforms the builder's value.
pub open spec fn spec_outro_step(b: EmailBuilderView, v: Seq<char>) -> EmailBuilderView {
    EmailBuilderView { outros: spec_append(b.outros, v), ..b }
}

/// The builder after a chain of `outro` calls, one per element in order.
pub open spec fn spec_outro_chain(b: EmailBuilderView, vs: Seq<Seq<char>>) -> EmailBuilderView
    decreases vs.len(),
{
    if vs.len() == 0 {
        b
    } else {
        spec_outro_chain(spec_outro_step(b, vs[0]), vs.skip(1))
    }
}

/// Law: a chain of `outro` calls appends exactly its elements in order.
pub proof fn lemma_outro_chain_order(b: EmailBuilderView, vs: Seq<Seq<char>>)
    ensures
        spec_outro_chain(b, vs) == (EmailBuilderView { outros: spec_append_all(b.outros, vs), ..b }),
        b.outros is None && vs.len() > 0 ==> spec_build(spec_outro_chain(b, vs)).outros == Some(
            vs,
        ),
    decreases vs.len(),
{
    if vs.len() == 0 {
    } else {
        lemma_outro_chain_order(spec_outro_step(b, vs[0]), vs.skip(1));
        lemma_append_order(b.outros, vs);
        if b.outros is None {
            assert(opt_or_empty(b.outros) + vs =~= vs);
        }
    }
}

/// How one `dictionary` call transforms the builder's value.
pub open spec fn spec_dictionary_step(b: EmailBuilderView, p: (Seq<char>, Seq<char>)) -> EmailBuilderView {
    EmailBuilderView { dictionary: spec_append(b.dictionary, p), ..b }
}

/// The builder after a chain of `dictionary` calls, one per pair in order.
pub open spec fn spec_dictionary_chain(
    b: EmailBuilderView,
    ps: Seq<(Seq<char>, Seq<char>)>,
) -> EmailBuilderView
    decreases ps.len(),
{
    if ps.len() == 0 {
        b
    } else {
        spec_dictionary_chain(spec_dictionary_step(b, ps[0]), ps.skip(1))
    }
}

/// Law: a chain of `dictionary` calls appends exactly its pairs in order.
pub proof fn lemma_dictionary_chain_order(b: EmailBuilderView, ps: Seq<(Seq<char>, Seq<char>)>)
    ensures
        spec_dictionary_chain(b, ps) == (EmailBuilderView {
            dictionary: spec_append_all(b.dictionary, ps),
            ..b
        }),
        b.dictionary is None && ps.len() > 0 ==> spec_build(
            spec_dictionary_chain(b, ps),
        ).dictionary == Some(ps),
    decreases ps.len(),
{
    if ps.len() == 0 {
    } else {
        lemma_dictionary_chain_order(spec_dictionary_step(b, ps[0]), ps.skip(1));
        lemma_append_order(b.dictionary, ps);
        if b.dictionary is None {
            assert(opt_or_empty(b.dictionary) + ps =~= ps);
        }
    }
}

/// How one `action` call transforms the builder's value.
pub open spec fn spec_action_step(b: EmailBuilderView, a: ActionView) -> EmailBuilderView {
    EmailBuilderView { actions: spec_append(b.actions, a), ..b }
}

/// The builder after a chain of `action` calls, one per action in order.
pub open spec fn spec_action_chain(b: EmailBuilderView, acts: Seq<ActionView>) -> EmailBuilderView
    decreases acts.len(),
{
    if acts.len() == 0 {
        b
    } else {
        spec_action_chain(spec_action_step(b, acts[0]), acts.skip(1))
    }
}

/// Law: a chain of `action` calls appends exactly its actions in order.
pub proof fn lemma_action_chain_order(b: EmailBuilderView, acts: Seq<ActionView>)
    ensures
        spec_action_chain(b, acts) == (EmailBuilderView {
            actions: spec_append_all(b.actions, acts),
            ..b
        }),
        b.actions is None && acts.len() > 0 ==> spec_build(spec_action_chain(b, acts)).actions
            == Some(acts),
    decreases acts.len(),
{
    if acts.len() == 0 {
    } else {
        lemma_action_chain_order(spec_action_step(b, acts[0]), acts.skip(1));
        lemma_append_order(b.actions, acts);
        if b.actions is None {
            assert(opt_or_empty(b.actions) + acts =~= acts);
        }
    }
}

/// How one `table` call transforms the builder's value.
pub open spec fn spec_table_step(b: EmailBuilderView, t: TableView) -> EmailBuilderView {
    EmailBuilderView { tables: spec_append(b.tables, t), ..b }
}

/// The builder after a chain of `table` calls, one per table in order.
pub open spec fn spec_table_chain(b: EmailBuilderView, ts: Seq<TableView>) -> EmailBuilderView
    decreases ts.len(),
{
    if ts.len() == 0 {
        b
    } else {
        spec_table_chain(spec_table_step(b, ts[0]), ts.skip(1))
    }
}

/// Law: a chain of `table` calls appends exactly its tables in order.
pub proof fn lemma_table_chain_order(b: EmailBuilderView, ts: Seq<TableView>)
    ensures
        spec_table_chain(b, ts) == (EmailBuilderView { tables: spec_append_all(b.tables, ts), ..b }),
        b.tables is None && ts.len() > 0 ==> spec_build(spec_table_chain(b, ts)).tables == Some(
            ts,
        ),
    decreases ts.len(),
{
    if ts.len() == 0 {
    } else {
        lemma_table_chain_order(spec_table_step(b, ts[0]), ts.skip(1));
        lemma_append_order(b.tables, ts);
        if b.tables is None {
            assert(opt_or_empty(b.tables) + ts =~= ts);
        }
    }
}

/// Law: a bulk replace discards whatever a chain of appends accumulated —
/// the built sequence is exactly the replacement, whatever stood before.
pub proof fn lemma_replace_discards_appends(b: EmailBuilderView, vs: Seq<Seq<char>>, ws: Seq<Seq<char>>)
    ensures
        spec_build(EmailBuilderView { intros: Some(ws), ..spec_intro_chain(b, vs) }).intros
            == Some(ws),
        spec_build(EmailBuilderView { outros: Some(ws), ..spec_outro_chain(b, vs) }).outros
            == Some(ws),
{
}

/// Law: a bulk replace of pairs, actions or tables likewise discards any
/// appended elements outright.
pub proof fn lemma_replace_discards_structured(
    b: EmailBuilderView,
    ps: Seq<(Seq<char>, Seq<char>)>,
    qs: Seq<(Seq<char>, Seq<char>)>,
    acts: Seq<ActionView>,
    bs: Seq<ActionView>,
    ts: Seq<TableView>,
    us: Seq<TableView>,
)
    ensures
        spec_build(
            EmailBuilderView { dictionary: Some(qs), ..spec_dictionary_chain(b, ps) },
        ).dictionary == Some(qs),
        spec_build(EmailBuilderView { actions: Some(bs), ..spec_action_chain(b, acts) }).actions
            == Some(bs),
        spec_build(EmailBuilderView { tables: Some(us), ..spec_table_chain(b, ts) }).tables
            == Some(us),
{
}

/// Law: a default-constructed builder with no further calls builds an
/// email whose greeting is `Custom("Hey")`, whose signature is
/// `"Yours truly,"`, and whose sequence fields are all absent.
pub proof fn lemma_default_build()
    ensures
        spec_build(spec_default_builder()) == (EmailView {
            summary: None,
            greeting: Some(GreetingView::Custom("Hey"@)),
            intros: None,
            dictionary: None,
            tables: None,
            actions: None,
            outros: None,
            signature: Some("Yours truly,"@),
        }),
{
}

/// Law: rendering is deterministic — two HTML renders of the same theme,
/// branding and email have byte-identical outcomes.
pub proof fn lemma_render_html_deterministic<T: Theme>(
    m: &Mailgen<T>,
    e: EmailView,
    r1: Result<Seq<char>, ErrorView>,
    r2: Result<Seq<char>, ErrorView>,
)
    requires
        r1 == m.spec_render_html(e),
        r2 == m.spec_render_html(e),
    ensures
        r1 == r2,
{
}

/// Law: rendering is deterministic — two text renders of the same theme,
/// branding and email have byte-identical outcomes.
pub proof fn lemma_render_text_deterministic<T: Theme>(
    m: &Mailgen<T>,
    e: EmailView,
    r1: Result<Seq<char>, ErrorView>,
    r2: Result<Seq<char>, ErrorView>,
)
    requires
        r1 == m.spec_render_text(e),
        r2 == m.spec_render_text(e),
    ensures
        r1 == r2,
{
}

/// Law: a theme failure propagates — when the theme's HTML render step
/// fails, the whole render fails with that template error, and no output
/// is produced.
pub proof fn lemma_template_failure_propagates_html<T: Theme>(
    m: &Mailgen<T>,
    e: EmailView,
    msg: Seq<char>,
)
    requires
        m.theme.spec_html(ContextView { branding: m.branding@, email: e }) == Err::<
            Seq<char>,
            Seq<char>,
        >(msg),
    ensures
        m.spec_render_html(e) == Err::<Seq<char>, ErrorView>(ErrorView::Template(msg)),
{
}

/// Law: a theme failure propagates — when the theme's text render step
/// fails, the whole render fails with that template error, and no output
/// is produced.
pub proof fn lemma_template_failure_propagates_text<T: Theme>(
    m: &Mailgen<T>,
    e: EmailView,
    msg: Seq<char>,
)
    requires
        m.theme.spec_text(ContextView { branding: m.branding@, email: e }) == Err::<
            Seq<char>,
            Seq<char>,
        >(msg),
    ensures
        m.spec_render_text(e) == Err::<Seq<char>, ErrorView>(ErrorView::Template(msg)),
{
}

/// Law: when a greeting is set, the default theme's markup renders it —
/// `Hey {name},` for a greeting by name, the custom line itself, with no
/// salutation added, otherwise. Both the text-oriented and the HTML
/// markup contain its (escaped) display text.
pub proof fn lemma_greeting_rendered(b: BrandingView, e: EmailView, g: GreetingView, h: nat)
    requires
        e.greeting == Some(g),
    ensures
        g matches GreetingView::Name(n) ==> spec_greeting_text(g) == "Hey "@ + n + ","@,
        g matches GreetingView::Custom(c) ==> spec_greeting_text(g) == c,
        contains_seq(spec_text_markup(b, e), spec_escape(spec_greeting_text(g))),
        contains_seq(spec_html_markup(b, e, h), spec_escape(spec_greeting_text(g))),
        (forall|i: int|
            0 <= i < spec_greeting_text(g).len() ==> spec_greeting_text(g)[i] != '&'
                && spec_greeting_text(g)[i] != '<' && spec_greeting_text(g)[i] != '>'
                && spec_greeting_text(g)[i] != '"') ==> contains_seq(
            spec_text_markup(b, e),
            spec_greeting_text(g),
        ) && contains_seq(spec_html_markup(b, e, h), spec_greeting_text(g)),
{
    if forall|i: int|
        0 <= i < spec_greeting_text(g).len() ==> spec_greeting_text(g)[i] != '&'
            && spec_greeting_text(g)[i] != '<' && spec_greeting_text(g)[i] != '>'
            && spec_greeting_text(g)[i] != '"' {
        lemma_escape_plain(spec_greeting_text(g));
    }
    let x = spec_escape(spec_greeting_text(g));
    let block = spec_greeting_block(e.greeting);
    lemma_contains_middle("<p>"@, x, "</p>"@);
    assert(contains_seq(block, x));

    let t0 = "<html><body>"@;
    lemma_contains_prepend(t0, block, x);
    let t1 = t0 + block;
    let t2 = t1 + crate::themes::spec_paras(opt_or_empty(e.intros));
    lemma_contains_append(t1, crate::themes::spec_paras(opt_or_empty(e.intros)), x);
    let t3 = t2 + crate::themes::spec_dict(opt_or_empty(e.dictionary));
    lemma_contains_append(t2, crate::themes::spec_dict(opt_or_empty(e.dictionary)), x);
    let t4 = t3 + crate::themes::spec_tables_block(opt_or_empty(e.tables));
    lemma_contains_append(t3, crate::themes::spec_tables_block(opt_or_empty(e.tables)), x);
    let t5 = t4 + spec_actions_text(b.trouble_text, opt_or_empty(e.actions));
    lemma_contains_append(t4, spec_actions_text(b.trouble_text, opt_or_empty(e.actions)), x);
    let t6 = t5 + crate::themes::spec_paras(opt_or_empty(e.outros));
    lemma_contains_append(t5, crate::themes::spec_paras(opt_or_empty(e.outros)), x);
    let t7 = t6 + crate::themes::spec_opt_para(e.signature);
    lemma_contains_append(t6, crate::themes::spec_opt_para(e.signature), x);
    let t8 = t7 + crate::themes::spec_opt_para(b.copyright);
    lemma_contains_append(t7, crate::themes::spec_opt_para(b.copyright), x);
    lemma_contains_append(t8, "</body></html>"@, x);
    assert(spec_text_markup(b, e) == t8 + "</body></html>"@);

    let h0 = crate::themes::spec_html_open() + crate::themes::spec_summary_block(e.summary)
        + crate::themes::spec_header_block(b, h);
    lemma_contains_prepend(h0, block, x);
    let h1 = h0 + block;
    let h2 = h1 + crate::themes::spec_paras(opt_or_empty(e.intros));
    lemma_contains_append(h1, crate::themes::spec_paras(opt_or_empty(e.intros)), x);
    let h3 = h2 + crate::themes::spec_dict(opt_or_empty(e.dictionary));
    lemma_contains_append(h2, crate::themes::spec_dict(opt_or_empty(e.dictionary)), x);
    let h4 = h3 + crate::themes::spec_tables_block(opt_or_empty(e.tables));
    lemma_contains_append(h3, crate::themes::spec_tables_block(opt_or_empty(e.tables)), x);
    let h5 = h4 + spec_actions_html(b.trouble_text, opt_or_empty(e.actions));
    lemma_contains_append(h4, spec_actions_html(b.trouble_text, opt_or_empty(e.actions)), x);
    let h6 = h5 + crate::themes::spec_paras(opt_or_empty(e.outros));
    lemma_contains_append(h5, crate::themes::spec_paras(opt_or_empty(e.outros)), x);
    let h7 = h6 + crate::themes::spec_opt_para(e.signature);
    lemma_contains_append(h6, crate::themes::spec_opt_para(e.signature), x);
    let h8 = h7 + crate::themes::spec_opt_para(b.copyright);
    lemma_contains_append(h7, crate::themes::spec_opt_para(b.copyright), x);
    lemma_contains_append(h8, "</body></html>"@, x);
    assert(spec_html_markup(b, e, h) == h8 + "</body></html>"@);
}

/// The escaped, substituted help text one action shows: the trouble text
/// with every `{ACTION}` marker replaced by the action's label.
pub open spec fn spec_trouble_shown(trouble: Seq<char>, a: ActionView) -> Seq<char> {
    spec_escape(spec_trouble_line(trouble, a))
}

/// Every action's block in the HTML actions markup contains its
/// substituted help text.
proof fn lemma_actions_html_contains_trouble(trouble: Seq<char>, acts: Seq<ActionView>, k: int)
    requires
        0 <= k < acts.len(),
    ensures
        contains_seq(spec_actions_html(trouble, acts), spec_trouble_shown(trouble, acts[k])),
    decreases k,
{
    let x = spec_trouble_shown(trouble, acts[k]);
    if k == 0 {
        let a = acts[0];
        let a0 = (match a.instructions {
            Some(ins) => "<p>"@ + spec_escape(ins) + "</p>"@,
            None => Seq::<char>::empty(),
        }) + "<a href=\""@ + spec_escape(a.link) + "\""@ + (match a.color {
            Some((fg, bg)) => " style=\"color:"@ + spec_escape(fg) + ";background-color:"@
                + spec_escape(bg) + "\""@,
            None => Seq::<char>::empty(),
        }) + ">"@ + spec_escape(a.text) + "</a><p>"@;
        lemma_contains_middle(a0, x, "</p><p>"@);
        let a1 = a0 + x + "</p><p>"@;
        lemma_contains_append(a1, spec_escape(a.link), x);
        lemma_contains_append(a1 + spec_escape(a.link), "</p>"@, x);
        assert(spec_action_html(trouble, a) == a1 + spec_escape(a.link) + "</p>"@);
        lemma_contains_append(
            spec_action_html(trouble, a),
            spec_actions_html(trouble, acts.skip(1)),
            x,
        );
    } else {
        lemma_actions_html_contains_trouble(trouble, acts.skip(1), k - 1);
        assert(acts.skip(1)[k - 1] == acts[k]);
        lemma_contains_prepend(
            spec_action_html(trouble, acts[0]),
            spec_actions_html(trouble, acts.skip(1)),
            x,
        );
    }
}

/// Every action's block in the text actions markup contains its
/// substituted help text.
proof fn lemma_actions_text_contains_trouble(trouble: Seq<char>, acts: Seq<ActionView>, k: int)
    requires
        0 <= k < acts.len(),
    ensures
        contains_seq(spec_actions_text(trouble, acts), spec_trouble_shown(trouble, acts[k])),
    decreases k,
{
    let x = spec_trouble_shown(trouble, acts[k]);
    if k == 0 {
        let a = acts[0];
        let a0 = (match a.instructions {
            Some(ins) => "<p>"@ + spec_escape(ins) + "</p>"@,
            None => Seq::<char>::empty(),
        }) + "<p>"@ + spec_escape(a.text) + ": "@ + spec_escape(a.link) + "</p><p>"@;
        lemma_contains_middle(a0, x, "</p>"@);
        assert(spec_action_text(trouble, a) == a0 + x + "</p>"@);
        lemma_contains_append(
            spec_action_text(trouble, a),
            spec_actions_text(trouble, acts.skip(1)),
            x,
        );
    } else {
        lemma_actions_text_contains_trouble(trouble, acts.skip(1), k - 1);
        assert(acts.skip(1)[k - 1] == acts[k]);
        lemma_contains_prepend(
            spec_action_text(trouble, acts[0]),
            spec_actions_text(trouble, acts.skip(1)),
            x,
        );
    }
}

/// Law: for every action in the email, the default theme's markup, text
/// and HTML alike, contains the branding's trouble text with each
/// `{ACTION}` marker replaced by that action's label.
pub proof fn lemma_trouble_substituted(b: BrandingView, e: EmailView, acts: Seq<ActionView>, k: int, h: nat)
    requires
        e.actions == Some(acts),
        0 <= k < acts.len(),
    ensures
        contains_seq(spec_text_markup(b, e), spec_trouble_shown(b.trouble_text, acts[k])),
        contains_seq(spec_html_markup(b, e, h), spec_trouble_shown(b.trouble_text, acts[k])),
{
    let x = spec_trouble_shown(b.trouble_text, acts[k]);
    lemma_actions_text_contains_trouble(b.trouble_text, acts, k);
    lemma_actions_html_contains_trouble(b.trouble_text, acts, k);

    let t0 = "<html><body>"@ + spec_greeting_block(e.greeting) + crate::themes::spec_paras(
        opt_or_empty(e.intros),
    ) + crate::themes::spec_dict(opt_or_empty(e.dictionary)) + crate::themes::spec_tables_block(
        opt_or_empty(e.tables),
    );
    lemma_contains_prepend(t0, spec_actions_text(b.trouble_text, acts), x);
    let t1 = t0 + spec_actions_text(b.trouble_text, acts);
    let t2 = t1 + crate::themes::spec_paras(opt_or_empty(e.outros));
    lemma_contains_append(t1, crate::themes::spec_paras(opt_or_empty(e.outros)), x);
    let t3 = t2 + crate::themes::spec_opt_para(e.signature);
    lemma_contains_append(t2, crate::themes::spec_opt_para(e.signature), x);
    let t4 = t3 + crate::themes::spec_opt_para(b.copyright);
    lemma_contains_append(t3, crate::themes::spec_opt_para(b.copyright), x);
    lemma_contains_append(t4, "</body></html>"@, x);
    assert(spec_text_markup(b, e) == t4 + "</body></html>"@);

    let h0 = crate::themes::spec_html_open() + crate::themes::spec_summary_block(e.summary)
        + crate::themes::spec_header_block(b, h) + spec_greeting_block(e.greeting)
        + crate::themes::spec_paras(opt_or_empty(e.intros)) + crate::themes::spec_dict(
        opt_or_empty(e.dictionary),
    ) + crate::themes::spec_tables_block(opt_or_empty(e.tables));
    lemma_contains_prepend(h0, spec_actions_html(b.trouble_text, acts), x);
    let h1 = h0 + spec_actions_html(b.trouble_text, acts);
    let h2 = h1 + crate::themes::spec_paras(opt_or_empty(e.outros));
    lemma_contains_append(h1, crate::themes::spec_paras(opt_or_empty(e.outros)), x);
    let h3 = h2 + crate::themes::spec_opt_para(e.signature);
    lemma_contains_append(h2, crate::themes::spec_opt_para(e.signature), x);
    let h4 = h3 + crate::themes::spec_opt_para(b.copyright);
    lemma_contains_append(h3, crate::themes::spec_opt_para(b.copyright), x);
    lemma_contains_append(h4, "</body></html>"@, x);
    assert(spec_html_markup(b, e, h) == h4 + "</body></html>"@);
}

/// Whether some row of a table holds the key `k`.
pub open spec fn spec_rows_have_key(rows: Seq<Seq<(Seq<char>, Seq<char>)>>, k: Seq<char>) -> bool {
    exists|i: int, j: int|
        0 <= i < rows.len() && 0 <= j < rows[i].len() && (#[trigger] rows[i][j]).0 == k
}

/// Membership in the accumulated columns after inserting one key.
proof fn lemma_insert_col_membership(acc: Seq<Seq<char>>, x: Seq<char>, k: Seq<char>)
    ensures
        spec_insert_col(acc, x).contains(k) <==> acc.contains(k) || k == x,
{
    if !acc.contains(x) {
        let pushed = acc.push(x);
        if k == x {
            assert(pushed[acc.len() as int] == k);
            assert(pushed.contains(k));
        }
        if pushed.contains(k) && k != x {
            let i = choose|i: int| 0 <= i < pushed.len() && pushed[i] == k;
            assert(acc[i] == k);
        }
        if acc.contains(k) {
            let i = choose|i: int| 0 <= i < acc.len() && acc[i] == k;
            assert(pushed[i] == k);
        }
    }
}

/// Membership in the accumulated columns after folding one row.
proof fn lemma_row_cols_membership(
    acc: Seq<Seq<char>>,
    row: Seq<(Seq<char>, Seq<char>)>,
    k: Seq<char>,
)
    ensures
        spec_row_cols(acc, row).contains(k) <==> acc.contains(k) || (exists|j: int|
            0 <= j < row.len() && (#[trigger] row[j]).0 == k),
    decreases row.len(),
{
    if row.len() == 0 {
    } else {
        let acc1 = spec_insert_col(acc, row[0].0);
        lemma_insert_col_membership(acc, row[0].0, k);
        lemma_row_cols_membership(acc1, row.skip(1), k);
        assert forall|j: int| 1 <= j < row.len() implies row.skip(1)[j - 1] == #[trigger] row[j] by {}
        if exists|j: int| 0 <= j < row.len() && (#[trigger] row[j]).0 == k {
            let j = choose|j: int| 0 <= j < row.len() && (#[trigger] row[j]).0 == k;
            if j > 0 {
                assert(row.skip(1)[j - 1].0 == k);
            }
        }
        if exists|j: int| 0 <= j < row.skip(1).len() && (#[trigger] row.skip(1)[j]).0 == k {
            let j = choose|j: int| 0 <= j < row.skip(1).len() && (#[trigger] row.skip(1)[j]).0 == k;
            assert(row[j + 1].0 == k);
        }
    }
}

/// Membership in the accumulated columns after folding every row.
proof fn lemma_columns_from_membership(
    acc: Seq<Seq<char>>,
    rows: Seq<Seq<(Seq<char>, Seq<char>)>>,
    k: Seq<char>,
)
    ensures
        spec_columns_from(acc, rows).contains(k) <==> acc.contains(k) || spec_rows_have_key(
            rows,
            k,
        ),
    decreases rows.len(),
{
    if rows.len() == 0 {
    } else {
        let acc1 = spec_row_cols(acc, rows[0]);
        lemma_row_cols_membership(acc, rows[0], k);
        lemma_columns_from_membership(acc1, rows.skip(1), k);
        assert forall|i: int| 1 <= i < rows.len() implies rows.skip(1)[i - 1] == #[trigger] rows[i] by {}
        if spec_rows_have_key(rows, k) {
            let (i, j) = choose|i: int, j: int|
                0 <= i < rows.len() && 0 <= j < rows[i].len() && (#[trigger] rows[i][j]).0 == k;
            if i > 0 {
                assert(rows.skip(1)[i - 1][j].0 == k);
                assert(spec_rows_have_key(rows.skip(1), k));
            } else {
                assert(rows[0][j].0 == k);
            }
        }
        if spec_rows_have_key(rows.skip(1), k) {
            let (i, j) = choose|i: int, j: int|
                0 <= i < rows.skip(1).len() && 0 <= j < rows.skip(1)[i].len() && (#[trigger] rows.skip(
                    1,
                )[i][j]).0 == k;
            assert(rows[i + 1][j].0 == k);
        }
        if exists|j: int| 0 <= j < rows[0].len() && (#[trigger] rows[0][j]).0 == k {
            let j = choose|j: int| 0 <= j < rows[0].len() && (#[trigger] rows[0][j]).0 == k;
            assert(spec_rows_have_key(rows, k));
        }
    }
}

/// Law: a table's rendered columns are exactly the keys its rows hold —
/// a name is a column if and only if some row carries a cell under it.
pub proof fn lemma_columns_complete(rows: Seq<Seq<(Seq<char>, Seq<char>)>>, k: Seq<char>)
    ensures
        spec_columns(rows).contains(k) <==> spec_rows_have_key(rows, k),
{
    lemma_columns_from_membership(Seq::empty(), rows, k);
}

/// No name occurs twice in a column list.
pub open spec fn spec_no_dup(s: Seq<Seq<char>>) -> bool {
    forall|p: int, q: int| 0 <= p < q < s.len() ==> s[p] != s[q]
}

/// Inserting a key keeps the column list free of duplicates.
proof fn lemma_insert_col_no_dup(acc: Seq<Seq<char>>, x: Seq<char>)
    requires
        spec_no_dup(acc),
    ensures
        spec_no_dup(spec_insert_col(acc, x)),
{
    if !acc.contains(x) {
        let pushed = acc.push(x);
        assert forall|p: int, q: int| 0 <= p < q < pushed.len() implies pushed[p] != pushed[q] by {
            if q == acc.len() {
                assert(pushed[p] == acc[p]);
                if acc[p] == x {
                    assert(acc.contains(x));
                }
            }
        }
    }
}

/// Folding one row keeps the column list free of duplicates.
proof fn lemma_row_cols_no_dup(acc: Seq<Seq<char>>, row: Seq<(Seq<char>, Seq<char>)>)
    requires
        spec_no_dup(acc),
    ensures
        spec_no_dup(spec_row_cols(acc, row)),
    decreases row.len(),
{
    if row.len() == 0 {
    } else {
        lemma_insert_col_no_dup(acc, row[0].0);
        lemma_row_cols_no_dup(spec_insert_col(acc, row[0].0), row.skip(1));
    }
}

/// Folding every row keeps the column list free of duplicates.
proof fn lemma_columns_from_no_dup(acc: Seq<Seq<char>>, rows: Seq<Seq<(Seq<char>, Seq<char>)>>)
    requires
        spec_no_dup(acc),
    ensures
        spec_no_dup(spec_columns_from(acc, rows)),
    decreases rows.len(),
{
    if rows.len() == 0 {
    } else {
        lemma_row_cols_no_dup(acc, rows[0]);
        lemma_columns_from_no_dup(spec_row_cols(acc, rows[0]), rows.skip(1));
    }
}

/// Law: no column name is rendered twice, however often rows repeat it.
pub proof fn lemma_columns_unique(rows: Seq<Seq<(Seq<char>, Seq<char>)>>)
    ensures
        spec_no_dup(spec_columns(rows)),
{
    lemma_columns_from_no_dup(Seq::empty(), rows);
}

} // verus!
