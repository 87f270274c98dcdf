use vstd::prelude::*;

use crate::email::{Action, ActionView, Email, EmailView, Table, TableColumns, TableColumnsView, TableView};
use crate::email::spec_greeting_text;
use crate::error::TemplateError;
use crate::strutil::{escape_html, lookup, replace_all, spec_decimal, spec_escape, spec_lookup, spec_replace, u32_to_string, vec_contains_str};
use crate::themes::{ContextView, TemplateContext, Theme};
use crate::BrandingView;

verus! {

/// The elements of an optional sequence, none when it is absent.
pub open spec fn opt_or_empty<T>(o: Option<Seq<T>>) -> Seq<T> {
    match o {
        Some(s) => s,
        None => Seq::empty(),
    }
}

/// The marker inside a branding's trouble text that is substituted with
/// the action's label at render time.
pub open spec fn spec_action_marker() -> Seq<char> {
    "{ACTION}"@
}

/// The markup of a list of paragraphs.
pub open spec fn spec_paras(items: Seq<Seq<char>>) -> Seq<char>
    decreases items.len(),
{
    if items.len() == 0 {
        Seq::empty()
    } else {
        "<p>"@ + spec_escape(items[0]) + "</p>"@ + spec_paras(items.skip(1))
    }
}

/// The markup of a list of (key, value) pairs.
pub open spec fn spec_dict(items: Seq<(Seq<char>, Seq<char>)>) -> Seq<char>
    decreases items.len(),
{
    if items.len() == 0 {
        Seq::empty()
    } else {
        "<p>"@ + spec_escape(items[0].0) + ": "@ + spec_escape(items[0].1) + "</p>"@ + spec_dict(
            items.skip(1),
        )
    }
}

/// The markup of the salutation, when one is present.
pub open spec fn spec_greeting_block(g: Option<crate::GreetingView>) -> Seq<char> {
    match g {
        Some(gg) => "<p>"@ + spec_escape(spec_greeting_text(gg)) + "</p>"@,
        None => Seq::empty(),
    }
}

/// The column names of a table: the union of the keys over all rows, in
/// first-seen order, starting from `acc`.
pub open spec fn spec_insert_col(acc: Seq<Seq<char>>, k: Seq<char>) -> Seq<Seq<char>> {
    if acc.contains(k) {
        acc
    } else {
        acc.push(k)
    }
}

/// Folds one row's keys into the accumulated column names.
pub open spec fn spec_row_cols(acc: Seq<Seq<char>>, row: Seq<(Seq<char>, Seq<char>)>) -> Seq<
    Seq<char>,
>
    decreases row.len(),
{
    if row.len() == 0 {
        acc
    } else {
        spec_row_cols(spec_insert_col(acc, row[0].0), row.skip(1))
    }
}

/// Folds every row's keys into the accumulated column names.
pub open spec fn spec_columns_from(
    acc: Seq<Seq<char>>,
    rows: Seq<Seq<(Seq<char>, Seq<char>)>>,
) -> Seq<Seq<char>>
    decreases rows.len(),
{
    if rows.len() == 0 {
        acc
    } else {
        spec_columns_from(spec_row_cols(acc, rows[0]), rows.skip(1))
    }
}

/// The rendered columns of a table: the union of the keys over all rows,
/// in first-seen order.
pub open spec fn spec_columns(rows: Seq<Seq<(Seq<char>, Seq<char>)>>) -> Seq<Seq<char>> {
    spec_columns_from(Seq::empty(), rows)
}

/// The cell a row shows under a column: the row's value for that column
/// name, empty when the row has none.
pub open spec fn spec_cell(row: Seq<(Seq<char>, Seq<char>)>, col: Seq<char>) -> Seq<char> {
    match spec_lookup(row, col) {
        Some(v) => v,
        None => Seq::empty(),
    }
}

/// The value of an optional per-column override table.
pub open spec fn spec_columns_view<'a>(o: Option<TableColumns<'a>>) -> Option<TableColumnsView> {
    match o {
        Some(c) => Some(c@),
        None => None,
    }
}

/// The width attribute of a header cell, when an override names its
/// column.
pub open spec fn spec_width_attr(conf: Option<TableColumnsView>, col: Seq<char>) -> Seq<char> {
    match conf {
        None => Seq::empty(),
        Some(c) => match c.custom_width {
            None => Seq::empty(),
            Some(ps) => match spec_lookup(ps, col) {
                Some(w) => " width=\""@ + spec_escape(w) + "\""@,
                None => Seq::empty(),
            },
        },
    }
}

/// The alignment attribute of a header cell, when an override names its
/// column.
pub open spec fn spec_align_attr(conf: Option<TableColumnsView>, col: Seq<char>) -> Seq<char> {
    match conf {
        None => Seq::empty(),
        Some(c) => match c.custom_alignment {
            None => Seq::empty(),
            Some(ps) => match spec_lookup(ps, col) {
                Some(a) => " align=\""@ + spec_escape(a) + "\""@,
                None => Seq::empty(),
            },
        },
    }
}

/// The markup of a table's header cells.
pub open spec fn spec_header_cells(
    cols: Seq<Seq<char>>,
    conf: Option<TableColumnsView>,
) -> Seq<char>
    decreases cols.len(),
{
    if cols.len() == 0 {
        Seq::empty()
    } else {
        "<th"@ + spec_width_attr(conf, cols[0]) + spec_align_attr(conf, cols[0]) + ">"@
            + spec_escape(cols[0]) + "</th>"@ + spec_header_cells(cols.skip(1), conf)
    }
}

/// The markup of one row's cells, one per rendered column.
pub open spec fn spec_row_cells(row: Seq<(Seq<char>, Seq<char>)>, cols: Seq<Seq<char>>) -> Seq<
    char,
>
    decreases cols.len(),
{
    if cols.len() == 0 {
        Seq::empty()
    } else {
        "<td>"@ + spec_escape(spec_cell(row, cols[0])) + "</td>"@ + spec_row_cells(
            row,
            cols.skip(1),
        )
    }
}

/// The markup of a table's body rows.
pub open spec fn spec_rows(rows: Seq<Seq<(Seq<char>, Seq<char>)>>, cols: Seq<Seq<char>>) -> Seq<
    char,
>
    decreases rows.len(),
{
    if rows.len() == 0 {
        Seq::empty()
    } else {
        "<tr>"@ + spec_row_cells(rows[0], cols) + "</tr>"@ + spec_rows(rows.skip(1), cols)
    }
}

/// The markup of one table: its title, a header row over the union of the
/// rows' columns in first-seen order, and one body row per data row with
/// missing cells empty.
pub open spec fn spec_table_markup(t: TableView) -> Seq<char> {
    "<h3>"@ + spec_escape(t.title) + "</h3><table><tr>"@ + spec_header_cells(
        spec_columns(t.data),
        t.columns,
    ) + "</tr>"@ + spec_rows(t.data, spec_columns(t.data)) + "</table>"@
}

/// The markup of a list of tables.
pub open spec fn spec_tables_block(ts: Seq<TableView>) -> Seq<char>
    decreases ts.len(),
{
    if ts.len() == 0 {
        Seq::empty()
    } else {
        spec_table_markup(ts[0]) + spec_tables_block(ts.skip(1))
    }
}

/// The help text rendered under an action: the branding's trouble text
/// with every `{ACTION}` marker replaced by the action's label.
pub open spec fn spec_trouble_line(trouble: Seq<char>, a: ActionView) -> Seq<char> {
    spec_replace(trouble, spec_action_marker(), a.text)
}

/// The HTML markup of one action: its lead-in sentence when present, a
/// button carrying its colors when present, the substituted help text, and
/// the raw link.
pub open spec fn spec_action_html(trouble: Seq<char>, a: ActionView) -> Seq<char> {
    (match a.instructions {
        Some(ins) => "<p>"@ + spec_escape(ins) + "</p>"@,
        None => Seq::empty(),
    }) + "<a href=\""@ + spec_escape(a.link) + "\""@ + (match a.color {
        Some((fg, bg)) => " style=\"color:"@ + spec_escape(fg) + ";background-color:"@
            + spec_escape(bg) + "\""@,
        None => Seq::empty(),
    }) + ">"@ + spec_escape(a.text) + "</a><p>"@ + spec_escape(spec_trouble_line(trouble, a))
        + "</p><p>"@ + spec_escape(a.link) + "</p>"@
}

/// The HTML markup of a list of actions.
pub open spec fn spec_actions_html(trouble: Seq<char>, acts: Seq<ActionView>) -> Seq<char>
    decreases acts.len(),
{
    if acts.len() == 0 {
        Seq::empty()
    } else {
        spec_action_html(trouble, acts[0]) + spec_actions_html(trouble, acts.skip(1))
    }
}

/// The text-oriented markup of one action: its lead-in sentence when
/// present, its label and link, and the substituted help text.
pub open spec fn spec_action_text(trouble: Seq<char>, a: ActionView) -> Seq<char> {
    (match a.instructions {
        Some(ins) => "<p>"@ + spec_escape(ins) + "</p>"@,
        None => Seq::empty(),
    }) + "<p>"@ + spec_escape(a.text) + ": "@ + spec_escape(a.link) + "</p><p>"@ + spec_escape(
        spec_trouble_line(trouble, a),
    ) + "</p>"@
}

/// The text-oriented markup of a list of actions.
pub open spec fn spec_actions_text(trouble: Seq<char>, acts: Seq<ActionView>) -> Seq<char>
    decreases acts.len(),
{
    if acts.len() == 0 {
        Seq::empty()
    } else {
        spec_action_text(trouble, acts[0]) + spec_actions_text(trouble, acts.skip(1))
    }
}

/// The markup of the inbox-preview line, when one is present.
pub open spec fn spec_summary_block(s: Option<Seq<char>>) -> Seq<char> {
    match s {
        Some(t) => "<span style=\"display:none\">"@ + spec_escape(t) + "</span>"@,
        None => Seq::empty(),
    }
}

/// The markup of the message header: the branded product name linked to
/// its site, and the logo, bounded in height, when one is set.
pub open spec fn spec_header_block(b: BrandingView, logo_max_height: nat) -> Seq<char> {
    "<p><a href=\""@ + spec_escape(b.link) + "\">"@ + spec_escape(b.name) + "</a></p>"@ + (
    match b.logo {
        Some(l) => "<img src=\""@ + spec_escape(l) + "\" style=\"max-height:"@ + spec_decimal(
            logo_max_height,
        ) + "px\">"@,
        None => Seq::empty(),
    })
}

/// The markup of an optional closing paragraph (signature or copyright).
pub open spec fn spec_opt_para(s: Option<Seq<char>>) -> Seq<char> {
    match s {
        Some(t) => "<p>"@ + spec_escape(t) + "</p>"@,
        None => Seq::empty(),
    }
}

/// The opening of the HTML document, embedded stylesheet included.
pub open spec fn spec_html_open() -> Seq<char> {
    "<!DOCTYPE html><html><head><meta charset=\"utf-8\"><style>body{font-family:Helvetica,Arial,sans-serif;color:#51545e}p{margin:10px 0}a{color:#3869d4}th,td{padding:4px 8px}</style></head><body>"@
}

/// The HTML markup of a whole message: header, salutation, intros,
/// dictionary, tables, actions, outros, signature and copyright, in that
/// order.
pub open spec fn spec_html_markup(b: BrandingView, e: EmailView, logo_max_height: nat) -> Seq<
    char,
> {
    spec_html_open() + spec_summary_block(e.summary) + spec_header_block(b, logo_max_height)
        + spec_greeting_block(e.greeting) + spec_paras(opt_or_empty(e.intros)) + spec_dict(
        opt_or_empty(e.dictionary),
    ) + spec_tables_block(opt_or_empty(e.tables)) + spec_actions_html(
        b.trouble_text,
        opt_or_empty(e.actions),
    ) + spec_paras(opt_or_empty(e.outros)) + spec_opt_para(e.signature) + spec_opt_para(
        b.copyright,
    ) + "</body></html>"@
}

/// The text-oriented markup of a whole message: the same content in the
/// same order, as a plain skeleton for the text conversion.
pub open spec fn spec_text_markup(b: BrandingView, e: EmailView) -> Seq<char> {
    "<html><body>"@ + spec_greeting_block(e.greeting) + spec_paras(opt_or_empty(e.intros))
        + spec_dict(opt_or_empty(e.dictionary)) + spec_tables_block(opt_or_empty(e.tables))
        + spec_actions_text(b.trouble_text, opt_or_empty(e.actions)) + spec_paras(
        opt_or_empty(e.outros),
    ) + spec_opt_para(e.signature) + spec_opt_para(b.copyright) + "</body></html>"@
}

/// Renders a list of paragraphs.
fn render_paras(items: &Vec<&str>) -> (r: String)
    ensures
        r@ == spec_paras(items.deep_view()),
{
    let ghost dv = items.deep_view();
    let mut out = String::new();
    let mut i: usize = 0;
    proof {
        assert(dv.skip(0) =~= dv);
        assert(Seq::<char>::empty() + spec_paras(dv) =~= spec_paras(dv));
    }
    while i < items.len()
        invariant
            i <= items.len(),
            dv == items.deep_view(),
            dv.len() == items.len(),
            spec_paras(dv) == out@ + spec_paras(dv.skip(i as int)),
        decreases items.len() - i,
    {
        let ghost out0 = out@;
        proof {
            assert(dv.skip(i as int)[0] == dv[i as int]);
            assert(dv.skip(i as int).skip(1) =~= dv.skip(i + 1));
            assert(dv[i as int] == items@[i as int]@);
        }
        let e = escape_html(items[i]);
        out.append("<p>");
        out.append(e.as_str());
        out.append("</p>");
        proof {
            assert(out@ + spec_paras(dv.skip(i + 1)) =~= out0 + spec_paras(dv.skip(i as int)));
        }
        i += 1;
    }
    proof {
        assert(dv.skip(items@.len() as int) =~= Seq::<Seq<char>>::empty());
        assert(out@ + Seq::<char>::empty() =~= out@);
    }
    out
}

/// Renders a list of (key, value) pairs.
fn render_dict(items: &Vec<(&str, &str)>) -> (r: String)
    ensures
        r@ == spec_dict(items.deep_view()),
{
    let ghost dv = items.deep_view();
    let mut out = String::new();
    let mut i: usize = 0;
    proof {
        assert(dv.skip(0) =~= dv);
        assert(Seq::<char>::empty() + spec_dict(dv) =~= spec_dict(dv));
    }
    while i < items.len()
        invariant
            i <= items.len(),
            dv == items.deep_view(),
            dv.len() == items.len(),
            spec_dict(dv) == out@ + spec_dict(dv.skip(i as int)),
        decreases items.len() - i,
    {
        let ghost out0 = out@;
        proof {
            assert(dv.skip(i as int)[0] == dv[i as int]);
            assert(dv.skip(i as int).skip(1) =~= dv.skip(i + 1));
            assert(dv[i as int] == (items@[i as int].0@, items@[i as int].1@));
        }
        let (k, v) = items[i];
        let ke = escape_html(k);
        let ve = escape_html(v);
        out.append("<p>");
        out.append(ke.as_str());
        out.append(": ");
        out.append(ve.as_str());
        out.append("</p>");
        proof {
            assert(out@ + spec_dict(dv.skip(i + 1)) =~= out0 + spec_dict(dv.skip(i as int)));
        }
        i += 1;
    }
    proof {
        assert(dv.skip(items@.len() as int) =~= Seq::<(Seq<char>, Seq<char>)>::empty());
        assert(out@ + Seq::<char>::empty() =~= out@);
    }
    out
}

/// Collects one row's keys into the accumulated column names, keeping the
/// first-seen order and dropping keys already present.
fn add_row_cols(cols: &mut Vec<String>, row: &Vec<(&str, &str)>)
    ensures
        final(cols).deep_view() == spec_row_cols(old(cols).deep_view(), row.deep_view()),
{
    let ghost rv = row.deep_view();
    let ghost start = cols.deep_view();
    let mut j: usize = 0;
    proof {
        assert(rv.skip(0) =~= rv);
    }
    while j < row.len()
        invariant
            j <= row.len(),
            rv == row.deep_view(),
            rv.len() == row.len(),
            spec_row_cols(start, rv) == spec_row_cols(cols.deep_view(), rv.skip(j as int)),
        decreases row.len() - j,
    {
        let ghost acc = cols.deep_view();
        proof {
            assert(rv.skip(j as int)[0] == rv[j as int]);
            assert(rv.skip(j as int).skip(1) =~= rv.skip(j + 1));
            assert(rv[j as int] == (row@[j as int].0@, row@[j as int].1@));
        }
        let (k, _) = row[j];
        if !vec_contains_str(cols, k) {
            cols.push(String::from_str(k));
            proof {
                assert(cols.deep_view() =~= acc.push(k@));
            }
        }
        proof {
            assert(cols.deep_view() == spec_insert_col(acc, rv[j as int].0));
        }
        j += 1;
    }
    proof {
        assert(rv.skip(row@.len() as int) =~= Seq::<(Seq<char>, Seq<char>)>::empty());
    }
}

/// Computes a table's rendered columns: the union of the keys over all
/// rows, in first-seen order.
fn column_union(data: &Vec<Vec<(&str, &str)>>) -> (r: Vec<String>)
    ensures
        r.deep_view() == spec_columns(data.deep_view()),
{
    let ghost dv = data.deep_view();
    let mut cols: Vec<String> = Vec::new();
    let mut i: usize = 0;
    proof {
        assert(dv.skip(0) =~= dv);
        assert(cols.deep_view() =~= Seq::<Seq<char>>::empty());
    }
    while i < data.len()
        invariant
            i <= data.len(),
            dv == data.deep_view(),
            dv.len() == data.len(),
            spec_columns(dv) == spec_columns_from(cols.deep_view(), dv.skip(i as int)),
        decreases data.len() - i,
    {
        proof {
            assert(dv.skip(i as int)[0] == dv[i as int]);
            assert(dv.skip(i as int).skip(1) =~= dv.skip(i + 1));
            assert(dv[i as int] == data@[i as int].deep_view());
        }
        add_row_cols(&mut cols, &data[i]);
        i += 1;
    }
    proof {
        assert(dv.skip(data@.len() as int) =~= Seq::<Seq<(Seq<char>, Seq<char>)>>::empty());
    }
    cols
}

/// Renders the width attribute a column's header cell carries, if any.
fn render_width_attr(conf: &Option<TableColumns<'_>>, col: &str) -> (r: String)
    ensures
        r@ == spec_width_attr(spec_columns_view(*conf), col@),
{
    match conf {
        Some(c) => match &c.custom_width {
            Some(ps) => match lookup(ps, col) {
                Some(w) => {
                    let we = escape_html(w);
                    let mut out = String::from_str(" width=\"");
                    out.append(we.as_str());
                    out.append("\"");
                    out
                },
                None => String::new(),
            },
            None => String::new(),
        },
        None => String::new(),
    }
}

/// Renders the alignment attribute a column's header cell carries, if any.
fn render_align_attr(conf: &Option<TableColumns<'_>>, col: &str) -> (r: String)
    ensures
        r@ == spec_align_attr(spec_columns_view(*conf), col@),
{
    match conf {
        Some(c) => match &c.custom_alignment {
            Some(ps) => match lookup(ps, col) {
                Some(a) => {
                    let ae = escape_html(a);
                    let mut out = String::from_str(" align=\"");
                    out.append(ae.as_str());
                    out.append("\"");
                    out
                },
                None => String::new(),
            },
            None => String::new(),
        },
        None => String::new(),
    }
}

/// Renders a table's header cells over its rendered columns.
fn render_header_cells(cols: &Vec<String>, conf: &Option<TableColumns<'_>>) -> (r: String)
    ensures
        r@ == spec_header_cells(cols.deep_view(), spec_columns_view(*conf)),
{
    let ghost cv = cols.deep_view();
    let ghost confv = spec_columns_view(*conf);
    let mut out = String::new();
    let mut i: usize = 0;
    proof {
        assert(cv.skip(0) =~= cv);
        assert(Seq::<char>::empty() + spec_header_cells(cv, confv) =~= spec_header_cells(
            cv,
            confv,
        ));
    }
    while i < cols.len()
        invariant
            i <= cols.len(),
            cv == cols.deep_view(),
            confv == spec_columns_view(*conf),
            cv.len() == cols.len(),
            spec_header_cells(cv, confv) == out@ + spec_header_cells(cv.skip(i as int), confv),
        decreases cols.len() - i,
    {
        let ghost out0 = out@;
        proof {
            assert(cv.skip(i as int)[0] == cv[i as int]);
            assert(cv.skip(i as int).skip(1) =~= cv.skip(i + 1));
            assert(cv[i as int] == cols@[i as int]@);
        }
        let w = render_width_attr(conf, cols[i].as_str());
        let a = render_align_attr(conf, cols[i].as_str());
        let e = escape_html(cols[i].as_str());
        out.append("<th");
        out.append(w.as_str());
        out.append(a.as_str());
        out.append(">");
        out.append(e.as_str());
        out.append("</th>");
        proof {
            assert(out@ + spec_header_cells(cv.skip(i + 1), confv) =~= out0 + spec_header_cells(
                cv.skip(i as int),
                confv,
            ));
        }
        i += 1;
    }
    proof {
        assert(cv.skip(cols@.len() as int) =~= Seq::<Seq<char>>::empty());
        assert(out@ + Seq::<char>::empty() =~= out@);
    }
    out
}

/// Renders one row's cells, one per rendered column, missing cells empty.
fn render_row_cells(row: &Vec<(&str, &str)>, cols: &Vec<String>) -> (r: String)
    ensures
        r@ == spec_row_cells(row.deep_view(), cols.deep_view()),
{
    let ghost rv = row.deep_view();
    let ghost cv = cols.deep_view();
    let mut out = String::new();
    let mut i: usize = 0;
    proof {
        assert(cv.skip(0) =~= cv);
        assert(Seq::<char>::empty() + spec_row_cells(rv, cv) =~= spec_row_cells(rv, cv));
    }
    while i < cols.len()
        invariant
            i <= cols.len(),
            rv == row.deep_view(),
            cv == cols.deep_view(),
            cv.len() == cols.len(),
            spec_row_cells(rv, cv) == out@ + spec_row_cells(rv, cv.skip(i as int)),
        decreases cols.len() - i,
    {
        let ghost out0 = out@;
        proof {
            assert(cv.skip(i as int)[0] == cv[i as int]);
            assert(cv.skip(i as int).skip(1) =~= cv.skip(i + 1));
            assert(cv[i as int] == cols@[i as int]@);
        }
        let cell = match lookup(row, cols[i].as_str()) {
            Some(v) => escape_html(v),
            None => String::new(),
        };
        proof {
            assert(spec_escape(Seq::<char>::empty()) == Seq::<char>::empty());
            assert(cell@ == spec_escape(spec_cell(rv, cv[i as int])));
        }
        out.append("<td>");
        out.append(cell.as_str());
        out.append("</td>");
        proof {
            assert(out@ + spec_row_cells(rv, cv.skip(i + 1)) =~= out0 + spec_row_cells(
                rv,
                cv.skip(i as int),
            ));
        }
        i += 1;
    }
    proof {
        assert(cv.skip(cols@.len() as int) =~= Seq::<Seq<char>>::empty());
        assert(out@ + Seq::<char>::empty() =~= out@);
    }
    out
}

/// Renders a table's body rows.
fn render_rows(data: &Vec<Vec<(&str, &str)>>, cols: &Vec<String>) -> (r: String)
    ensures
        r@ == spec_rows(data.deep_view(), cols.deep_view()),
{
    let ghost dv = data.deep_view();
    let ghost cv = cols.deep_view();
    let mut out = String::new();
    let mut i: usize = 0;
    proof {
        assert(dv.skip(0) =~= dv);
        assert(Seq::<char>::empty() + spec_rows(dv, cv) =~= spec_rows(dv, cv));
    }
    while i < data.len()
        invariant
            i <= data.len(),
            dv == data.deep_view(),
            cv == cols.deep_view(),
            dv.len() == data.len(),
            spec_rows(dv, cv) == out@ + spec_rows(dv.skip(i as int), cv),
        decreases data.len() - i,
    {
        let ghost out0 = out@;
        proof {
            assert(dv.skip(i as int)[0] == dv[i as int]);
            assert(dv.skip(i as int).skip(1) =~= dv.skip(i + 1));
            assert(dv[i as int] == data@[i as int].deep_view());
        }
        let cells = render_row_cells(&data[i], cols);
        out.append("<tr>");
        out.append(cells.as_str());
        out.append("</tr>");
        proof {
            assert(out@ + spec_rows(dv.skip(i + 1), cv) =~= out0 + spec_rows(
                dv.skip(i as int),
                cv,
            ));
        }
        i += 1;
    }
    proof {
        assert(dv.skip(data@.len() as int) =~= Seq::<Seq<(Seq<char>, Seq<char>)>>::empty());
        assert(out@ + Seq::<char>::empty() =~= out@);
    }
    out
}

/// Renders one table.
fn render_table(t: &Table<'_>) -> (r: String)
    ensures
        r@ == spec_table_markup(t@),
{
    let cols = column_union(&t.data);
    let te = escape_html(t.title);
    let header = render_header_cells(&cols, &t.columns);
    let body = render_rows(&t.data, &cols);
    let mut out = String::from_str("<h3>");
    out.append(te.as_str());
    out.append("</h3><table><tr>");
    out.append(header.as_str());
    out.append("</tr>");
    out.append(body.as_str());
    out.append("</table>");
    proof {
        assert(out@ =~= spec_table_markup(t@));
    }
    out
}

/// Renders a list of tables.
fn render_tables(ts: &Vec<Table<'_>>) -> (r: String)
    ensures
        r@ == spec_tables_block(ts@.map_values(|t: Table<'_>| t@)),
{
    let ghost dv = ts@.map_values(|t: Table<'_>| t@);
    let mut out = String::new();
    let mut i: usize = 0;
    proof {
        assert(dv.skip(0) =~= dv);
        assert(Seq::<char>::empty() + spec_tables_block(dv) =~= spec_tables_block(dv));
    }
    while i < ts.len()
        invariant
            i <= ts.len(),
            dv == ts@.map_values(|t: Table<'_>| t@),
            dv.len() == ts.len(),
            spec_tables_block(dv) == out@ + spec_tables_block(dv.skip(i as int)),
        decreases ts.len() - i,
    {
        let ghost out0 = out@;
        proof {
            assert(dv.skip(i as int)[0] == dv[i as int]);
            assert(dv.skip(i as int).skip(1) =~= dv.skip(i + 1));
            assert(dv[i as int] == ts@[i as int]@);
        }
        let tm = render_table(&ts[i]);
        out.append(tm.as_str());
        proof {
            assert(out@ + spec_tables_block(dv.skip(i + 1)) =~= out0 + spec_tables_block(
                dv.skip(i as int),
            ));
        }
        i += 1;
    }
    proof {
        assert(dv.skip(ts@.len() as int) =~= Seq::<TableView>::empty());
        assert(out@ + Seq::<char>::empty() =~= out@);
    }
    out
}

/// Renders the HTML markup of one action.
fn render_action_html(trouble: &str, a: &Action<'_>) -> (r: String)
    ensures
        r@ == spec_action_html(trouble@, a@),
{
    proof {
        reveal_strlit("{ACTION}");
    }
    let mut out = String::new();
    match a.instructions {
        Some(ins) => {
            let ie = escape_html(ins);
            out.append("<p>");
            out.append(ie.as_str());
            out.append("</p>");
        },
        None => {},
    }
    let le = escape_html(a.link);
    out.append("<a href=\"");
    out.append(le.as_str());
    out.append("\"");
    match a.color {
        Some((fg, bg)) => {
            let fe = escape_html(fg);
            let be = escape_html(bg);
            out.append(" style=\"color:");
            out.append(fe.as_str());
            out.append(";background-color:");
            out.append(be.as_str());
            out.append("\"");
        },
        None => {},
    }
    let te = escape_html(a.text);
    out.append(">");
    out.append(te.as_str());
    out.append("</a><p>");
    let sub = replace_all(trouble, "{ACTION}", a.text);
    let se = escape_html(sub.as_str());
    out.append(se.as_str());
    out.append("</p><p>");
    out.append(le.as_str());
    out.append("</p>");
    proof {
        assert(out@ =~= spec_action_html(trouble@, a@));
    }
    out
}

/// Renders the text-oriented markup of one action.
fn render_action_text(trouble: &str, a: &Action<'_>) -> (r: String)
    ensures
        r@ == spec_action_text(trouble@, a@),
{
    proof {
        reveal_strlit("{ACTION}");
    }
    let mut out = String::new();
    match a.instructions {
        Some(ins) => {
            let ie = escape_html(ins);
            out.append("<p>");
            out.append(ie.as_str());
            out.append("</p>");
        },
        None => {},
    }
    let te = escape_html(a.text);
    let le = escape_html(a.link);
    out.append("<p>");
    out.append(te.as_str());
    out.append(": ");
    out.append(le.as_str());
    out.append("</p><p>");
    let sub = replace_all(trouble, "{ACTION}", a.text);
    let se = escape_html(sub.as_str());
    out.append(se.as_str());
    out.append("</p>");
    proof {
        assert(out@ =~= spec_action_text(trouble@, a@));
    }
    out
}

/// Renders the HTML markup of a list of actions.
fn render_actions_html(trouble: &str, acts: &Vec<Action<'_>>) -> (r: String)
    ensures
        r@ == spec_actions_html(trouble@, acts@.map_values(|a: Action<'_>| a@)),
{
    let ghost dv = acts@.map_values(|a: Action<'_>| a@);
    let mut out = String::new();
    let mut i: usize = 0;
    proof {
        assert(dv.skip(0) =~= dv);
        assert(Seq::<char>::empty() + spec_actions_html(trouble@, dv) =~= spec_actions_html(
            trouble@,
            dv,
        ));
    }
    while i < acts.len()
        invariant
            i <= acts.len(),
            dv == acts@.map_values(|a: Action<'_>| a@),
            dv.len() == acts.len(),
            spec_actions_html(trouble@, dv) == out@ + spec_actions_html(
                trouble@,
                dv.skip(i as int),
            ),
        decreases acts.len() - i,
    {
        let ghost out0 = out@;
        proof {
            assert(dv.skip(i as int)[0] == dv[i as int]);
            assert(dv.skip(i as int).skip(1) =~= dv.skip(i + 1));
            assert(dv[i as int] == acts@[i as int]@);
        }
        let am = render_action_html(trouble, &acts[i]);
        out.append(am.as_str());
        proof {
            assert(out@ + spec_actions_html(trouble@, dv.skip(i + 1)) =~= out0
                + spec_actions_html(trouble@, dv.skip(i as int)));
        }
        i += 1;
    }
    proof {
        assert(dv.skip(acts@.len() as int) =~= Seq::<ActionView>::empty());
        assert(out@ + Seq::<char>::empty() =~= out@);
    }
    out
}

/// Renders the text-oriented markup of a list of actions.
fn render_actions_text(trouble: &str, acts: &Vec<Action<'_>>) -> (r: String)
    ensures
        r@ == spec_actions_text(trouble@, acts@.map_values(|a: Action<'_>| a@)),
{
    let ghost dv = acts@.map_values(|a: Action<'_>| a@);
    let mut out = String::new();
    let mut i: usize = 0;
    proof {
        assert(dv.skip(0) =~= dv);
        assert(Seq::<char>::empty() + spec_actions_text(trouble@, dv) =~= spec_actions_text(
            trouble@,
            dv,
        ));
    }
    while i < acts.len()
        invariant
            i <= acts.len(),
            dv == acts@.map_values(|a: Action<'_>| a@),
            dv.len() == acts.len(),
            spec_actions_text(trouble@, dv) == out@ + spec_actions_text(
                trouble@,
                dv.skip(i as int),
            ),
        decreases acts.len() - i,
    {
        let ghost out0 = out@;
        proof {
            assert(dv.skip(i as int)[0] == dv[i as int]);
            assert(dv.skip(i as int).skip(1) =~= dv.skip(i + 1));
            assert(dv[i as int] == acts@[i as int]@);
        }
        let am = render_action_text(trouble, &acts[i]);
        out.append(am.as_str());
        proof {
            assert(out@ + spec_actions_text(trouble@, dv.skip(i + 1)) =~= out0
                + spec_actions_text(trouble@, dv.skip(i as int)));
        }
        i += 1;
    }
    proof {
        assert(dv.skip(acts@.len() as int) =~= Seq::<ActionView>::empty());
        assert(out@ + Seq::<char>::empty() =~= out@);
    }
    out
}

/// Renders the salutation paragraph, when one is present.
fn render_greeting_block(g: &Option<crate::Greeting<'_>>) -> (r: String)
    ensures
        r@ == spec_greeting_block(match *g {
            Some(gg) => Some(gg@),
            None => None,
        }),
{
    match g {
        Some(gg) => {
            let t = gg.render();
            let e = escape_html(t.as_str());
            let mut out = String::from_str("<p>");
            out.append(e.as_str());
            out.append("</p>");
            proof {
                assert(out@ =~= "<p>"@ + spec_escape(spec_greeting_text(gg@)) + "</p>"@);
            }
            out
        },
        None => String::new(),
    }
}

/// Renders an optional paragraph.
fn render_opt_para(s: &Option<&str>) -> (r: String)
    ensures
        r@ == spec_opt_para(s.deep_view()),
{
    match s {
        Some(t) => {
            let e = escape_html(t);
            let mut out = String::from_str("<p>");
            out.append(e.as_str());
            out.append("</p>");
            proof {
                assert(out@ =~= "<p>"@ + spec_escape(t@) + "</p>"@);
            }
            out
        },
        None => String::new(),
    }
}

/// Renders the inbox-preview line, when one is present.
fn render_summary_block(s: &Option<&str>) -> (r: String)
    ensures
        r@ == spec_summary_block(s.deep_view()),
{
    match s {
        Some(t) => {
            let e = escape_html(t);
            let mut out = String::from_str("<span style=\"display:none\">");
            out.append(e.as_str());
            out.append("</span>");
            proof {
                assert(out@ =~= spec_summary_block(Some(t@)));
            }
            out
        },
        None => String::new(),
    }
}

/// Renders the message header for a branding.
fn render_header_block(branding: &crate::Branding, logo_max_height: u32) -> (r: String)
    ensures
        r@ == spec_header_block(branding@, logo_max_height as nat),
{
    let linke = escape_html(branding.link.as_str());
    let namee = escape_html(branding.name.as_str());
    let mut out = String::from_str("<p><a href=\"");
    out.append(linke.as_str());
    out.append("\">");
    out.append(namee.as_str());
    out.append("</a></p>");
    match &branding.logo {
        Some(l) => {
            let le = escape_html(l.as_str());
            let h = u32_to_string(logo_max_height);
            out.append("<img src=\"");
            out.append(le.as_str());
            out.append("\" style=\"max-height:");
            out.append(h.as_str());
            out.append("px\">");
        },
        None => {},
    }
    proof {
        assert(out@ =~= spec_header_block(branding@, logo_max_height as nat));
    }
    out
}

/// Renders the copyright paragraph, when one is set.
fn render_copyright_block(c: &Option<String>) -> (r: String)
    ensures
        r@ == spec_opt_para(c.deep_view()),
{
    match c {
        Some(t) => {
            let e = escape_html(t.as_str());
            let mut out = String::from_str("<p>");
            out.append(e.as_str());
            out.append("</p>");
            proof {
                assert(out@ =~= "<p>"@ + spec_escape(t@) + "</p>"@);
            }
            out
        },
        None => String::new(),
    }
}

/// Renders the whole HTML markup of a message for a branding.
pub fn render_html_markup(branding: &crate::Branding, email: &Email<'_>, logo_max_height: u32) -> (r:
    String)
    ensures
        r@ == spec_html_markup(branding@, email@, logo_max_height as nat),
{
    proof {
        assert(spec_paras(Seq::<Seq<char>>::empty()) == Seq::<char>::empty());
        assert(spec_dict(Seq::<(Seq<char>, Seq<char>)>::empty()) == Seq::<char>::empty());
        assert(spec_tables_block(Seq::<TableView>::empty()) == Seq::<char>::empty());
        assert(spec_actions_html(branding@.trouble_text, Seq::<ActionView>::empty())
            == Seq::<char>::empty());
    }
    let mut out = String::from_str(
        "<!DOCTYPE html><html><head><meta charset=\"utf-8\"><style>body{font-family:Helvetica,Arial,sans-serif;color:#51545e}p{margin:10px 0}a{color:#3869d4}th,td{padding:4px 8px}</style></head><body>",
    );
    let summary = render_summary_block(&email.summary);
    out.append(summary.as_str());
    let header = render_header_block(branding, logo_max_height);
    out.append(header.as_str());
    let greeting = render_greeting_block(&email.greeting);
    out.append(greeting.as_str());
    let intros = match &email.intros {
        Some(v) => render_paras(v),
        None => String::new(),
    };
    proof {
        assert(intros@ == spec_paras(opt_or_empty(email@.intros)));
    }
    out.append(intros.as_str());
    let dict = match &email.dictionary {
        Some(v) => render_dict(v),
        None => String::new(),
    };
    proof {
        assert(dict@ == spec_dict(opt_or_empty(email@.dictionary)));
    }
    out.append(dict.as_str());
    let tables = match &email.tables {
        Some(ts) => render_tables(ts),
        None => String::new(),
    };
    proof {
        assert(tables@ == spec_tables_block(opt_or_empty(email@.tables)));
    }
    out.append(tables.as_str());
    let actions = match &email.actions {
        Some(acts) => render_actions_html(branding.trouble_text.as_str(), acts),
        None => String::new(),
    };
    proof {
        assert(actions@ == spec_actions_html(branding@.trouble_text, opt_or_empty(email@.actions)));
    }
    out.append(actions.as_str());
    let outros = match &email.outros {
        Some(v) => render_paras(v),
        None => String::new(),
    };
    proof {
        assert(outros@ == spec_paras(opt_or_empty(email@.outros)));
    }
    out.append(outros.as_str());
    let signature = render_opt_para(&email.signature);
    out.append(signature.as_str());
    let copyright = render_copyright_block(&branding.copyright);
    out.append(copyright.as_str());
    out.append("</body></html>");
    out
}

/// Renders the whole text-oriented markup of a message for a branding.
pub fn render_text_markup(branding: &crate::Branding, email: &Email<'_>) -> (r: String)
    ensures
        r@ == spec_text_markup(branding@, email@),
{
    proof {
        assert(spec_paras(Seq::<Seq<char>>::empty()) == Seq::<char>::empty());
        assert(spec_dict(Seq::<(Seq<char>, Seq<char>)>::empty()) == Seq::<char>::empty());
        assert(spec_tables_block(Seq::<TableView>::empty()) == Seq::<char>::empty());
        assert(spec_actions_text(branding@.trouble_text, Seq::<ActionView>::empty())
            == Seq::<char>::empty());
    }
    let mut out = String::from_str("<html><body>");
    let greeting = render_greeting_block(&email.greeting);
    out.append(greeting.as_str());
    let intros = match &email.intros {
        Some(v) => render_paras(v),
        None => String::new(),
    };
    proof {
        assert(intros@ == spec_paras(opt_or_empty(email@.intros)));
    }
    out.append(intros.as_str());
    let dict = match &email.dictionary {
        Some(v) => render_dict(v),
        None => String::new(),
    };
    proof {
        assert(dict@ == spec_dict(opt_or_empty(email@.dictionary)));
    }
    out.append(dict.as_str());
    let tables = match &email.tables {
        Some(ts) => render_tables(ts),
        None => String::new(),
    };
    proof {
        assert(tables@ == spec_tables_block(opt_or_empty(email@.tables)));
    }
    out.append(tables.as_str());
    let actions = match &email.actions {
        Some(acts) => render_actions_text(branding.trouble_text.as_str(), acts),
        None => String::new(),
    };
    proof {
        assert(actions@ == spec_actions_text(branding@.trouble_text, opt_or_empty(email@.actions)));
    }
    out.append(actions.as_str());
    let outros = match &email.outros {
        Some(v) => render_paras(v),
        None => String::new(),
    };
    proof {
        assert(outros@ == spec_paras(opt_or_empty(email@.outros)));
    }
    out.append(outros.as_str());
    let signature = render_opt_para(&email.signature);
    out.append(signature.as_str());
    let copyright = render_copyright_block(&branding.copyright);
    out.append(copyright.as_str());
    out.append("</body></html>");
    out
}

/// The built-in visual design: a self-describing HTML document with a
/// small embedded stylesheet, and a plain skeleton for the text rendition.
/// Its renders never fail.
#[derive(Debug, Clone, Copy)]
pub struct DefaultTheme {
    /// Ceiling, in pixels, for the branding logo's displayed height.
    pub logo_max_height: u32,
}

impl DefaultTheme {
    /// The default theme with its standard logo height ceiling.
    pub fn new() -> (r: DefaultTheme)
        ensures
            r.logo_max_height == 50,
    {
        DefaultTheme { logo_max_height: 50 }
    }
}

impl Theme for DefaultTheme {
    open spec fn spec_html(&self, c: ContextView) -> Result<Seq<char>, Seq<char>> {
        Ok(spec_html_markup(c.branding, c.email, self.logo_max_height as nat))
    }

    open spec fn spec_text(&self, c: ContextView) -> Result<Seq<char>, Seq<char>> {
        Ok(spec_text_markup(c.branding, c.email))
    }

    fn html(&self, context: &TemplateContext<'_>) -> (r: Result<String, TemplateError>) {
        Ok(render_html_markup(context.branding, context.email, self.logo_max_height))
    }

    fn text(&self, context: &TemplateContext<'_>) -> (r: Result<String, TemplateError>) {
        Ok(render_text_markup(context.branding, context.email))
    }
}

} // verus!
