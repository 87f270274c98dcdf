use mailgen::themes::{render_html_markup, ContextView, DefaultTheme, TemplateContext, Theme};
use vstd::prelude::Seq;
use mailgen::{
    Action, Branding, EmailBuilder, Error, Greeting, Mailgen, PostProcessError, Table,
    TableColumns, TemplateError,
};

#[test]
fn test_default_theme() {
    let theme = DefaultTheme::new();
    let product = Branding::new("test product", "https://testproduct.com");
    let mailgen = Mailgen::new(theme, product);

    let email = EmailBuilder::new()
        .summary("this is a test email that contains stuff to test...")
        .greeting(Greeting::Name("person name"))
        .intro("test intro")
        .intro("another intro")
        .dictionary("test key", "test value")
        .dictionary("test key 2", "test value 2")
        .action(Action {
            text: "Test Action",
            link: "https://test.com/action",
            color: Some(("black", "white")),
            ..Default::default()
        })
        .action(Action {
            text: "Test Action 2",
            link: "https://test.com/action2",
            instructions: Some("test instruction"),
            ..Default::default()
        })
        .outro("test outr 1")
        .outro("test outro 2")
        .signature("test signature...")
        .build();

    let text = mailgen.render_text(&email).unwrap();
    assert!(text.contains("Hey person name,"));
    assert!(text.contains("test intro"));
    assert!(text.contains("another intro"));
    assert!(text.contains("test key: test value"));
    assert!(text.contains("test key 2: test value 2"));
    assert!(text.contains("https://test.com/action"));
    assert!(text.contains("test instruction"));
    assert!(text.contains("test outr 1"));
    assert!(text.contains("test outro 2"));
    assert!(text.contains("test signature..."));
    assert!(text.contains("Copyright © test product. All rights reserved."));

    let html = mailgen.render_html(&email).unwrap();
    assert!(html.contains("Hey person name,"));
    assert!(html.contains("test intro"));
    assert!(html.contains("https://test.com/action"));
    assert!(html.contains("black"));
    assert!(html.contains("background-color"));
    assert!(html.contains("test signature..."));
}

#[test]
fn test_tables() {
    let theme = DefaultTheme::new();
    let branding = Branding::new("test product", "https://testproduct.com");
    let mailgen = Mailgen::new(theme, branding);

    let row1 = vec![("Item", "Product 1"), ("Price", "$10.99"), ("Quantity", "1")];
    let row2 = vec![("Item", "Product 2"), ("Price", "$24.99"), ("Quantity", "2")];

    let columns = TableColumns {
        custom_width: None,
        custom_alignment: Some(vec![("Price", "right"), ("Quantity", "center")]),
    };

    let table = Table {
        title: "Order Summary",
        data: vec![row1, row2],
        columns: Some(columns),
    };

    let email = EmailBuilder::new()
        .summary("Order Confirmation")
        .greeting(Greeting::Name("Customer"))
        .intro("Thank you for your order!")
        .table(table)
        .outro("Your order will be processed soon.")
        .signature("The Sales Team")
        .build();

    let html = mailgen.render_html(&email).unwrap();
    assert!(html.contains("Order Summary"));
    assert!(html.contains("Product 1"));
    assert!(html.contains("$24.99"));
    assert!(html.contains("align=\"right\""));
    assert!(html.contains("align=\"center\""));

    let text = mailgen.render_text(&email).unwrap();
    assert!(text.contains("Order Summary"));
    assert!(text.contains("Product 1"));
    assert!(text.contains("Product 2"));
}

#[test]
fn table_union_of_columns() {
    let theme = DefaultTheme::new();
    let branding = Branding::new("shop", "https://shop.example");
    let mailgen = Mailgen::new(theme, branding);

    let row_a = vec![("Item", "Widget")];
    let row_b = vec![("Item", "Gadget"), ("Price", "$5")];
    let table = Table { title: "Cart", data: vec![row_a, row_b], columns: None };

    let email = EmailBuilder::new().table(table).build();
    let html = mailgen.render_html(&email).unwrap();

    // Columns are the union of the rows' keys, in first-seen order.
    assert!(html.contains("<th"));
    let items = html.find("Item").unwrap();
    let price = html.find("Price").unwrap();
    assert!(items < price);
    // Row A has no Price value: its second cell is empty.
    assert!(html.contains("Widget</td><td></td>") || html.contains("Widget</td><td "));
    // Row B fills both cells.
    assert!(html.contains("Gadget"));
    assert!(html.contains("$5"));
}

#[test]
fn render_is_idempotent() {
    let theme = DefaultTheme::new();
    let branding = Branding::new("demo", "https://demo.example");
    let mailgen = Mailgen::new(theme, branding);

    let email = EmailBuilder::new()
        .greeting(Greeting::Name("Ada"))
        .intro("hello there")
        .action(Action {
            text: "Go",
            link: "https://demo.example/go",
            ..Default::default()
        })
        .build();

    let html1 = mailgen.render_html(&email).unwrap();
    let html2 = mailgen.render_html(&email).unwrap();
    assert_eq!(html1, html2);

    let text1 = mailgen.render_text(&email).unwrap();
    let text2 = mailgen.render_text(&email).unwrap();
    assert_eq!(text1, text2);
}

#[test]
fn greeting_round_trip() {
    let theme = DefaultTheme::new();
    let branding = Branding::new("demo", "https://demo.example");
    let mailgen = Mailgen::new(theme, branding);

    let named = EmailBuilder::new().greeting(Greeting::Name("Ada")).build();
    let html = mailgen.render_html(&named).unwrap();
    let text = mailgen.render_text(&named).unwrap();
    assert!(html.contains("Hey Ada,"));
    assert!(text.contains("Hey Ada,"));

    let custom = EmailBuilder::new()
        .greeting(Greeting::Custom("Welcome back"))
        .build();
    let html = mailgen.render_html(&custom).unwrap();
    let text = mailgen.render_text(&custom).unwrap();
    assert!(html.contains("Welcome back"));
    assert!(text.contains("Welcome back"));
    assert!(!html.contains("Hey"));
    assert!(!text.contains("Hey"));
}

#[test]
fn trouble_text_substitution() {
    let theme = DefaultTheme::new();
    let mut branding = Branding::new("demo", "https://demo.example");
    branding.trouble_text = String::from("trouble with '{ACTION}'");
    let mailgen = Mailgen::new(theme, branding);

    let email = EmailBuilder::new()
        .action(Action {
            text: "Confirm",
            link: "https://demo.example/confirm",
            ..Default::default()
        })
        .build();

    let html = mailgen.render_html(&email).unwrap();
    let text = mailgen.render_text(&email).unwrap();
    assert!(html.contains("trouble with 'Confirm'"));
    assert!(text.contains("trouble with 'Confirm'"));
    assert!(!html.contains("{ACTION}"));
    assert!(!text.contains("{ACTION}"));
}

/// A theme that always fails to render.
struct FailingTheme;

impl Theme for FailingTheme {
    // The ghost members erase to ordinary items; they are never called.
    fn spec_html(&self, _c: ContextView) -> Result<Seq<char>, Seq<char>> {
        unreachable!()
    }

    fn spec_text(&self, _c: ContextView) -> Result<Seq<char>, Seq<char>> {
        unreachable!()
    }

    fn html(&self, _context: &TemplateContext<'_>) -> Result<String, TemplateError> {
        Err(TemplateError { message: String::from("boom") })
    }

    fn text(&self, _context: &TemplateContext<'_>) -> Result<String, TemplateError> {
        Err(TemplateError { message: String::from("boom") })
    }
}

#[test]
fn theme_failure_propagates() {
    let branding = Branding::new("demo", "https://demo.example");
    let mailgen = Mailgen::new(FailingTheme, branding);
    let email = EmailBuilder::new().build();

    let html = mailgen.render_html(&email);
    assert!(matches!(html, Err(Error::Template(ref e)) if e.message == "boom"));

    let text = mailgen.render_text(&email);
    assert!(matches!(text, Err(Error::Template(ref e)) if e.message == "boom"));
}

/// A theme whose markup asks for a remote stylesheet, which the inliner,
/// built without remote loading, rejects.
struct RemoteSheetTheme;

impl Theme for RemoteSheetTheme {
    // The ghost members erase to ordinary items; they are never called.
    fn spec_html(&self, _c: ContextView) -> Result<Seq<char>, Seq<char>> {
        unreachable!()
    }

    fn spec_text(&self, _c: ContextView) -> Result<Seq<char>, Seq<char>> {
        unreachable!()
    }

    fn html(&self, _context: &TemplateContext<'_>) -> Result<String, TemplateError> {
        Ok(String::from(
            "<html><head><link rel=\"stylesheet\" href=\"https://example.com/a.css\"></head><body><p>x</p></body></html>",
        ))
    }

    fn text(&self, _context: &TemplateContext<'_>) -> Result<String, TemplateError> {
        Ok(String::from("<html><body><p>x</p></body></html>"))
    }
}

#[test]
fn css_inline_failure_is_post_process_error() {
    let branding = Branding::new("demo", "https://demo.example");
    let mailgen = Mailgen::new(RemoteSheetTheme, branding);
    let email = EmailBuilder::new().build();

    let html = mailgen.render_html(&email);
    assert!(matches!(
        html,
        Err(Error::PostProcess(PostProcessError::CssInline))
    ));
}

#[test]
fn css_inlining_rewrites_markup() {
    let theme = DefaultTheme::new();
    let branding = Branding::new("demo", "https://demo.example");
    let email = EmailBuilder::new().intro("hello").build();

    let raw = render_html_markup(&branding, &email, theme.logo_max_height);
    assert!(raw.contains("<style>"));

    let mailgen = Mailgen::new(theme, branding);
    let html = mailgen.render_html(&email).unwrap();
    assert_ne!(html, raw);
    // The stylesheet's rules now stand inline on the elements.
    assert!(html.contains("style="));
    assert!(html.contains("margin:10px 0") || html.contains("margin: 10px 0"));
}

#[test]
fn text_conversion_strips_markup_and_wraps() {
    let theme = DefaultTheme::new();
    let branding = Branding::new("demo", "https://demo.example");
    let mailgen = Mailgen::new(theme, branding);

    let long = "word ".repeat(40);
    let email = EmailBuilder::new().intro(&long).build();
    let text = mailgen.render_text(&email).unwrap();

    assert!(!text.contains("<p>"));
    assert!(!text.contains("<html>"));
    assert!(text.contains("word"));
    for line in text.lines() {
        assert!(line.chars().count() <= 80);
    }
}

#[test]
fn logo_height_is_rendered() {
    let theme = DefaultTheme::new();
    let mut branding = Branding::new("demo", "https://demo.example");
    branding.logo = Some(String::from("https://demo.example/logo.png"));
    let mailgen = Mailgen::new(theme, branding);

    let email = EmailBuilder::new().build();
    let html = mailgen.render_html(&email).unwrap();
    assert!(html.contains("https://demo.example/logo.png"));
    assert!(html.contains("max-height:50px"));
}

#[test]
fn branding_computes_copyright() {
    let branding = Branding::new("test product", "https://testproduct.com");
    assert_eq!(branding.name, "test product");
    assert_eq!(branding.link, "https://testproduct.com");
    assert_eq!(
        branding.copyright.as_deref(),
        Some("Copyright © test product. All rights reserved.")
    );
    assert!(branding.trouble_text.contains("{ACTION}"));
    assert!(branding.logo.is_none());
}

#[test]
fn renders_fully_empty_email() {
    let theme = DefaultTheme::new();
    let branding = Branding::new("demo", "https://demo.example");
    let mailgen = Mailgen::new(theme, branding);

    let email = EmailBuilder::default().build();
    let html = mailgen.render_html(&email).unwrap();
    let text = mailgen.render_text(&email).unwrap();
    assert!(html.contains("demo"));
    assert!(text.contains("Copyright © demo. All rights reserved."));
}

#[test]
fn duplicate_dictionary_keys_all_render() {
    let theme = DefaultTheme::new();
    let branding = Branding::new("demo", "https://demo.example");
    let mailgen = Mailgen::new(theme, branding);

    let email = EmailBuilder::new()
        .dictionary("key", "first value")
        .dictionary("key", "second value")
        .build();
    let text = mailgen.render_text(&email).unwrap();
    assert!(text.contains("key: first value"));
    assert!(text.contains("key: second value"));
}
