use mailgen::{EmailBuilder, Greeting};

#[test]
fn usage() {
    let _email = EmailBuilder::new()
        .greeting(Greeting::Custom("custom greeting"))
        .intro("test")
        .build();

    let mut email = EmailBuilder::new()
        .intro("test intro")
        .dictionary("test key", "test value")
        .dictionary("test key 2", "test value 2");

    {
        let greeting = Greeting::Name("Test greeting");
        email = email.greeting(greeting);
    }

    let _email = email.build();
}

#[test]
fn appends_build_in_order() {
    let email = EmailBuilder::new()
        .intro("first")
        .intro("second")
        .intro("third")
        .outro("bye")
        .dictionary("k1", "v1")
        .dictionary("k2", "v2")
        .build();

    assert_eq!(email.intros, Some(vec!["first", "second", "third"]));
    assert_eq!(email.outros, Some(vec!["bye"]));
    assert_eq!(email.dictionary, Some(vec![("k1", "v1"), ("k2", "v2")]));
}

#[test]
fn bulk_replace_discards_appends() {
    let email = EmailBuilder::new()
        .intro("appended one")
        .intro("appended two")
        .set_intros(vec!["replacement"])
        .outro("old outro")
        .set_outros(vec!["new outro a", "new outro b"])
        .dictionary("old", "pair")
        .set_dictionary(vec![("fresh", "pair")])
        .build();

    assert_eq!(email.intros, Some(vec!["replacement"]));
    assert_eq!(email.outros, Some(vec!["new outro a", "new outro b"]));
    assert_eq!(email.dictionary, Some(vec![("fresh", "pair")]));
}

#[test]
fn default_builder_defaults() {
    let email = EmailBuilder::new().build();

    assert!(matches!(email.greeting, Some(Greeting::Custom("Hey"))));
    assert_eq!(email.signature, Some("Yours truly,"));
    assert_eq!(email.summary, None);
    assert!(email.intros.is_none());
    assert!(email.dictionary.is_none());
    assert!(email.tables.is_none());
    assert!(email.actions.is_none());
    assert!(email.outros.is_none());
}

#[test]
fn bare_builder_is_empty() {
    let email = EmailBuilder::default().build();

    assert!(email.greeting.is_none());
    assert_eq!(email.signature, None);
    assert!(email.intros.is_none());
}

#[test]
fn greeting_display_forms() {
    assert_eq!(Greeting::Name("Ada").render(), "Hey Ada,");
    assert_eq!(Greeting::Custom("Welcome back").render(), "Welcome back");
}

#[test]
fn scalar_setters_overwrite() {
    let email = EmailBuilder::new()
        .summary("first summary")
        .summary("second summary")
        .signature("Cheers,")
        .build();

    assert_eq!(email.summary, Some("second summary"));
    assert_eq!(email.signature, Some("Cheers,"));
}
