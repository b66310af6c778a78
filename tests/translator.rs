use tarjama::catalogue::Catalogue;
use tarjama::catalogue::CatalogueBag;
use tarjama::context::Context;
use tarjama::context::Value;
use tarjama::locale::EnglishVariant;
use tarjama::locale::FrenchVariant;
use tarjama::locale::Locale;
use tarjama::Translator;

fn messages(pairs: &[(&str, &str)]) -> Vec<(String, Vec<(String, String)>)> {
    vec![(
        "messages".to_owned(),
        pairs.iter().map(|(k, v)| (k.to_string(), v.to_string())).collect(),
    )]
}

fn name(n: &str) -> Context {
    Context::new(vec![("name".to_string(), Value::String(n.to_string()))], None)
}

fn count(c: i64) -> Context {
    Context::new(vec![], Some(c))
}

const APPLE: &str = "{0} There are no apples | {1} There is one apple | {2..4} There are few apples | There are {?} apples";

#[test]
fn translation() {
    let bag = CatalogueBag::with_catalogues(vec![
        Catalogue::with_messages(
            Locale::English(EnglishVariant::Default),
            messages(&[("greeting", "Hello, {name}!"), ("love", "I love rust!"), ("apple", APPLE)]),
        ),
        Catalogue::with_messages(
            Locale::French(FrenchVariant::Default),
            messages(&[("greeting", "Bonjour, {name}!"), ("love", "J'aime rust!")]),
        ),
    ]);

    let translator = Translator::with_catalogue_bag(bag);

    assert_eq!(translator.trans("en", "messages", "greeting", name("Saif")).unwrap(), "Hello, Saif!");
    assert_eq!(translator.trans("fr", "messages", "greeting", name("Saif")).unwrap(), "Bonjour, Saif!");
    assert_eq!(translator.trans("en", "messages", "love", Context::new(vec![], None)).unwrap(), "I love rust!");
    assert_eq!(translator.trans("fr", "messages", "love", Context::new(vec![], None)).unwrap(), "J'aime rust!");
    assert_eq!(translator.trans("en", "messages", "apple", count(0)).unwrap(), "There are no apples");
    assert_eq!(translator.trans("en", "messages", "apple", count(1)).unwrap(), "There is one apple");
    assert_eq!(translator.trans("en", "messages", "apple", count(2)).unwrap(), "There are few apples");
    assert_eq!(translator.trans("en", "messages", "apple", count(3)).unwrap(), "There are few apples");
    assert_eq!(translator.trans("en", "messages", "apple", count(4)).unwrap(), "There are few apples");
    assert_eq!(translator.trans("en", "messages", "apple", count(4)).unwrap(), "There are few apples");
    assert_eq!(translator.trans("en", "messages", "apple", count(5)).unwrap(), "There are 5 apples");

    let result = translator.trans("fr", "messages", "bar", count(5));
    assert!(result.is_err());
    assert_eq!(
        result.unwrap_err().to_string(),
        "message not found: message `'bar'` could not be found in `'messages'` domain for `'fr'` locale."
    );
}

fn fallback_bag() -> CatalogueBag {
    CatalogueBag::with_catalogues(vec![
        Catalogue::with_messages(
            Locale::English(EnglishVariant::Default),
            messages(&[("greeting", "Hello, {name}!"), ("apple", APPLE)]),
        ),
        Catalogue::with_messages(
            Locale::French(FrenchVariant::Default),
            messages(&[("greeting", "Bonjour, {name}!")]),
        ),
    ])
}

#[test]
fn translation_fallback() {
    let mut translator = Translator::with_catalogue_bag(fallback_bag());

    translator.set_fallback_locale(Some(Locale::English(EnglishVariant::Default)));

    let en = Locale::English(EnglishVariant::Default).to_string();
    let fr = Locale::French(FrenchVariant::Default).to_string();
    assert_eq!(translator.trans(&en, "messages", "apple", count(0)).unwrap(), "There are no apples");
    assert_eq!(translator.trans("en", "messages", "apple", count(1)).unwrap(), "There is one apple");
    assert_eq!(translator.trans("en", "messages", "apple", count(2)).unwrap(), "There are few apples");
    assert_eq!(translator.trans("en", "messages", "apple", count(3)).unwrap(), "There are few apples");
    assert_eq!(translator.trans("en", "messages", "apple", count(4)).unwrap(), "There are few apples");
    assert_eq!(translator.trans("en", "messages", "apple", count(5)).unwrap(), "There are 5 apples");
    assert_eq!(translator.trans(&fr, "messages", "apple", count(0)).unwrap(), "There are no apples");
    assert_eq!(translator.trans("fr", "messages", "apple", count(1)).unwrap(), "There is one apple");
    assert_eq!(translator.trans("fr", "messages", "apple", count(2)).unwrap(), "There are few apples");
    assert_eq!(translator.trans("fr", "messages", "apple", count(3)).unwrap(), "There are few apples");
    assert_eq!(translator.trans("fr", "messages", "apple", count(4)).unwrap(), "There are few apples");
    assert_eq!(translator.trans("fr", "messages", "apple", count(5)).unwrap(), "There are 5 apples");
}

#[test]
fn trasnaltion_error() {
    let translator = Translator::with_catalogue_bag(fallback_bag());

    let result = translator.trans("foo", "messages", "bar", count(5));
    assert!(result.is_err());
    assert_eq!(
        result.unwrap_err().to_string(),
        "locale: invalid locale, expected a valid locale code but found `'foo'`."
    );
}

#[test]
fn fallback_can_be_removed() {
    let mut translator = Translator::with_catalogue_bag(fallback_bag());
    assert!(translator.trans("fr", "messages", "apple", count(1)).is_err());
    translator.set_fallback_locale(Some(Locale::English(EnglishVariant::Default)));
    assert_eq!(translator.trans("fr", "messages", "apple", count(1)).unwrap(), "There is one apple");
    translator.set_fallback_locale(None);
    let err = translator.trans("fr", "messages", "apple", count(1)).unwrap_err();
    assert_eq!(
        err.to_string(),
        "message not found: message `'apple'` could not be found in `'messages'` domain for `'fr'` locale."
    );
}

#[test]
fn requested_locale_comes_before_fallback() {
    let mut translator = Translator::with_catalogue_bag(fallback_bag());
    translator.set_fallback_locale(Some(Locale::English(EnglishVariant::Default)));
    assert_eq!(translator.trans("fr", "messages", "greeting", name("Ana")).unwrap(), "Bonjour, Ana!");
}

#[test]
fn formatting_errors_pass_through() {
    let bag = CatalogueBag::with_catalogues(vec![Catalogue::with_messages(
        Locale::English(EnglishVariant::Default),
        messages(&[("broken", "Hello {name")]),
    )]);
    let translator = Translator::with_catalogue_bag(bag);
    assert_eq!(
        translator.trans("en", "messages", "broken", name("x")).unwrap_err().to_string(),
        "invalid format string: expected `'}'` but string was terminated."
    );
}
