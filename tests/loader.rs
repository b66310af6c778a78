use tarjama::catalogue::Catalogue;
use tarjama::error::Error;
use tarjama::loader::error::Error as LoadingError;
use tarjama::loader::file::catalogue_file;
use tarjama::loader::file::catalogue_file_sync;
use tarjama::loader::file::is_listed;
use tarjama::loader::messages::load_messages;
use tarjama::locale::EnglishVariant;
use tarjama::locale::FrenchVariant;
use tarjama::locale::Locale;

#[test]
fn catalogue_file_names() {
    let (domain, locale) = catalogue_file("messages.en", "toml").unwrap();
    assert_eq!(domain, "messages");
    assert_eq!(locale, Locale::English(EnglishVariant::Default));
    let (domain, locale) = catalogue_file("app.errors.fr", "toml").unwrap();
    assert_eq!(domain, "app.errors");
    assert_eq!(locale, Locale::French(FrenchVariant::Default));
    assert_eq!(
        catalogue_file("messages", "toml").unwrap_err().to_string(),
        "invalid filename: format, expected `{domain}.{locale}.{ext}` for `messages.toml`."
    );
    assert_eq!(
        catalogue_file("messages.xx", "toml").unwrap_err().to_string(),
        "invalid filename: locale, expected valid locale code, found `xx` in `messages.xx.toml`."
    );
}

#[test]
fn catalogue_file_sync_wording() {
    assert_eq!(
        catalogue_file_sync("messages", "toml").unwrap_err().to_string(),
        "invalid filename: format, expected `{domain}.{locale}.{ext}` but got `messages.toml`."
    );
    let (domain, locale) = catalogue_file_sync("foo.fr", "toml").unwrap();
    assert_eq!(domain, "foo");
    assert_eq!(locale, Locale::French(FrenchVariant::Default));
}

#[test]
fn listed_extensions() {
    let extensions = vec!["toml".to_string(), "txt".to_string()];
    assert!(is_listed("toml", &extensions));
    assert!(!is_listed("tom", &extensions));
    assert!(!is_listed("toml", &vec![]));
}

#[test]
fn messages_from_toml() {
    let mut catalogue = Catalogue::new(Locale::English(EnglishVariant::Default));
    load_messages(&mut catalogue, "messages", "greeting = \"Hello, {name}!\"\napple = \"{0} none | many\"\n").unwrap();
    assert_eq!(catalogue.get("messages", "greeting"), Some(&"Hello, {name}!".to_string()));
    assert_eq!(catalogue.get("messages", "apple"), Some(&"{0} none | many".to_string()));
    load_messages(&mut catalogue, "messages", "greeting = \"Hi\"").unwrap();
    assert_eq!(catalogue.get("messages", "greeting"), Some(&"Hi".to_string()));
    assert_eq!(catalogue.get("messages", "apple"), Some(&"{0} none | many".to_string()));

    load_messages(&mut catalogue, "empty", "").unwrap();
    assert_eq!(catalogue.domains(), vec![&"messages".to_string()]);

    let err = load_messages(&mut catalogue, "messages", "foo = [1]").unwrap_err();
    assert!(matches!(err, Error::LoadingError(LoadingError::FailedToParseFile(_))));
    assert!(err.to_string().ends_with('.'));
    assert_eq!(catalogue.get("messages", "greeting"), Some(&"Hi".to_string()));
}
