use tarjama::catalogue::Catalogue;
use tarjama::catalogue::CatalogueBag;
use tarjama::locale::EnglishVariant;
use tarjama::locale::FrenchVariant;
use tarjama::locale::Locale;

#[test]
fn catalogue_insert_get_remove() {
    let mut catalogue = Catalogue::new(Locale::English(EnglishVariant::Default));
    assert_eq!(catalogue.locale(), &Locale::English(EnglishVariant::Default));
    assert!(catalogue.domains().is_empty());

    assert_eq!(catalogue.insert("messages", "greeting", "Hello, {name}!"), None);
    assert_eq!(
        catalogue.insert("messages", "greeting", "Welcome, {name}!"),
        Some("Hello, {name}!".to_string())
    );
    assert_eq!(catalogue.get("messages", "greeting"), Some(&"Welcome, {name}!".to_string()));
    assert_eq!(catalogue.get("messages", "foo"), None);
    assert_eq!(catalogue.get("bar", "foo"), None);

    assert_eq!(catalogue.remove("messages", "greeting"), Some("Welcome, {name}!".to_string()));
    assert_eq!(catalogue.remove("messages", "greeting"), None);
    assert_eq!(catalogue.remove("other", "greeting"), None);
    assert_eq!(catalogue.domains(), vec![&"messages".to_string()]);
}

#[test]
fn catalogue_domains_are_sorted() {
    let mut catalogue = Catalogue::new(Locale::English(EnglishVariant::Default));
    catalogue.insert("messages", "greeting", "Hello, {name}!");
    catalogue.insert("errors", "email.invalid", "Your email address ( {email} ) is invalid.");
    catalogue.insert("zeta", "a", "b");
    catalogue.insert("alpha", "a", "b");
    assert_eq!(
        catalogue.domains(),
        vec![&"alpha".to_string(), &"errors".to_string(), &"messages".to_string(), &"zeta".to_string()]
    );
}

#[test]
fn catalogue_get_all_and_remove_all() {
    let mut catalogue = Catalogue::new(Locale::English(EnglishVariant::Default));
    assert!(catalogue.get_all("messages").is_none());
    catalogue.insert("messages", "welcome", "Welcome, {name}!");
    catalogue.insert("messages", "hello", "Hello, {name}!");
    let all = catalogue.get_all("messages").unwrap();
    assert_eq!(all.keys(), vec![&"hello".to_string(), &"welcome".to_string()]);
    assert_eq!(all.get("hello"), Some(&"Hello, {name}!".to_string()));

    let removed = catalogue.remove_all("messages").unwrap();
    assert_eq!(removed.get("welcome"), Some(&"Welcome, {name}!".to_string()));
    assert!(catalogue.remove_all("messages").is_none());
    assert!(catalogue.domains().is_empty());
}

#[test]
fn catalogue_with_messages_later_pairs_win() {
    let catalogue = Catalogue::with_messages(
        Locale::French(FrenchVariant::Default),
        vec![
            ("messages".to_string(), vec![("a".to_string(), "1".to_string()), ("a".to_string(), "2".to_string())]),
            ("empty".to_string(), vec![]),
        ],
    );
    assert_eq!(catalogue.get("messages", "a"), Some(&"2".to_string()));
    assert_eq!(catalogue.domains(), vec![&"empty".to_string(), &"messages".to_string()]);
}

#[test]
fn bag_get_append_is_empty() {
    let mut bag = CatalogueBag::new();
    assert!(bag.is_empty());
    bag.insert(Catalogue::new(Locale::English(EnglishVariant::Default)));
    assert!(!bag.is_empty());

    let mut other = CatalogueBag::with_catalogues(vec![
        Catalogue::new(Locale::French(FrenchVariant::Default)),
        Catalogue::new(Locale::English(EnglishVariant::Default)),
    ]);
    bag.append(&mut other);
    assert!(other.is_empty());
    assert_eq!(bag.get(&Locale::English(EnglishVariant::Default)).len(), 2);
    assert_eq!(
        bag.get(&Locale::French(FrenchVariant::Default)),
        vec![&Catalogue::new(Locale::French(FrenchVariant::Default))]
    );
    assert!(bag.get(&Locale::Afar).is_empty());
}
