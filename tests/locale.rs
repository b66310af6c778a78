use tarjama::error::Error;
use tarjama::loader::error::Error as LoadingError;
use tarjama::locale::header_has_nan_quality;
use tarjama::locale::negotiate_locale;
use tarjama::locale::ChineseVariant as Zh;
use tarjama::locale::ArabicVariant;
use tarjama::locale::ChineseVariant;
use tarjama::locale::EnglishVariant;
use tarjama::locale::FrenchVariant;
use tarjama::locale::GermanVariant;
use tarjama::locale::Locale;
use tarjama::locale::SwedishVariant;

#[test]
fn codes_read_and_written() {
    let cases = [
        ("ar", Locale::Arabic(ArabicVariant::Default)),
        ("ar_TN", Locale::Arabic(ArabicVariant::Tunisia)),
        ("zh_TW", Locale::Chinese(ChineseVariant::Taiwan)),
        ("en_GB", Locale::English(EnglishVariant::UnitedKingdom)),
        ("fr", Locale::French(FrenchVariant::Default)),
        ("aa", Locale::Afar),
        ("zu", Locale::Zulu),
        ("sv_FI", Locale::Swedish(SwedishVariant::Finland)),
    ];
    for (code, locale) in cases {
        assert_eq!(Locale::try_from_str(code).unwrap(), locale);
        assert_eq!(locale.to_string(), code);
    }
    assert_eq!(Locale::try_from_str("sv-FI").unwrap().to_string(), "sv_FI");
}

#[test]
fn unknown_codes_are_refused() {
    match Locale::try_from_str("foo-bar") {
        Err(Error::InvalidLocale(s)) => assert_eq!(s, "foo_bar"),
        other => panic!("unexpected {:?}", other),
    }
    assert!(Locale::try_from_str("").is_err());
    assert!(Locale::try_from_str("EN").is_err());
}

#[test]
fn variants() {
    assert!(Locale::English(EnglishVariant::Canada).has_variant());
    assert!(!Locale::English(EnglishVariant::Default).has_variant());
    assert!(!Locale::Afar.has_variant());
    assert_eq!(
        Locale::German(GermanVariant::Austria).with_default_variant(),
        Locale::German(GermanVariant::Default)
    );
    assert_eq!(Locale::Zulu.with_default_variant(), Locale::Zulu);
}

#[test]
fn accept_language_negotiation() {
    let default = Locale::English(EnglishVariant::Default);
    assert_eq!(
        negotiate_locale("fr-CH, fr;q=0.9, en;q=0.8", default),
        Locale::French(FrenchVariant::Switzerland)
    );
    assert_eq!(negotiate_locale("xx, de;q=0.5, fr;q=0.7", default), Locale::French(FrenchVariant::Default));
    assert_eq!(negotiate_locale("xx, yy", default), default);
    assert_eq!(negotiate_locale("", default), default);
}

#[test]
fn error_messages() {
    assert_eq!(
        Error::MessageNotFound(Locale::French(FrenchVariant::Canada), "d".to_string(), "k".to_string()).to_string(),
        "message not found: message `'k'` could not be found in `'d'` domain for `'fr_CA'` locale."
    );
    assert_eq!(Error::FormattingError("detail".to_string()).to_string(), "detail");
    assert_eq!(
        Error::LoadingError(LoadingError::FailedToReadDirectory("permission denied (os error 13)".to_string()))
            .to_string(),
        "unreadable node: directory, permission denied (os error 13)."
    );
    assert_eq!(
        LoadingError::FailedToReadFile("a.toml".to_string(), "gone".to_string()).to_string(),
        "unreadable node: file `a.toml`, gone."
    );
    assert_eq!(LoadingError::FailedToParseFile("bad".to_string()).to_string(), "bad.");
    assert_eq!(LoadingError::Custom("c".to_string()).to_string(), "c");
    assert_eq!(LoadingError::InvalidFilenameFormat("f".to_string()).to_string(), "f");
}

#[test]
fn nan_qualities_fall_back_to_default() {
    let default = Locale::English(EnglishVariant::Default);
    let many = "fr;q=nan, de;q=0.5, ar;q=NaN, zh;q=0.7, sv;q=-nan, it;q=0.1, pt;q=+NAN, ru, es;q=0.9, nl;q=nan, ro;q=0.2, en-GB;q=nan, fr-CA;q=0.3, de-AT;q=nan, zh-TW;q=0.4, ar-TN;q=nan, it-CH;q=0.6";
    assert!(header_has_nan_quality(many));
    assert_eq!(negotiate_locale(many, default), default);
    assert!(header_has_nan_quality("fr; q = n a n"));
    assert!(!header_has_nan_quality("fr;q=0.5, nan-TW, en;q=nana"));
    assert!(header_has_nan_quality("fr;q=nan;x=1=2"));
    assert!(!header_has_nan_quality("fr;q=na=n"));
    assert_eq!(negotiate_locale("nan-TW, zh;q=0.9", default), Locale::Chinese(Zh::Default));
}
