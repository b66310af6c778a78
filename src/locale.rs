//! Locale identities: a language, and for some languages a regional variant,
//! each with its code (`en`, `en_GB`).
use vstd::prelude::*;

use crate::error::Error;
use crate::text::char_seqs;
use crate::text::chars_of;
use crate::text::split_chars;
use crate::text::split_on;
use vstd::string::*;

verus! {

/// The regional variants of Arabic; `Default` stands for the language alone.
#[derive(Debug, Clone, Copy, PartialEq, Eq, Hash, Structural)]
pub enum ArabicVariant {
    Default,
    Algeria,
    Bahrain,
    Egypt,
    Iraq,
    Jordan,
    Kuwait,
    Lebanon,
    Libya,
    Morocco,
    Oman,
    Qatar,
    SaudiArabia,
    Syria,
    Tunisia,
    UnitedArabEmirates,
    Yemen,
}

/// The regional variants of Chinese; `Default` stands for the language alone.
#[derive(Debug, Clone, Copy, PartialEq, Eq, Hash, Structural)]
pub enum ChineseVariant {
    Default,
    HongKong,
    China,
    Singapore,
    Taiwan,
}

/// The regional variants of German; `Default` stands for the language alone.
#[derive(Debug, Clone, Copy, PartialEq, Eq, Hash, Structural)]
pub enum GermanVariant {
    Default,
    Austria,
    Liechtenstein,
    Luxembourg,
    Switzerland,
}

/// The regional variants of Dutch; `Default` stands for the language alone.
#[derive(Debug, Clone, Copy, PartialEq, Eq, Hash, Structural)]
pub enum DutchVariant {
    Default,
    Belgium,
}

/// The regional variants of English; `Default` stands for the language alone.
#[derive(Debug, Clone, Copy, PartialEq, Eq, Hash, Structural)]
pub enum EnglishVariant {
    Default,
    Australia,
    Belize,
    Canada,
    Ireland,
    Jamaica,
    NewZealand,
    SouthAfrica,
    Trinidad,
    UnitedKingdom,
    UnitedStates,
}

/// The regional variants of French; `Default` stands for the language alone.
#[derive(Debug, Clone, Copy, PartialEq, Eq, Hash, Structural)]
pub enum FrenchVariant {
    Default,
    France,
    Belgium,
    Canada,
    Luxembourg,
    Switzerland,
}

/// The regional variants of Italian; `Default` stands for the language alone.
#[derive(Debug, Clone, Copy, PartialEq, Eq, Hash, Structural)]
pub enum ItalianVariant {
    Default,
    Switzerland,
}

/// The regional variants of Portuguese; `Default` stands for the language alone.
#[derive(Debug, Clone, Copy, PartialEq, Eq, Hash, Structural)]
pub enum PortugueseVariant {
    Default,
    Brazil,
}

/// The regional variants of Romanian; `Default` stands for the language alone.
#[derive(Debug, Clone, Copy, PartialEq, Eq, Hash, Structural)]
pub enum RomanianVariant {
    Default,
    Moldova,
}

/// The regional variants of Russian; `Default` stands for the language alone.
#[derive(Debug, Clone, Copy, PartialEq, Eq, Hash, Structural)]
pub enum RussianVariant {
    Default,
    Moldova,
}

/// The regional variants of Spanish; `Default` stands for the language alone.
#[derive(Debug, Clone, Copy, PartialEq, Eq, Hash, Structural)]
pub enum SpanishVariant {
    Default,
    Argentina,
    Bolivia,
    Chile,
    Colombia,
    CostaRica,
    DominicanRepublic,
    Ecuador,
    ElSalvador,
    Guatemala,
    Honduras,
    Mexico,
    Nicaragua,
    Panama,
    Paraguay,
    Peru,
    PuertoRico,
    Uruguay,
    Venezuela,
}

/// The regional variants of Swedish; `Default` stands for the language alone.
#[derive(Debug, Clone, Copy, PartialEq, Eq, Hash, Structural)]
pub enum SwedishVariant {
    Default,
    Finland,
}

/// A language, with its regional variant where it has any.
#[derive(Debug, Clone, Copy, PartialEq, Eq, Hash, Structural)]
pub enum Locale {
    Afar,
    Abkhazian,
    Afrikaans,
    Akan,
    Albanian,
    Amharic,
    Arabic(ArabicVariant),
    Aragonese,
    Armenian,
    Assamese,
    Avaric,
    Avestan,
    Aymara,
    Azerbaijani,
    Bashkir,
    Bambara,
    Basque,
    Belarusian,
    Bengali,
    Bihari,
    Bislama,
    Tibetan,
    Bosnian,
    Breton,
    Bulgarian,
    Burmese,
    Catalan,
    Czech,
    Chamorro,
    Chechen,
    Chinese(ChineseVariant),
    ChurchSlavic,
    Chuvash,
    Cornish,
    Corsican,
    Cree,
    Welsh,
    Danish,
    German(GermanVariant),
    Divehi,
    Dutch(DutchVariant),
    Dzongkha,
    Greek,
    English(EnglishVariant),
    Esperanto,
    Estonian,
    Ewe,
    Faroese,
    Persian,
    Fijian,
    Finnish,
    French(FrenchVariant),
    WesternFrisian,
    Fulah,
    Georgian,
    Gaelic,
    Irish,
    Galician,
    Manx,
    Guarani,
    Gujarati,
    Haitian,
    Hausa,
    Hebrew,
    Herero,
    Hindi,
    HiriMotu,
    Croatian,
    Hungarian,
    Igbo,
    Icelandic,
    Ido,
    SichuanYi,
    Inuktitut,
    Interlingue,
    Indonesian,
    Inupiaq,
    Italian(ItalianVariant),
    Javanese,
    Japanese,
    Kalaallisut,
    Kannada,
    Kashmiri,
    Kanuri,
    Kazakh,
    CentralKhmer,
    Kikuyu,
    Kinyarwanda,
    Kirghiz,
    Komi,
    Kongo,
    Korean,
    Kuanyama,
    Kurdish,
    Lao,
    Latin,
    Latvian,
    Limburgan,
    Lingala,
    Lithuanian,
    Luxembourgish,
    LubaKatanga,
    Ganda,
    Macedonian,
    Marshallese,
    Malayalam,
    Maori,
    Marathi,
    Malay,
    Malagasy,
    Maltese,
    Mongolian,
    Nauru,
    Navajo,
    SouthernNdebele,
    NorthernNdebele,
    Ndonga,
    Nepali,
    NorwegianNynorsk,
    Norwegian,
    Chichewa,
    Occitan,
    Ojibwa,
    Oriya,
    Oromo,
    Ossetian,
    Panjabi,
    Pali,
    Polish,
    Portuguese(PortugueseVariant),
    Pushto,
    Quechua,
    Romansh,
    Romanian(RomanianVariant),
    Rundi,
    Russian(RussianVariant),
    Sango,
    Sanskrit,
    Sinhala,
    Slovak,
    Slovenian,
    NorthernSami,
    Samoan,
    Shona,
    Sindhi,
    Somali,
    SouthernSotho,
    Spanish(SpanishVariant),
    Sardinian,
    Serbian,
    Swati,
    Sundanese,
    Swahili,
    Swedish(SwedishVariant),
    Tahitian,
    Tamil,
    Tatar,
    Telugu,
    Tajik,
    Tagalog,
    Thai,
    Tigrinya,
    Tonga,
    Tswana,
    Tsonga,
    Turkmen,
    Turkish,
    Twi,
    Uighur,
    Ukrainian,
    Urdu,
    Uzbek,
    Venda,
    Vietnamese,
    Walloon,
    Wolof,
    Xhosa,
    Yiddish,
    Yoruba,
    Zhuang,
    Zulu,
}

/// How many locales there are.
pub const LOCALE_COUNT: usize = 244;

/// The locales in a fixed order, each under its own index below `LOCALE_COUNT`.
pub open spec fn locale_at(i: usize) -> Option<Locale> {
    match i {
        0 => Some(Locale::Afar),
        1 => Some(Locale::Abkhazian),
        2 => Some(Locale::Afrikaans),
        3 => Some(Locale::Akan),
        4 => Some(Locale::Albanian),
        5 => Some(Locale::Amharic),
        6 => Some(Locale::Arabic(ArabicVariant::Default)),
        7 => Some(Locale::Arabic(ArabicVariant::Algeria)),
        8 => Some(Locale::Arabic(ArabicVariant::Bahrain)),
        9 => Some(Locale::Arabic(ArabicVariant::Egypt)),
        10 => Some(Locale::Arabic(ArabicVariant::Iraq)),
        11 => Some(Locale::Arabic(ArabicVariant::Jordan)),
        12 => Some(Locale::Arabic(ArabicVariant::Kuwait)),
        13 => Some(Locale::Arabic(ArabicVariant::Lebanon)),
        14 => Some(Locale::Arabic(ArabicVariant::Libya)),
        15 => Some(Locale::Arabic(ArabicVariant::Morocco)),
        16 => Some(Locale::Arabic(ArabicVariant::Oman)),
        17 => Some(Locale::Arabic(ArabicVariant::Qatar)),
        18 => Some(Locale::Arabic(ArabicVariant::SaudiArabia)),
        19 => Some(Locale::Arabic(ArabicVariant::Syria)),
        20 => Some(Locale::Arabic(ArabicVariant::Tunisia)),
        21 => Some(Locale::Arabic(ArabicVariant::UnitedArabEmirates)),
        22 => Some(Locale::Arabic(ArabicVariant::Yemen)),
        23 => Some(Locale::Aragonese),
        24 => Some(Locale::Armenian),
        25 => Some(Locale::Assamese),
        26 => Some(Locale::Avaric),
        27 => Some(Locale::Avestan),
        28 => Some(Locale::Aymara),
        29 => Some(Locale::Azerbaijani),
        30 => Some(Locale::Bashkir),
        31 => Some(Locale::Bambara),
        32 => Some(Locale::Basque),
        33 => Some(Locale::Belarusian),
        34 => Some(Locale::Bengali),
        35 => Some(Locale::Bihari),
        36 => Some(Locale::Bislama),
        37 => Some(Locale::Tibetan),
        38 => Some(Locale::Bosnian),
        39 => Some(Locale::Breton),
        40 => Some(Locale::Bulgarian),
        41 => Some(Locale::Burmese),
        42 => Some(Locale::Catalan),
        43 => Some(Locale::Czech),
        44 => Some(Locale::Chamorro),
        45 => Some(Locale::Chechen),
        46 => Some(Locale::Chinese(ChineseVariant::Default)),
        47 => Some(Locale::Chinese(ChineseVariant::HongKong)),
        48 => Some(Locale::Chinese(ChineseVariant::China)),
        49 => Some(Locale::Chinese(ChineseVariant::Singapore)),
        50 => Some(Locale::Chinese(ChineseVariant::Taiwan)),
        51 => Some(Locale::ChurchSlavic),
        52 => Some(Locale::Chuvash),
        53 => Some(Locale::Cornish),
        54 => Some(Locale::Corsican),
        55 => Some(Locale::Cree),
        56 => Some(Locale::Welsh),
        57 => Some(Locale::Danish),
        58 => Some(Locale::German(GermanVariant::Default)),
        59 => Some(Locale::German(GermanVariant::Austria)),
        60 => Some(Locale::German(GermanVariant::Liechtenstein)),
        61 => Some(Locale::German(GermanVariant::Luxembourg)),
        62 => Some(Locale::German(GermanVariant::Switzerland)),
        63 => Some(Locale::Divehi),
        64 => Some(Locale::Dutch(DutchVariant::Default)),
        65 => Some(Locale::Dutch(DutchVariant::Belgium)),
        66 => Some(Locale::Dzongkha),
        67 => Some(Locale::Greek),
        68 => Some(Locale::English(EnglishVariant::Default)),
        69 => Some(Locale::English(EnglishVariant::Australia)),
        70 => Some(Locale::English(EnglishVariant::Belize)),
        71 => Some(Locale::English(EnglishVariant::Canada)),
        72 => Some(Locale::English(EnglishVariant::Ireland)),
        73 => Some(Locale::English(EnglishVariant::Jamaica)),
        74 => Some(Locale::English(EnglishVariant::NewZealand)),
        75 => Some(Locale::English(EnglishVariant::SouthAfrica)),
        76 => Some(Locale::English(EnglishVariant::Trinidad)),
        77 => Some(Locale::English(EnglishVariant::UnitedKingdom)),
        78 => Some(Locale::English(EnglishVariant::UnitedStates)),
        79 => Some(Locale::Esperanto),
        80 => Some(Locale::Estonian),
        81 => Some(Locale::Ewe),
        82 => Some(Locale::Faroese),
        83 => Some(Locale::Persian),
        84 => Some(Locale::Fijian),
        85 => Some(Locale::Finnish),
        86 => Some(Locale::French(FrenchVariant::Default)),
        87 => Some(Locale::French(FrenchVariant::France)),
        88 => Some(Locale::French(FrenchVariant::Belgium)),
        89 => Some(Locale::French(FrenchVariant::Canada)),
        90 => Some(Locale::French(FrenchVariant::Luxembourg)),
        91 => Some(Locale::French(FrenchVariant::Switzerland)),
        92 => Some(Locale::WesternFrisian),
        93 => Some(Locale::Fulah),
        94 => Some(Locale::Georgian),
        95 => Some(Locale::Gaelic),
        96 => Some(Locale::Irish),
        97 => Some(Locale::Galician),
        98 => Some(Locale::Manx),
        99 => Some(Locale::Guarani),
        100 => Some(Locale::Gujarati),
        101 => Some(Locale::Haitian),
        102 => Some(Locale::Hausa),
        103 => Some(Locale::Hebrew),
        104 => Some(Locale::Herero),
        105 => Some(Locale::Hindi),
        106 => Some(Locale::HiriMotu),
        107 => Some(Locale::Croatian),
        108 => Some(Locale::Hungarian),
        109 => Some(Locale::Igbo),
        110 => Some(Locale::Icelandic),
        111 => Some(Locale::Ido),
        112 => Some(Locale::SichuanYi),
        113 => Some(Locale::Inuktitut),
        114 => Some(Locale::Interlingue),
        115 => Some(Locale::Indonesian),
        116 => Some(Locale::Inupiaq),
        117 => Some(Locale::Italian(ItalianVariant::Default)),
        118 => Some(Locale::Italian(ItalianVariant::Switzerland)),
        119 => Some(Locale::Javanese),
        120 => Some(Locale::Japanese),
        121 => Some(Locale::Kalaallisut),
        122 => Some(Locale::Kannada),
        123 => Some(Locale::Kashmiri),
        124 => Some(Locale::Kanuri),
        125 => Some(Locale::Kazakh),
        126 => Some(Locale::CentralKhmer),
        127 => Some(Locale::Kikuyu),
        128 => Some(Locale::Kinyarwanda),
        129 => Some(Locale::Kirghiz),
        130 => Some(Locale::Komi),
        131 => Some(Locale::Kongo),
        132 => Some(Locale::Korean),
        133 => Some(Locale::Kuanyama),
        134 => Some(Locale::Kurdish),
        135 => Some(Locale::Lao),
        136 => Some(Locale::Latin),
        137 => Some(Locale::Latvian),
        138 => Some(Locale::Limburgan),
        139 => Some(Locale::Lingala),
        140 => Some(Locale::Lithuanian),
        141 => Some(Locale::Luxembourgish),
        142 => Some(Locale::LubaKatanga),
        143 => Some(Locale::Ganda),
        144 => Some(Locale::Macedonian),
        145 => Some(Locale::Marshallese),
        146 => Some(Locale::Malayalam),
        147 => Some(Locale::Maori),
        148 => Some(Locale::Marathi),
        149 => Some(Locale::Malay),
        150 => Some(Locale::Malagasy),
        151 => Some(Locale::Maltese),
        152 => Some(Locale::Mongolian),
        153 => Some(Locale::Nauru),
        154 => Some(Locale::Navajo),
        155 => Some(Locale::SouthernNdebele),
        156 => Some(Locale::NorthernNdebele),
        157 => Some(Locale::Ndonga),
        158 => Some(Locale::Nepali),
        159 => Some(Locale::NorwegianNynorsk),
        160 => Some(Locale::Norwegian),
        161 => Some(Locale::Chichewa),
        162 => Some(Locale::Occitan),
        163 => Some(Locale::Ojibwa),
        164 => Some(Locale::Oriya),
        165 => Some(Locale::Oromo),
        166 => Some(Locale::Ossetian),
        167 => Some(Locale::Panjabi),
        168 => Some(Locale::Pali),
        169 => Some(Locale::Polish),
        170 => Some(Locale::Portuguese(PortugueseVariant::Default)),
        171 => Some(Locale::Portuguese(PortugueseVariant::Brazil)),
        172 => Some(Locale::Pushto),
        173 => Some(Locale::Quechua),
        174 => Some(Locale::Romansh),
        175 => Some(Locale::Romanian(RomanianVariant::Default)),
        176 => Some(Locale::Romanian(RomanianVariant::Moldova)),
        177 => Some(Locale::Rundi),
        178 => Some(Locale::Russian(RussianVariant::Default)),
        179 => Some(Locale::Russian(RussianVariant::Moldova)),
        180 => Some(Locale::Sango),
        181 => Some(Locale::Sanskrit),
        182 => Some(Locale::Sinhala),
        183 => Some(Locale::Slovak),
        184 => Some(Locale::Slovenian),
        185 => Some(Locale::NorthernSami),
        186 => Some(Locale::Samoan),
        187 => Some(Locale::Shona),
        188 => Some(Locale::Sindhi),
        189 => Some(Locale::Somali),
        190 => Some(Locale::SouthernSotho),
        191 => Some(Locale::Spanish(SpanishVariant::Default)),
        192 => Some(Locale::Spanish(SpanishVariant::Argentina)),
        193 => Some(Locale::Spanish(SpanishVariant::Bolivia)),
        194 => Some(Locale::Spanish(SpanishVariant::Chile)),
        195 => Some(Locale::Spanish(SpanishVariant::Colombia)),
        196 => Some(Locale::Spanish(SpanishVariant::CostaRica)),
        197 => Some(Locale::Spanish(SpanishVariant::DominicanRepublic)),
        198 => Some(Locale::Spanish(SpanishVariant::Ecuador)),
        199 => Some(Locale::Spanish(SpanishVariant::ElSalvador)),
        200 => Some(Locale::Spanish(SpanishVariant::Guatemala)),
        201 => Some(Locale::Spanish(SpanishVariant::Honduras)),
        202 => Some(Locale::Spanish(SpanishVariant::Mexico)),
        203 => Some(Locale::Spanish(SpanishVariant::Nicaragua)),
        204 => Some(Locale::Spanish(SpanishVariant::Panama)),
        205 => Some(Locale::Spanish(SpanishVariant::Paraguay)),
        206 => Some(Locale::Spanish(SpanishVariant::Peru)),
        207 => Some(Locale::Spanish(SpanishVariant::PuertoRico)),
        208 => Some(Locale::Spanish(SpanishVariant::Uruguay)),
        209 => Some(Locale::Spanish(SpanishVariant::Venezuela)),
        210 => Some(Locale::Sardinian),
        211 => Some(Locale::Serbian),
        212 => Some(Locale::Swati),
        213 => Some(Locale::Sundanese),
        214 => Some(Locale::Swahili),
        215 => Some(Locale::Swedish(SwedishVariant::Default)),
        216 => Some(Locale::Swedish(SwedishVariant::Finland)),
        217 => Some(Locale::Tahitian),
        218 => Some(Locale::Tamil),
        219 => Some(Locale::Tatar),
        220 => Some(Locale::Telugu),
        221 => Some(Locale::Tajik),
        222 => Some(Locale::Tagalog),
        223 => Some(Locale::Thai),
        224 => Some(Locale::Tigrinya),
        225 => Some(Locale::Tonga),
        226 => Some(Locale::Tswana),
        227 => Some(Locale::Tsonga),
        228 => Some(Locale::Turkmen),
        229 => Some(Locale::Turkish),
        230 => Some(Locale::Twi),
        231 => Some(Locale::Uighur),
        232 => Some(Locale::Ukrainian),
        233 => Some(Locale::Urdu),
        234 => Some(Locale::Uzbek),
        235 => Some(Locale::Venda),
        236 => Some(Locale::Vietnamese),
        237 => Some(Locale::Walloon),
        238 => Some(Locale::Wolof),
        239 => Some(Locale::Xhosa),
        240 => Some(Locale::Yiddish),
        241 => Some(Locale::Yoruba),
        242 => Some(Locale::Zhuang),
        243 => Some(Locale::Zulu),
        _ => None,
    }
}

fn locale_at_index(i: usize) -> (r: Option<Locale>)
    ensures
        r == locale_at(i),
{
    match i {
        0 => Some(Locale::Afar),
        1 => Some(Locale::Abkhazian),
        2 => Some(Locale::Afrikaans),
        3 => Some(Locale::Akan),
        4 => Some(Locale::Albanian),
        5 => Some(Locale::Amharic),
        6 => Some(Locale::Arabic(ArabicVariant::Default)),
        7 => Some(Locale::Arabic(ArabicVariant::Algeria)),
        8 => Some(Locale::Arabic(ArabicVariant::Bahrain)),
        9 => Some(Locale::Arabic(ArabicVariant::Egypt)),
        10 => Some(Locale::Arabic(ArabicVariant::Iraq)),
        11 => Some(Locale::Arabic(ArabicVariant::Jordan)),
        12 => Some(Locale::Arabic(ArabicVariant::Kuwait)),
        13 => Some(Locale::Arabic(ArabicVariant::Lebanon)),
        14 => Some(Locale::Arabic(ArabicVariant::Libya)),
        15 => Some(Locale::Arabic(ArabicVariant::Morocco)),
        16 => Some(Locale::Arabic(ArabicVariant::Oman)),
        17 => Some(Locale::Arabic(ArabicVariant::Qatar)),
        18 => Some(Locale::Arabic(ArabicVariant::SaudiArabia)),
        19 => Some(Locale::Arabic(ArabicVariant::Syria)),
        20 => Some(Locale::Arabic(ArabicVariant::Tunisia)),
        21 => Some(Locale::Arabic(ArabicVariant::UnitedArabEmirates)),
        22 => Some(Locale::Arabic(ArabicVariant::Yemen)),
        23 => Some(Locale::Aragonese),
        24 => Some(Locale::Armenian),
        25 => Some(Locale::Assamese),
        26 => Some(Locale::Avaric),
        27 => Some(Locale::Avestan),
        28 => Some(Locale::Aymara),
        29 => Some(Locale::Azerbaijani),
        30 => Some(Locale::Bashkir),
        31 => Some(Locale::Bambara),
        32 => Some(Locale::Basque),
        33 => Some(Locale::Belarusian),
        34 => Some(Locale::Bengali),
        35 => Some(Locale::Bihari),
        36 => Some(Locale::Bislama),
        37 => Some(Locale::Tibetan),
        38 => Some(Locale::Bosnian),
        39 => Some(Locale::Breton),
        40 => Some(Locale::Bulgarian),
        41 => Some(Locale::Burmese),
        42 => Some(Locale::Catalan),
        43 => Some(Locale::Czech),
        44 => Some(Locale::Chamorro),
        45 => Some(Locale::Chechen),
        46 => Some(Locale::Chinese(ChineseVariant::Default)),
        47 => Some(Locale::Chinese(ChineseVariant::HongKong)),
        48 => Some(Locale::Chinese(ChineseVariant::China)),
        49 => Some(Locale::Chinese(ChineseVariant::Singapore)),
        50 => Some(Locale::Chinese(ChineseVariant::Taiwan)),
        51 => Some(Locale::ChurchSlavic),
        52 => Some(Locale::Chuvash),
        53 => Some(Locale::Cornish),
        54 => Some(Locale::Corsican),
        55 => Some(Locale::Cree),
        56 => Some(Locale::Welsh),
        57 => Some(Locale::Danish),
        58 => Some(Locale::German(GermanVariant::Default)),
        59 => Some(Locale::German(GermanVariant::Austria)),
        60 => Some(Locale::German(GermanVariant::Liechtenstein)),
        61 => Some(Locale::German(GermanVariant::Luxembourg)),
        62 => Some(Locale::German(GermanVariant::Switzerland)),
        63 => Some(Locale::Divehi),
        64 => Some(Locale::Dutch(DutchVariant::Default)),
        65 => Some(Locale::Dutch(DutchVariant::Belgium)),
        66 => Some(Locale::Dzongkha),
        67 => Some(Locale::Greek),
        68 => Some(Locale::English(EnglishVariant::Default)),
        69 => Some(Locale::English(EnglishVariant::Australia)),
        70 => Some(Locale::English(EnglishVariant::Belize)),
        71 => Some(Locale::English(EnglishVariant::Canada)),
        72 => Some(Locale::English(EnglishVariant::Ireland)),
        73 => Some(Locale::English(EnglishVariant::Jamaica)),
        74 => Some(Locale::English(EnglishVariant::NewZealand)),
        75 => Some(Locale::English(EnglishVariant::SouthAfrica)),
        76 => Some(Locale::English(EnglishVariant::Trinidad)),
        77 => Some(Locale::English(EnglishVariant::UnitedKingdom)),
        78 => Some(Locale::English(EnglishVariant::UnitedStates)),
        79 => Some(Locale::Esperanto),
        80 => Some(Locale::Estonian),
        81 => Some(Locale::Ewe),
        82 => Some(Locale::Faroese),
        83 => Some(Locale::Persian),
        84 => Some(Locale::Fijian),
        85 => Some(Locale::Finnish),
        86 => Some(Locale::French(FrenchVariant::Default)),
        87 => Some(Locale::French(FrenchVariant::France)),
        88 => Some(Locale::French(FrenchVariant::Belgium)),
        89 => Some(Locale::French(FrenchVariant::Canada)),
        90 => Some(Locale::French(FrenchVariant::Luxembourg)),
        91 => Some(Locale::French(FrenchVariant::Switzerland)),
        92 => Some(Locale::WesternFrisian),
        93 => Some(Locale::Fulah),
        94 => Some(Locale::Georgian),
        95 => Some(Locale::Gaelic),
        96 => Some(Locale::Irish),
        97 => Some(Locale::Galician),
        98 => Some(Locale::Manx),
        99 => Some(Locale::Guarani),
        100 => Some(Locale::Gujarati),
        101 => Some(Locale::Haitian),
        102 => Some(Locale::Hausa),
        103 => Some(Locale::Hebrew),
        104 => Some(Locale::Herero),
        105 => Some(Locale::Hindi),
        106 => Some(Locale::HiriMotu),
        107 => Some(Locale::Croatian),
        108 => Some(Locale::Hungarian),
        109 => Some(Locale::Igbo),
        110 => Some(Locale::Icelandic),
        111 => Some(Locale::Ido),
        112 => Some(Locale::SichuanYi),
        113 => Some(Locale::Inuktitut),
        114 => Some(Locale::Interlingue),
        115 => Some(Locale::Indonesian),
        116 => Some(Locale::Inupiaq),
        117 => Some(Locale::Italian(ItalianVariant::Default)),
        118 => Some(Locale::Italian(ItalianVariant::Switzerland)),
        119 => Some(Locale::Javanese),
        120 => Some(Locale::Japanese),
        121 => Some(Locale::Kalaallisut),
        122 => Some(Locale::Kannada),
        123 => Some(Locale::Kashmiri),
        124 => Some(Locale::Kanuri),
        125 => Some(Locale::Kazakh),
        126 => Some(Locale::CentralKhmer),
        127 => Some(Locale::Kikuyu),
        128 => Some(Locale::Kinyarwanda),
        129 => Some(Locale::Kirghiz),
        130 => Some(Locale::Komi),
        131 => Some(Locale::Kongo),
        132 => Some(Locale::Korean),
        133 => Some(Locale::Kuanyama),
        134 => Some(Locale::Kurdish),
        135 => Some(Locale::Lao),
        136 => Some(Locale::Latin),
        137 => Some(Locale::Latvian),
        138 => Some(Locale::Limburgan),
        139 => Some(Locale::Lingala),
        140 => Some(Locale::Lithuanian),
        141 => Some(Locale::Luxembourgish),
        142 => Some(Locale::LubaKatanga),
        143 => Some(Locale::Ganda),
        144 => Some(Locale::Macedonian),
        145 => Some(Locale::Marshallese),
        146 => Some(Locale::Malayalam),
        147 => Some(Locale::Maori),
        148 => Some(Locale::Marathi),
        149 => Some(Locale::Malay),
        150 => Some(Locale::Malagasy),
        151 => Some(Locale::Maltese),
        152 => Some(Locale::Mongolian),
        153 => Some(Locale::Nauru),
        154 => Some(Locale::Navajo),
        155 => Some(Locale::SouthernNdebele),
        156 => Some(Locale::NorthernNdebele),
        157 => Some(Locale::Ndonga),
        158 => Some(Locale::Nepali),
        159 => Some(Locale::NorwegianNynorsk),
        160 => Some(Locale::Norwegian),
        161 => Some(Locale::Chichewa),
        162 => Some(Locale::Occitan),
        163 => Some(Locale::Ojibwa),
        164 => Some(Locale::Oriya),
        165 => Some(Locale::Oromo),
        166 => Some(Locale::Ossetian),
        167 => Some(Locale::Panjabi),
        168 => Some(Locale::Pali),
        169 => Some(Locale::Polish),
        170 => Some(Locale::Portuguese(PortugueseVariant::Default)),
        171 => Some(Locale::Portuguese(PortugueseVariant::Brazil)),
        172 => Some(Locale::Pushto),
        173 => Some(Locale::Quechua),
        174 => Some(Locale::Romansh),
        175 => Some(Locale::Romanian(RomanianVariant::Default)),
        176 => Some(Locale::Romanian(RomanianVariant::Moldova)),
        177 => Some(Locale::Rundi),
        178 => Some(Locale::Russian(RussianVariant::Default)),
        179 => Some(Locale::Russian(RussianVariant::Moldova)),
        180 => Some(Locale::Sango),
        181 => Some(Locale::Sanskrit),
        182 => Some(Locale::Sinhala),
        183 => Some(Locale::Slovak),
        184 => Some(Locale::Slovenian),
        185 => Some(Locale::NorthernSami),
        186 => Some(Locale::Samoan),
        187 => Some(Locale::Shona),
        188 => Some(Locale::Sindhi),
        189 => Some(Locale::Somali),
        190 => Some(Locale::SouthernSotho),
        191 => Some(Locale::Spanish(SpanishVariant::Default)),
        192 => Some(Locale::Spanish(SpanishVariant::Argentina)),
        193 => Some(Locale::Spanish(SpanishVariant::Bolivia)),
        194 => Some(Locale::Spanish(SpanishVariant::Chile)),
        195 => Some(Locale::Spanish(SpanishVariant::Colombia)),
        196 => Some(Locale::Spanish(SpanishVariant::CostaRica)),
        197 => Some(Locale::Spanish(SpanishVariant::DominicanRepublic)),
        198 => Some(Locale::Spanish(SpanishVariant::Ecuador)),
        199 => Some(Locale::Spanish(SpanishVariant::ElSalvador)),
        200 => Some(Locale::Spanish(SpanishVariant::Guatemala)),
        201 => Some(Locale::Spanish(SpanishVariant::Honduras)),
        202 => Some(Locale::Spanish(SpanishVariant::Mexico)),
        203 => Some(Locale::Spanish(SpanishVariant::Nicaragua)),
        204 => Some(Locale::Spanish(SpanishVariant::Panama)),
        205 => Some(Locale::Spanish(SpanishVariant::Paraguay)),
        206 => Some(Locale::Spanish(SpanishVariant::Peru)),
        207 => Some(Locale::Spanish(SpanishVariant::PuertoRico)),
        208 => Some(Locale::Spanish(SpanishVariant::Uruguay)),
        209 => Some(Locale::Spanish(SpanishVariant::Venezuela)),
        210 => Some(Locale::Sardinian),
        211 => Some(Locale::Serbian),
        212 => Some(Locale::Swati),
        213 => Some(Locale::Sundanese),
        214 => Some(Locale::Swahili),
        215 => Some(Locale::Swedish(SwedishVariant::Default)),
        216 => Some(Locale::Swedish(SwedishVariant::Finland)),
        217 => Some(Locale::Tahitian),
        218 => Some(Locale::Tamil),
        219 => Some(Locale::Tatar),
        220 => Some(Locale::Telugu),
        221 => Some(Locale::Tajik),
        222 => Some(Locale::Tagalog),
        223 => Some(Locale::Thai),
        224 => Some(Locale::Tigrinya),
        225 => Some(Locale::Tonga),
        226 => Some(Locale::Tswana),
        227 => Some(Locale::Tsonga),
        228 => Some(Locale::Turkmen),
        229 => Some(Locale::Turkish),
        230 => Some(Locale::Twi),
        231 => Some(Locale::Uighur),
        232 => Some(Locale::Ukrainian),
        233 => Some(Locale::Urdu),
        234 => Some(Locale::Uzbek),
        235 => Some(Locale::Venda),
        236 => Some(Locale::Vietnamese),
        237 => Some(Locale::Walloon),
        238 => Some(Locale::Wolof),
        239 => Some(Locale::Xhosa),
        240 => Some(Locale::Yiddish),
        241 => Some(Locale::Yoruba),
        242 => Some(Locale::Zhuang),
        243 => Some(Locale::Zulu),
        _ => None,
    }
}

impl Locale {
    /// The code of the locale: `ll` for a language, `ll_RR` for a regional variant.
    pub open spec fn code(self) -> Seq<char> {
        match self {
            Locale::Afar => "aa"@,
            Locale::Abkhazian => "ab"@,
            Locale::Afrikaans => "af"@,
            Locale::Akan => "ak"@,
            Locale::Albanian => "sq"@,
            Locale::Amharic => "am"@,
            Locale::Arabic(v) => match v {
                ArabicVariant::Default => "ar"@,
                ArabicVariant::Algeria => "ar_DZ"@,
                ArabicVariant::Bahrain => "ar_BH"@,
                ArabicVariant::Egypt => "ar_EG"@,
                ArabicVariant::Iraq => "ar_IQ"@,
                ArabicVariant::Jordan => "ar_JO"@,
                ArabicVariant::Kuwait => "ar_KW"@,
                ArabicVariant::Lebanon => "ar_LB"@,
                ArabicVariant::Libya => "ar_LY"@,
                ArabicVariant::Morocco => "ar_MA"@,
                ArabicVariant::Oman => "ar_OM"@,
                ArabicVariant::Qatar => "ar_QA"@,
                ArabicVariant::SaudiArabia => "ar_SA"@,
                ArabicVariant::Syria => "ar_SY"@,
                ArabicVariant::Tunisia => "ar_TN"@,
                ArabicVariant::UnitedArabEmirates => "ar_AE"@,
                ArabicVariant::Yemen => "ar_YE"@,
            },
            Locale::Aragonese => "an"@,
            Locale::Armenian => "hy"@,
            Locale::Assamese => "as"@,
            Locale::Avaric => "av"@,
            Locale::Avestan => "ae"@,
            Locale::Aymara => "ay"@,
            Locale::Azerbaijani => "az"@,
            Locale::Bashkir => "ba"@,
            Locale::Bambara => "bm"@,
            Locale::Basque => "eu"@,
            Locale::Belarusian => "be"@,
            Locale::Bengali => "bn"@,
            Locale::Bihari => "bh"@,
            Locale::Bislama => "bi"@,
            Locale::Tibetan => "bo"@,
            Locale::Bosnian => "bs"@,
            Locale::Breton => "br"@,
            Locale::Bulgarian => "bg"@,
            Locale::Burmese => "my"@,
            Locale::Catalan => "ca"@,
            Locale::Czech => "cs"@,
            Locale::Chamorro => "ch"@,
            Locale::Chechen => "ce"@,
            Locale::Chinese(v) => match v {
                ChineseVariant::Default => "zh"@,
                ChineseVariant::HongKong => "zh_HK"@,
                ChineseVariant::China => "zh_CN"@,
                ChineseVariant::Singapore => "zh_SG"@,
                ChineseVariant::Taiwan => "zh_TW"@,
            },
            Locale::ChurchSlavic => "cu"@,
            Locale::Chuvash => "cv"@,
            Locale::Cornish => "kw"@,
            Locale::Corsican => "co"@,
            Locale::Cree => "cr"@,
            Locale::Welsh => "cy"@,
            Locale::Danish => "da"@,
            Locale::German(v) => match v {
                GermanVariant::Default => "de"@,
                GermanVariant::Austria => "de_AT"@,
                GermanVariant::Liechtenstein => "de_LI"@,
                GermanVariant::Luxembourg => "de_LU"@,
                GermanVariant::Switzerland => "de_CH"@,
            },
            Locale::Divehi => "dv"@,
            Locale::Dutch(v) => match v {
                DutchVariant::Default => "nl"@,
                DutchVariant::Belgium => "nl_BE"@,
            },
            Locale::Dzongkha => "dz"@,
            Locale::Greek => "el"@,
            Locale::English(v) => match v {
                EnglishVariant::Default => "en"@,
                EnglishVariant::Australia => "en_AU"@,
                EnglishVariant::Belize => "en_BZ"@,
                EnglishVariant::Canada => "en_CA"@,
                EnglishVariant::Ireland => "en_IE"@,
                EnglishVariant::Jamaica => "en_JM"@,
                EnglishVariant::NewZealand => "en_NZ"@,
                EnglishVariant::SouthAfrica => "en_ZA"@,
                EnglishVariant::Trinidad => "en_TT"@,
                EnglishVariant::UnitedKingdom => "en_GB"@,
                EnglishVariant::UnitedStates => "en_US"@,
            },
            Locale::Esperanto => "eo"@,
            Locale::Estonian => "et"@,
            Locale::Ewe => "ee"@,
            Locale::Faroese => "fo"@,
            Locale::Persian => "fa"@,
            Locale::Fijian => "fj"@,
            Locale::Finnish => "fi"@,
            Locale::French(v) => match v {
                FrenchVariant::Default => "fr"@,
                FrenchVariant::France => "fr_FR"@,
                FrenchVariant::Belgium => "fr_BE"@,
                FrenchVariant::Canada => "fr_CA"@,
                FrenchVariant::Luxembourg => "fr_LU"@,
                FrenchVariant::Switzerland => "fr_CH"@,
            },
            Locale::WesternFrisian => "fy"@,
            Locale::Fulah => "ff"@,
            Locale::Georgian => "ka"@,
            Locale::Gaelic => "gd"@,
            Locale::Irish => "ga"@,
            Locale::Galician => "gl"@,
            Locale::Manx => "gv"@,
            Locale::Guarani => "gn"@,
            Locale::Gujarati => "gu"@,
            Locale::Haitian => "ht"@,
            Locale::Hausa => "ha"@,
            Locale::Hebrew => "he"@,
            Locale::Herero => "hz"@,
            Locale::Hindi => "hi"@,
            Locale::HiriMotu => "ho"@,
            Locale::Croatian => "hr"@,
            Locale::Hungarian => "hu"@,
            Locale::Igbo => "ig"@,
            Locale::Icelandic => "is"@,
            Locale::Ido => "io"@,
            Locale::SichuanYi => "ii"@,
            Locale::Inuktitut => "iu"@,
            Locale::Interlingue => "ie"@,
            Locale::Indonesian => "id"@,
            Locale::Inupiaq => "ik"@,
            Locale::Italian(v) => match v {
                ItalianVariant::Default => "it"@,
                ItalianVariant::Switzerland => "it_CH"@,
            },
            Locale::Javanese => "jv"@,
            Locale::Japanese => "ja"@,
            Locale::Kalaallisut => "kl"@,
            Locale::Kannada => "kn"@,
            Locale::Kashmiri => "ks"@,
            Locale::Kanuri => "kr"@,
            Locale::Kazakh => "kk"@,
            Locale::CentralKhmer => "km"@,
            Locale::Kikuyu => "ki"@,
            Locale::Kinyarwanda => "rw"@,
            Locale::Kirghiz => "ky"@,
            Locale::Komi => "kv"@,
            Locale::Kongo => "kg"@,
            Locale::Korean => "ko"@,
            Locale::Kuanyama => "kj"@,
            Locale::Kurdish => "ku"@,
            Locale::Lao => "lo"@,
            Locale::Latin => "la"@,
            Locale::Latvian => "lv"@,
            Locale::Limburgan => "li"@,
            Locale::Lingala => "ln"@,
            Locale::Lithuanian => "lt"@,
            Locale::Luxembourgish => "lb"@,
            Locale::LubaKatanga => "lu"@,
            Locale::Ganda => "lg"@,
            Locale::Macedonian => "mk"@,
            Locale::Marshallese => "mh"@,
            Locale::Malayalam => "ml"@,
            Locale::Maori => "mi"@,
            Locale::Marathi => "mr"@,
            Locale::Malay => "ms"@,
            Locale::Malagasy => "mg"@,
            Locale::Maltese => "mt"@,
            Locale::Mongolian => "mn"@,
            Locale::Nauru => "na"@,
            Locale::Navajo => "nv"@,
            Locale::SouthernNdebele => "nr"@,
            Locale::NorthernNdebele => "nd"@,
            Locale::Ndonga => "ng"@,
            Locale::Nepali => "ne"@,
            Locale::NorwegianNynorsk => "nn"@,
            Locale::Norwegian => "no"@,
            Locale::Chichewa => "ny"@,
            Locale::Occitan => "oc"@,
            Locale::Ojibwa => "oj"@,
            Locale::Oriya => "or"@,
            Locale::Oromo => "om"@,
            Locale::Ossetian => "os"@,
            Locale::Panjabi => "pa"@,
            Locale::Pali => "pi"@,
            Locale::Polish => "pl"@,
            Locale::Portuguese(v) => match v {
                PortugueseVariant::Default => "pt"@,
                PortugueseVariant::Brazil => "pt_BR"@,
            },
            Locale::Pushto => "ps"@,
            Locale::Quechua => "qu"@,
            Locale::Romansh => "rm"@,
            Locale::Romanian(v) => match v {
                RomanianVariant::Default => "ro"@,
                RomanianVariant::Moldova => "ro_MD"@,
            },
            Locale::Rundi => "rn"@,
            Locale::Russian(v) => match v {
                RussianVariant::Default => "ru"@,
                RussianVariant::Moldova => "ru_MD"@,
            },
            Locale::Sango => "sg"@,
            Locale::Sanskrit => "sa"@,
            Locale::Sinhala => "si"@,
            Locale::Slovak => "sk"@,
            Locale::Slovenian => "sl"@,
            Locale::NorthernSami => "se"@,
            Locale::Samoan => "sm"@,
            Locale::Shona => "sn"@,
            Locale::Sindhi => "sd"@,
            Locale::Somali => "so"@,
            Locale::SouthernSotho => "st"@,
            Locale::Spanish(v) => match v {
                SpanishVariant::Default => "es"@,
                SpanishVariant::Argentina => "es_AR"@,
                SpanishVariant::Bolivia => "es_BO"@,
                SpanishVariant::Chile => "es_CL"@,
                SpanishVariant::Colombia => "es_CO"@,
                SpanishVariant::CostaRica => "es_CR"@,
                SpanishVariant::DominicanRepublic => "es_DO"@,
                SpanishVariant::Ecuador => "es_EC"@,
                SpanishVariant::ElSalvador => "es_SV"@,
                SpanishVariant::Guatemala => "es_GT"@,
                SpanishVariant::Honduras => "es_HN"@,
                SpanishVariant::Mexico => "es_MX"@,
                SpanishVariant::Nicaragua => "es_NI"@,
                SpanishVariant::Panama => "es_PA"@,
                SpanishVariant::Paraguay => "es_PY"@,
                SpanishVariant::Peru => "es_PE"@,
                SpanishVariant::PuertoRico => "es_PR"@,
                SpanishVariant::Uruguay => "es_UY"@,
                SpanishVariant::Venezuela => "es_VE"@,
            },
            Locale::Sardinian => "sc"@,
            Locale::Serbian => "sr"@,
            Locale::Swati => "ss"@,
            Locale::Sundanese => "su"@,
            Locale::Swahili => "sw"@,
            Locale::Swedish(v) => match v {
                SwedishVariant::Default => "sv"@,
                SwedishVariant::Finland => "sv_FI"@,
            },
            Locale::Tahitian => "ty"@,
            Locale::Tamil => "ta"@,
            Locale::Tatar => "tt"@,
            Locale::Telugu => "te"@,
            Locale::Tajik => "tg"@,
            Locale::Tagalog => "tl"@,
            Locale::Thai => "th"@,
            Locale::Tigrinya => "ti"@,
            Locale::Tonga => "to"@,
            Locale::Tswana => "tn"@,
            Locale::Tsonga => "ts"@,
            Locale::Turkmen => "tk"@,
            Locale::Turkish => "tr"@,
            Locale::Twi => "tw"@,
            Locale::Uighur => "ug"@,
            Locale::Ukrainian => "uk"@,
            Locale::Urdu => "ur"@,
            Locale::Uzbek => "uz"@,
            Locale::Venda => "ve"@,
            Locale::Vietnamese => "vi"@,
            Locale::Walloon => "wa"@,
            Locale::Wolof => "wo"@,
            Locale::Xhosa => "xh"@,
            Locale::Yiddish => "yi"@,
            Locale::Yoruba => "yo"@,
            Locale::Zhuang => "za"@,
            Locale::Zulu => "zu"@,
        }
    }

    /// The code of the locale, as a static string.
    pub fn code_str(&self) -> (r: &'static str)
        ensures
            r@ == self.code(),
    {
        match self {
            Locale::Afar => "aa",
            Locale::Abkhazian => "ab",
            Locale::Afrikaans => "af",
            Locale::Akan => "ak",
            Locale::Albanian => "sq",
            Locale::Amharic => "am",
            Locale::Arabic(v) => match v {
                ArabicVariant::Default => "ar",
                ArabicVariant::Algeria => "ar_DZ",
                ArabicVariant::Bahrain => "ar_BH",
                ArabicVariant::Egypt => "ar_EG",
                ArabicVariant::Iraq => "ar_IQ",
                ArabicVariant::Jordan => "ar_JO",
                ArabicVariant::Kuwait => "ar_KW",
                ArabicVariant::Lebanon => "ar_LB",
                ArabicVariant::Libya => "ar_LY",
                ArabicVariant::Morocco => "ar_MA",
                ArabicVariant::Oman => "ar_OM",
                ArabicVariant::Qatar => "ar_QA",
                ArabicVariant::SaudiArabia => "ar_SA",
                ArabicVariant::Syria => "ar_SY",
                ArabicVariant::Tunisia => "ar_TN",
                ArabicVariant::UnitedArabEmirates => "ar_AE",
                ArabicVariant::Yemen => "ar_YE",
            },
            Locale::Aragonese => "an",
            Locale::Armenian => "hy",
            Locale::Assamese => "as",
            Locale::Avaric => "av",
            Locale::Avestan => "ae",
            Locale::Aymara => "ay",
            Locale::Azerbaijani => "az",
            Locale::Bashkir => "ba",
            Locale::Bambara => "bm",
            Locale::Basque => "eu",
            Locale::Belarusian => "be",
            Locale::Bengali => "bn",
            Locale::Bihari => "bh",
            Locale::Bislama => "bi",
            Locale::Tibetan => "bo",
            Locale::Bosnian => "bs",
            Locale::Breton => "br",
            Locale::Bulgarian => "bg",
            Locale::Burmese => "my",
            Locale::Catalan => "ca",
            Locale::Czech => "cs",
            Locale::Chamorro => "ch",
            Locale::Chechen => "ce",
            Locale::Chinese(v) => match v {
                ChineseVariant::Default => "zh",
                ChineseVariant::HongKong => "zh_HK",
                ChineseVariant::China => "zh_CN",
                ChineseVariant::Singapore => "zh_SG",
                ChineseVariant::Taiwan => "zh_TW",
            },
            Locale::ChurchSlavic => "cu",
            Locale::Chuvash => "cv",
            Locale::Cornish => "kw",
            Locale::Corsican => "co",
            Locale::Cree => "cr",
            Locale::Welsh => "cy",
            Locale::Danish => "da",
            Locale::German(v) => match v {
                GermanVariant::Default => "de",
                GermanVariant::Austria => "de_AT",
                GermanVariant::Liechtenstein => "de_LI",
                GermanVariant::Luxembourg => "de_LU",
                GermanVariant::Switzerland => "de_CH",
            },
            Locale::Divehi => "dv",
            Locale::Dutch(v) => match v {
                DutchVariant::Default => "nl",
                DutchVariant::Belgium => "nl_BE",
            },
            Locale::Dzongkha => "dz",
            Locale::Greek => "el",
            Locale::English(v) => match v {
                EnglishVariant::Default => "en",
                EnglishVariant::Australia => "en_AU",
                EnglishVariant::Belize => "en_BZ",
                EnglishVariant::Canada => "en_CA",
                EnglishVariant::Ireland => "en_IE",
                EnglishVariant::Jamaica => "en_JM",
                EnglishVariant::NewZealand => "en_NZ",
                EnglishVariant::SouthAfrica => "en_ZA",
                EnglishVariant::Trinidad => "en_TT",
                EnglishVariant::UnitedKingdom => "en_GB",
                EnglishVariant::UnitedStates => "en_US",
            },
            Locale::Esperanto => "eo",
            Locale::Estonian => "et",
            Locale::Ewe => "ee",
            Locale::Faroese => "fo",
            Locale::Persian => "fa",
            Locale::Fijian => "fj",
            Locale::Finnish => "fi",
            Locale::French(v) => match v {
                FrenchVariant::Default => "fr",
                FrenchVariant::France => "fr_FR",
                FrenchVariant::Belgium => "fr_BE",
                FrenchVariant::Canada => "fr_CA",
                FrenchVariant::Luxembourg => "fr_LU",
                FrenchVariant::Switzerland => "fr_CH",
            },
            Locale::WesternFrisian => "fy",
            Locale::Fulah => "ff",
            Locale::Georgian => "ka",
            Locale::Gaelic => "gd",
            Locale::Irish => "ga",
            Locale::Galician => "gl",
            Locale::Manx => "gv",
            Locale::Guarani => "gn",
            Locale::Gujarati => "gu",
            Locale::Haitian => "ht",
            Locale::Hausa => "ha",
            Locale::Hebrew => "he",
            Locale::Herero => "hz",
            Locale::Hindi => "hi",
            Locale::HiriMotu => "ho",
            Locale::Croatian => "hr",
            Locale::Hungarian => "hu",
            Locale::Igbo => "ig",
            Locale::Icelandic => "is",
            Locale::Ido => "io",
            Locale::SichuanYi => "ii",
            Locale::Inuktitut => "iu",
            Locale::Interlingue => "ie",
            Locale::Indonesian => "id",
            Locale::Inupiaq => "ik",
            Locale::Italian(v) => match v {
                ItalianVariant::Default => "it",
                ItalianVariant::Switzerland => "it_CH",
            },
            Locale::Javanese => "jv",
            Locale::Japanese => "ja",
            Locale::Kalaallisut => "kl",
            Locale::Kannada => "kn",
            Locale::Kashmiri => "ks",
            Locale::Kanuri => "kr",
            Locale::Kazakh => "kk",
            Locale::CentralKhmer => "km",
            Locale::Kikuyu => "ki",
            Locale::Kinyarwanda => "rw",
            Locale::Kirghiz => "ky",
            Locale::Komi => "kv",
            Locale::Kongo => "kg",
            Locale::Korean => "ko",
            Locale::Kuanyama => "kj",
            Locale::Kurdish => "ku",
            Locale::Lao => "lo",
            Locale::Latin => "la",
            Locale::Latvian => "lv",
            Locale::Limburgan => "li",
            Locale::Lingala => "ln",
            Locale::Lithuanian => "lt",
            Locale::Luxembourgish => "lb",
            Locale::LubaKatanga => "lu",
            Locale::Ganda => "lg",
            Locale::Macedonian => "mk",
            Locale::Marshallese => "mh",
            Locale::Malayalam => "ml",
            Locale::Maori => "mi",
            Locale::Marathi => "mr",
            Locale::Malay => "ms",
            Locale::Malagasy => "mg",
            Locale::Maltese => "mt",
            Locale::Mongolian => "mn",
            Locale::Nauru => "na",
            Locale::Navajo => "nv",
            Locale::SouthernNdebele => "nr",
            Locale::NorthernNdebele => "nd",
            Locale::Ndonga => "ng",
            Locale::Nepali => "ne",
            Locale::NorwegianNynorsk => "nn",
            Locale::Norwegian => "no",
            Locale::Chichewa => "ny",
            Locale::Occitan => "oc",
            Locale::Ojibwa => "oj",
            Locale::Oriya => "or",
            Locale::Oromo => "om",
            Locale::Ossetian => "os",
            Locale::Panjabi => "pa",
            Locale::Pali => "pi",
            Locale::Polish => "pl",
            Locale::Portuguese(v) => match v {
                PortugueseVariant::Default => "pt",
                PortugueseVariant::Brazil => "pt_BR",
            },
            Locale::Pushto => "ps",
            Locale::Quechua => "qu",
            Locale::Romansh => "rm",
            Locale::Romanian(v) => match v {
                RomanianVariant::Default => "ro",
                RomanianVariant::Moldova => "ro_MD",
            },
            Locale::Rundi => "rn",
            Locale::Russian(v) => match v {
                RussianVariant::Default => "ru",
                RussianVariant::Moldova => "ru_MD",
            },
            Locale::Sango => "sg",
            Locale::Sanskrit => "sa",
            Locale::Sinhala => "si",
            Locale::Slovak => "sk",
            Locale::Slovenian => "sl",
            Locale::NorthernSami => "se",
            Locale::Samoan => "sm",
            Locale::Shona => "sn",
            Locale::Sindhi => "sd",
            Locale::Somali => "so",
            Locale::SouthernSotho => "st",
            Locale::Spanish(v) => match v {
                SpanishVariant::Default => "es",
                SpanishVariant::Argentina => "es_AR",
                SpanishVariant::Bolivia => "es_BO",
                SpanishVariant::Chile => "es_CL",
                SpanishVariant::Colombia => "es_CO",
                SpanishVariant::CostaRica => "es_CR",
                SpanishVariant::DominicanRepublic => "es_DO",
                SpanishVariant::Ecuador => "es_EC",
                SpanishVariant::ElSalvador => "es_SV",
                SpanishVariant::Guatemala => "es_GT",
                SpanishVariant::Honduras => "es_HN",
                SpanishVariant::Mexico => "es_MX",
                SpanishVariant::Nicaragua => "es_NI",
                SpanishVariant::Panama => "es_PA",
                SpanishVariant::Paraguay => "es_PY",
                SpanishVariant::Peru => "es_PE",
                SpanishVariant::PuertoRico => "es_PR",
                SpanishVariant::Uruguay => "es_UY",
                SpanishVariant::Venezuela => "es_VE",
            },
            Locale::Sardinian => "sc",
            Locale::Serbian => "sr",
            Locale::Swati => "ss",
            Locale::Sundanese => "su",
            Locale::Swahili => "sw",
            Locale::Swedish(v) => match v {
                SwedishVariant::Default => "sv",
                SwedishVariant::Finland => "sv_FI",
            },
            Locale::Tahitian => "ty",
            Locale::Tamil => "ta",
            Locale::Tatar => "tt",
            Locale::Telugu => "te",
            Locale::Tajik => "tg",
            Locale::Tagalog => "tl",
            Locale::Thai => "th",
            Locale::Tigrinya => "ti",
            Locale::Tonga => "to",
            Locale::Tswana => "tn",
            Locale::Tsonga => "ts",
            Locale::Turkmen => "tk",
            Locale::Turkish => "tr",
            Locale::Twi => "tw",
            Locale::Uighur => "ug",
            Locale::Ukrainian => "uk",
            Locale::Urdu => "ur",
            Locale::Uzbek => "uz",
            Locale::Venda => "ve",
            Locale::Vietnamese => "vi",
            Locale::Walloon => "wa",
            Locale::Wolof => "wo",
            Locale::Xhosa => "xh",
            Locale::Yiddish => "yi",
            Locale::Yoruba => "yo",
            Locale::Zhuang => "za",
            Locale::Zulu => "zu",
        }
    }

}

impl Locale {
    /// The same language with its default variant; a language without
    /// variants stays as it is.
    pub open spec fn default_variant(self) -> Locale {
        match self {
            Locale::Arabic(_) => Locale::Arabic(ArabicVariant::Default),
            Locale::Chinese(_) => Locale::Chinese(ChineseVariant::Default),
            Locale::German(_) => Locale::German(GermanVariant::Default),
            Locale::Dutch(_) => Locale::Dutch(DutchVariant::Default),
            Locale::English(_) => Locale::English(EnglishVariant::Default),
            Locale::French(_) => Locale::French(FrenchVariant::Default),
            Locale::Italian(_) => Locale::Italian(ItalianVariant::Default),
            Locale::Portuguese(_) => Locale::Portuguese(PortugueseVariant::Default),
            Locale::Romanian(_) => Locale::Romanian(RomanianVariant::Default),
            Locale::Russian(_) => Locale::Russian(RussianVariant::Default),
            Locale::Spanish(_) => Locale::Spanish(SpanishVariant::Default),
            Locale::Swedish(_) => Locale::Swedish(SwedishVariant::Default),
            _ => self,
        }
    }

    /// Whether the locale names a regional variant other than the default one.
    pub fn has_variant(&self) -> (r: bool)
        ensures
            r == (self.default_variant() != *self),
    {
        match self {
            Locale::Arabic(variant) => *variant != ArabicVariant::Default,
            Locale::Chinese(variant) => *variant != ChineseVariant::Default,
            Locale::German(variant) => *variant != GermanVariant::Default,
            Locale::Dutch(variant) => *variant != DutchVariant::Default,
            Locale::English(variant) => *variant != EnglishVariant::Default,
            Locale::French(variant) => *variant != FrenchVariant::Default,
            Locale::Italian(variant) => *variant != ItalianVariant::Default,
            Locale::Portuguese(variant) => *variant != PortugueseVariant::Default,
            Locale::Romanian(variant) => *variant != RomanianVariant::Default,
            Locale::Russian(variant) => *variant != RussianVariant::Default,
            Locale::Spanish(variant) => *variant != SpanishVariant::Default,
            Locale::Swedish(variant) => *variant != SwedishVariant::Default,
            _ => false,
        }
    }

    /// The locale with its default variant, where it has variants.
    pub fn with_default_variant(self) -> (r: Locale)
        ensures
            r == self.default_variant(),
    {
        match self {
            Locale::Arabic(_) => Locale::Arabic(ArabicVariant::Default),
            Locale::Chinese(_) => Locale::Chinese(ChineseVariant::Default),
            Locale::German(_) => Locale::German(GermanVariant::Default),
            Locale::Dutch(_) => Locale::Dutch(DutchVariant::Default),
            Locale::English(_) => Locale::English(EnglishVariant::Default),
            Locale::French(_) => Locale::French(FrenchVariant::Default),
            Locale::Italian(_) => Locale::Italian(ItalianVariant::Default),
            Locale::Portuguese(_) => Locale::Portuguese(PortugueseVariant::Default),
            Locale::Romanian(_) => Locale::Romanian(RomanianVariant::Default),
            Locale::Russian(_) => Locale::Russian(RussianVariant::Default),
            Locale::Spanish(_) => Locale::Spanish(SpanishVariant::Default),
            Locale::Swedish(_) => Locale::Swedish(SwedishVariant::Default),
            _ => self,
        }
    }

    /// The code of the locale, as an owned string.
    pub fn to_string(&self) -> (r: String)
        ensures
            r@ == self.code(),
    {
        self.code_str().to_owned()
    }

    /// Reads a locale code; `-` is accepted in place of `_` (`sv-FI`).
    /// A code that names no locale is an `InvalidLocale` error, which
    /// carries the code with `-` replaced.
    pub fn try_from_str(value: &str) -> (r: Result<Locale, Error>)
        ensures
            match r {
                Ok(l) => locale_of_code(value@) == Some(l),
                Err(e) => locale_of_code(value@) is None && e is InvalidLocale
                    && e->InvalidLocale_0@ == normalize(value@),
            },
    {
        let input = chars_of(value);
        let mut i: usize = 0;
        while i < LOCALE_COUNT
            invariant
                input@ == value@,
                i <= LOCALE_COUNT,
                locale_of_code(value@) == search_code(normalize(value@), i as nat),
            decreases LOCALE_COUNT - i,
        {
            let l = locale_at_index(i).unwrap();
            if code_matches(l.code_str(), &input) {
                return Ok(l);
            }
            i = i + 1;
        }
        Err(Error::InvalidLocale(normalized(value)))
    }
}

/// `-` replaced by `_`.
pub open spec fn normalize(s: Seq<char>) -> Seq<char> {
    s.map_values(|c: char| if c == '-' { '_' } else { c })
}

/// The first locale, from index `i` on, whose code is `code`.
pub open spec fn search_code(code: Seq<char>, i: nat) -> Option<Locale>
    decreases LOCALE_COUNT - i,
{
    if i >= LOCALE_COUNT {
        None
    } else {
        match locale_at(i as usize) {
            Some(l) => if l.code() == code {
                Some(l)
            } else {
                search_code(code, i + 1)
            },
            None => None,
        }
    }
}

/// The locale that a code names, if any.
pub open spec fn locale_of_code(s: Seq<char>) -> Option<Locale> {
    search_code(normalize(s), 0)
}

fn code_matches(code: &str, input: &Vec<char>) -> (r: bool)
    ensures
        r == (code@ == normalize(input@)),
{
    let n = code.unicode_len();
    if n != input.len() {
        return false;
    }
    let mut i: usize = 0;
    while i < n
        invariant
            n == code@.len() == input.len(),
            i <= n,
            forall|j: int| 0 <= j < i ==> code@[j] == normalize(input@)[j],
        decreases n - i,
    {
        let c = input[i];
        let d = if c == '-' {
            '_'
        } else {
            c
        };
        if code.get_char(i) != d {
            return false;
        }
        i = i + 1;
    }
    assert(code@ =~= normalize(input@));
    true
}

fn normalized(value: &str) -> (r: String)
    ensures
        r@ == normalize(value@),
{
    let n = value.unicode_len();
    let mut r = String::new();
    let mut i: usize = 0;
    proof {
        reveal_strlit("_");
    }
    while i < n
        invariant
            n == value@.len(),
            i <= n,
            r@ == normalize(value@.subrange(0, i as int)),
            "_"@ == seq!['_'],
        decreases n - i,
    {
        if value.get_char(i) == '-' {
            r.append("_");
        } else {
            r.append(value.substring_char(i, i + 1));
        }
        i = i + 1;
        assert(r@ =~= normalize(value@.subrange(0, i as int)));
    }
    assert(value@.subrange(0, n as int) =~= value@);
    r
}

/// The text with its spaces taken out, as `accept_language::parse` does first.
pub open spec fn without_spaces(s: Seq<char>) -> Seq<char>
    decreases s.len(),
{
    if s.len() == 0 {
        s
    } else if s.last() == ' ' {
        without_spaces(s.drop_last())
    } else {
        without_spaces(s.drop_last()).push(s.last())
    }
}

/// What `f32::from_str` reads as NaN: `nan` in any case, with an optional sign.
pub open spec fn is_nan_text(v: Seq<char>) -> bool {
    let w = if v.len() > 0 && (v[0] == '+' || v[0] == '-') {
        v.drop_first()
    } else {
        v
    };
    w.len() == 3 && (w[0] == 'n' || w[0] == 'N') && (w[1] == 'a' || w[1] == 'A') && (w[2] == 'n'
        || w[2] == 'N')
}

/// Whether the quality of a tag (`name;q=value`) reads as NaN.
pub open spec fn nan_quality(tag: Seq<char>) -> bool {
    let parts = split_on(tag, ';');
    parts.len() >= 2 && split_on(parts[1], '=').len() == 2 && is_nan_text(
        split_on(parts[1], '=')[1],
    )
}

/// Whether some tag of an `Accept-Language` value has a quality that reads
/// as NaN.  Such qualities do not order, and the sort of
/// `accept_language::parse` may then panic.
pub open spec fn has_nan_quality(header: Seq<char>) -> bool {
    let tags = split_on(without_spaces(header), ',');
    exists|i: int| 0 <= i < tags.len() && nan_quality(tags[i])
}

fn nan_text(v: &Vec<char>) -> (r: bool)
    ensures
        r == is_nan_text(v@),
{
    let mut k: usize = 0;
    if v.len() > 0 && (v[0] == '+' || v[0] == '-') {
        k = 1;
    }
    let ghost w = if v@.len() > 0 && (v@[0] == '+' || v@[0] == '-') {
        v@.drop_first()
    } else {
        v@
    };
    assert(w =~= v@.subrange(k as int, v@.len() as int));
    if v.len() - k != 3 {
        return false;
    }
    let a = v[k];
    let b = v[k + 1];
    let c = v[k + 2];
    (a == 'n' || a == 'N') && (b == 'a' || b == 'A') && (c == 'n' || c == 'N')
}

/// Whether some tag of an `Accept-Language` value has a quality that reads
/// as NaN.
pub fn header_has_nan_quality(header: &str) -> (r: bool)
    ensures
        r == has_nan_quality(header@),
{
    let cs = chars_of(header);
    let mut s: Vec<char> = Vec::new();
    let mut i: usize = 0;
    while i < cs.len()
        invariant
            i <= cs.len(),
            s@ == without_spaces(cs@.subrange(0, i as int)),
        decreases cs.len() - i,
    {
        assert(cs@.subrange(0, i + 1).drop_last() =~= cs@.subrange(0, i as int));
        if cs[i] != ' ' {
            s.push(cs[i]);
        }
        i = i + 1;
    }
    assert(cs@.subrange(0, cs@.len() as int) =~= header@);
    let tags = split_chars(&s, ',');
    let ghost tv = char_seqs(tags@);
    let mut j: usize = 0;
    while j < tags.len()
        invariant
            tv == char_seqs(tags@),
            tv == split_on(without_spaces(header@), ','),
            j <= tags.len(),
            forall|k: int| 0 <= k < j ==> !nan_quality(#[trigger] tv[k]),
        decreases tags.len() - j,
    {
        assert(tv[j as int] == tags@[j as int]@);
        let parts = split_chars(&tags[j], ';');
        if parts.len() >= 2 {
            assert(char_seqs(parts@)[1] == parts@[1]@);
            let q = split_chars(&parts[1], '=');
            if q.len() == 2 {
                assert(char_seqs(q@)[1] == q@[1]@);
                if nan_text(&q[1]) {
                    assert(nan_quality(tv[j as int]));
                    return true;
                }
            }
        }
        j = j + 1;
    }
    false
}

pub uninterp spec fn accepted_languages(header: Seq<char>) -> Seq<Seq<char>>;

/// Relies on `accept_language::parse`: the language tags of an
/// `Accept-Language` header value, by quality, empty tags left out.  Its
/// sort may panic where a quality is NaN, so such values are left out.
#[verifier::external_body]
fn parse_accept_language(header: &str) -> (r: Vec<String>)
    requires
        !has_nan_quality(header@),
    ensures
        r@.map_values(|l: String| l@) == accepted_languages(header@),
{
    accept_language::parse(header)
}

/// The locale of the first tag that names one.
pub open spec fn first_known(tags: Seq<Seq<char>>) -> Option<Locale>
    decreases tags.len(),
{
    if tags.len() == 0 {
        None
    } else {
        match locale_of_code(tags[0]) {
            Some(l) => Some(l),
            None => first_known(tags.drop_first()),
        }
    }
}

/// The first of `tags` that is a locale code, as a locale.
pub fn first_known_locale(tags: &Vec<String>) -> (r: Option<Locale>)
    ensures
        r == first_known(tags@.map_values(|l: String| l@)),
{
    let ghost all = tags@.map_values(|l: String| l@);
    assert(all.subrange(0, all.len() as int) =~= all);
    let mut i: usize = 0;
    while i < tags.len()
        invariant
            all == tags@.map_values(|l: String| l@),
            i <= tags.len(),
            first_known(all) == first_known(all.subrange(i as int, all.len() as int)),
        decreases tags.len() - i,
    {
        let ghost rest = all.subrange(i as int, all.len() as int);
        assert(rest.drop_first() =~= all.subrange(i + 1, all.len() as int));
        match Locale::try_from_str(tags[i].as_str()) {
            Ok(l) => {
                return Some(l);
            },
            Err(_) => {},
        }
        i = i + 1;
    }
    None
}

/// The locale that an `Accept-Language` header value asks for first among
/// those that exist, else `default`; also `default` where a quality of the
/// header reads as NaN, which gives the tags no order.
pub fn negotiate_locale(header: &str, default: Locale) -> (r: Locale)
    ensures
        r == if has_nan_quality(header@) {
            default
        } else {
            match first_known(accepted_languages(header@)) {
                Some(l) => l,
                None => default,
            }
        },
{
    if header_has_nan_quality(header) {
        return default;
    }
    let tags = parse_accept_language(header);
    match first_known_locale(&tags) {
        Some(l) => l,
        None => default,
    }
}

} // verus!
