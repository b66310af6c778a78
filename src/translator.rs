//! The translator: finds a message in its catalogues, under the requested
//! locale or else the fallback locale, and formats it.
use vstd::prelude::*;

use crate::catalogue::Catalogue;
use crate::catalogue::CatalogueBag;
use crate::catalogue::CatalogueView;
use crate::context::Context;
use crate::error::Error;
use crate::formatter::agrees;
use crate::formatter::format_spec;
use crate::formatter::DefaultFormatter;
use crate::locale::locale_of_code;
use crate::locale::Locale;

verus! {

/// The message `id` of `domain` in the first of `cats` that has it.
pub open spec fn first_message(cats: Seq<CatalogueView>, domain: Seq<char>, id: Seq<char>) -> Option<
    Seq<char>,
>
    decreases cats.len(),
{
    if cats.len() == 0 {
        None
    } else if cats[0].messages.contains_key(domain) && cats[0].messages[domain].contains_key(id) {
        Some(cats[0].messages[domain][id])
    } else {
        first_message(cats.drop_first(), domain, id)
    }
}

/// The message `id` of `domain` in the first catalogue of `locale` that has it.
pub open spec fn lookup_message(
    bag: Seq<CatalogueView>,
    locale: Locale,
    domain: Seq<char>,
    id: Seq<char>,
) -> Option<Seq<char>> {
    first_message(bag.filter(|c: CatalogueView| c.locale == locale), domain, id)
}

/// The message for `locale`, or else for the fallback locale.
pub open spec fn resolve_message(
    bag: Seq<CatalogueView>,
    fallback: Option<Locale>,
    locale: Locale,
    domain: Seq<char>,
    id: Seq<char>,
) -> Option<Seq<char>> {
    match lookup_message(bag, locale, domain, id) {
        Some(m) => Some(m),
        None => match fallback {
            Some(f) => lookup_message(bag, f, domain, id),
            None => None,
        },
    }
}

/// A message that the requested locale lacks and the fallback locale has is
/// found when the fallback is set, and is not found when it is not.
pub proof fn lemma_fallback_lookup(
    bag: Seq<CatalogueView>,
    requested: Locale,
    fallback: Locale,
    domain: Seq<char>,
    id: Seq<char>,
)
    requires
        lookup_message(bag, requested, domain, id) is None,
        lookup_message(bag, fallback, domain, id) is Some,
    ensures
        resolve_message(bag, Some(fallback), requested, domain, id) == lookup_message(
            bag,
            fallback,
            domain,
            id,
        ),
        resolve_message(bag, None, requested, domain, id) is None,
{
}

/// Looks messages up in a bag of catalogues and formats them.
#[derive(Debug, Clone)]
pub struct Translator {
    formatter: DefaultFormatter,
    bag: CatalogueBag,
    fallback_locale: Option<Locale>,
}

impl Translator {
    /// The catalogues searched, in order.
    pub closed spec fn catalogues(&self) -> Seq<CatalogueView> {
        self.bag@
    }

    /// The locale tried when the requested one lacks a message.
    pub closed spec fn fallback(&self) -> Option<Locale> {
        self.fallback_locale
    }

    /// The catalogues are well formed.
    pub closed spec fn wf(&self) -> bool {
        self.bag.wf()
    }

    /// A translator over `bag`, with an optional fallback locale.
    pub fn new(formatter: DefaultFormatter, bag: CatalogueBag, fallback_locale: Option<Locale>) -> (r:
        Translator)
        requires
            bag.wf(),
        ensures
            r.wf(),
            r.catalogues() == bag@,
            r.fallback() == fallback_locale,
    {
        Translator { formatter, bag, fallback_locale }
    }

    /// A translator over `bag`, without a fallback locale.
    pub fn with_catalogue_bag(bag: CatalogueBag) -> (r: Translator)
        requires
            bag.wf(),
        ensures
            r.wf(),
            r.catalogues() == bag@,
            r.fallback() == None::<Locale>,
    {
        Translator { formatter: DefaultFormatter::new(), bag, fallback_locale: None }
    }

    /// Sets, or with `None` removes, the locale whose catalogues are tried
    /// when the requested locale has no such message.
    pub fn set_fallback_locale(&mut self, fallback_locale: Option<Locale>)
        requires
            old(self).wf(),
        ensures
            final(self).wf(),
            final(self).catalogues() == old(self).catalogues(),
            final(self).fallback() == fallback_locale,
    {
        self.fallback_locale = fallback_locale;
    }

    fn find(&self, locale: &Locale, domain: &str, id: &str) -> (r: Option<&String>)
        requires
            self.wf(),
        ensures
            match r {
                Some(m) => lookup_message(self.catalogues(), *locale, domain@, id@) == Some(m@),
                None => lookup_message(self.catalogues(), *locale, domain@, id@) is None,
            },
    {
        let cats: Vec<&Catalogue> = self.bag.get(locale);
        let ghost all = cats@.map_values(|c: &Catalogue| c@);
        let mut i: usize = 0;
        assert(all.subrange(0, all.len() as int) =~= all);
        while i < cats.len()
            invariant
                all == cats@.map_values(|c: &Catalogue| c@),
                all == self.catalogues().filter(|c: CatalogueView| c.locale == *locale),
                forall|j: int| 0 <= j < cats@.len() ==> #[trigger] cats@[j].wf(),
                i <= cats.len(),
                first_message(all, domain@, id@) == first_message(
                    all.subrange(i as int, all.len() as int),
                    domain@,
                    id@,
                ),
            decreases cats.len() - i,
        {
            let ghost rest = all.subrange(i as int, all.len() as int);
            assert(rest.drop_first() =~= all.subrange(i + 1, all.len() as int));
            assert(rest[0] == cats@[i as int]@);
            match cats[i].get(domain, id) {
                Some(m) => {
                    return Some(m);
                },
                None => {},
            }
            i = i + 1;
        }
        None
    }

    /// Translates the message `id` of `domain` for the locale with code
    /// `locale`, formatting it with `context`.
    pub fn trans(&self, locale: &str, domain: &str, id: &str, context: Context) -> (r: Result<
        String,
        Error,
    >)
        requires
            self.wf(),
        ensures
            match locale_of_code(locale@) {
                None => r is Err && r->Err_0 is InvalidLocale && r->Err_0->InvalidLocale_0@
                    == locale@,
                Some(l) => match resolve_message(
                    self.catalogues(),
                    self.fallback(),
                    l,
                    domain@,
                    id@,
                ) {
                    Some(m) => agrees(r, format_spec(m, context)),
                    None => r is Err && r->Err_0 is MessageNotFound && r->Err_0->MessageNotFound_0
                        == l && r->Err_0->MessageNotFound_1@ == domain@
                        && r->Err_0->MessageNotFound_2@ == id@,
                },
            },
    {
        let l = match Locale::try_from_str(locale) {
            Ok(l) => l,
            Err(_) => {
                return Err(Error::InvalidLocale(locale.to_owned()));
            },
        };
        match self.find(&l, domain, id) {
            Some(m) => {
                return self.formatter.format(&l, m.as_str(), &context);
            },
            None => {},
        }
        match &self.fallback_locale {
            Some(f) => match self.find(f, domain, id) {
                Some(m) => {
                    return self.formatter.format(f, m.as_str(), &context);
                },
                None => {},
            },
            None => {},
        }
        Err(Error::MessageNotFound(l, domain.to_owned(), id.to_owned()))
    }
}

} // verus!
