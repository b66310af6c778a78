//! Message catalogues: for one locale, the messages of each domain by id;
//! and bags of catalogues.
use vstd::prelude::*;

use crate::locale::Locale;
use crate::table::lex_lt;
use crate::table::Table;

verus! {

/// The model of a catalogue: its locale, and for each domain a map from
/// message id to message.
pub struct CatalogueView {
    pub locale: Locale,
    pub messages: Map<Seq<char>, Map<Seq<char>, Seq<char>>>,
}

/// The texts of a table of strings.
pub open spec fn table_texts(t: Table<String>) -> Map<Seq<char>, Seq<char>> {
    t@.map_values(|s: String| s@)
}

/// A map built from pairs, a later pair replacing an earlier one with the
/// same key.
pub open spec fn pairs_model(ps: Seq<(String, String)>) -> Map<Seq<char>, Seq<char>>
    decreases ps.len(),
{
    if ps.len() == 0 {
        Map::empty()
    } else {
        pairs_model(ps.drop_last()).insert(ps.last().0@, ps.last().1@)
    }
}

/// Domains built from pairs of a domain and its messages, a later domain
/// replacing an earlier one of the same name.
pub open spec fn domains_model(ds: Seq<(String, Vec<(String, String)>)>) -> Map<
    Seq<char>,
    Map<Seq<char>, Seq<char>>,
>
    decreases ds.len(),
{
    if ds.len() == 0 {
        Map::empty()
    } else {
        domains_model(ds.drop_last()).insert(ds.last().0@, pairs_model(ds.last().1@))
    }
}

/// The messages of one locale.
#[derive(Debug, Clone, PartialEq, Eq)]
pub struct Catalogue {
    locale: Locale,
    messages: Table<Table<String>>,
}

impl View for Catalogue {
    type V = CatalogueView;

    closed spec fn view(&self) -> CatalogueView {
        CatalogueView {
            locale: self.locale,
            messages: self.messages@.map_values(|t: Table<String>| table_texts(t)),
        }
    }
}

impl Catalogue {
    /// The tables are well formed.
    pub closed spec fn wf(&self) -> bool {
        &&& self.messages.wf()
        &&& forall|d: Seq<char>| #[trigger]
            self.messages@.contains_key(d) ==> self.messages@[d].wf()
    }

    /// An empty catalogue.
    pub fn new(locale: Locale) -> (r: Catalogue)
        ensures
            r.wf(),
            r@.locale == locale,
            r@.messages == Map::<Seq<char>, Map<Seq<char>, Seq<char>>>::empty(),
    {
        let r = Catalogue { locale, messages: Table::new() };
        assert(r@.messages =~= Map::<Seq<char>, Map<Seq<char>, Seq<char>>>::empty());
        r
    }

    /// A catalogue holding the given domains and their messages.
    pub fn with_messages(locale: Locale, messages: Vec<(String, Vec<(String, String)>)>) -> (r:
        Catalogue)
        ensures
            r.wf(),
            r@.locale == locale,
            r@.messages == domains_model(messages@),
    {
        let mut r = Catalogue::new(locale);
        let mut i: usize = 0;
        while i < messages.len()
            invariant
                i <= messages.len(),
                r.wf(),
                r@.locale == locale,
                r@.messages == domains_model(messages@.subrange(0, i as int)),
            decreases messages.len() - i,
        {
            let ghost before = r.messages@;
            let (domain, pairs) = &messages[i];
            let mut t: Table<String> = Table::new();
            let mut j: usize = 0;
            while j < pairs.len()
                invariant
                    j <= pairs.len(),
                    t.wf(),
                    table_texts(t) == pairs_model(pairs@.subrange(0, j as int)),
                decreases pairs.len() - j,
            {
                let ghost tb = t@;
                t.insert(pairs[j].0.clone(), pairs[j].1.clone());
                assert(pairs@.subrange(0, j + 1).drop_last() =~= pairs@.subrange(0, j as int));
                assert(table_texts(t) =~= table_texts_of(tb).insert(pairs@[j as int].0@, pairs@[j as int].1@));
                j = j + 1;
            }
            assert(pairs@.subrange(0, pairs@.len() as int) =~= pairs@);
            let ghost tv = table_texts(t);
            r.messages.insert(domain.clone(), t);
            assert(messages@.subrange(0, i + 1).drop_last() =~= messages@.subrange(0, i as int));
            assert(r@.messages =~= domains_model(messages@.subrange(0, i as int)).insert(
                domain@,
                tv,
            ));
            i = i + 1;
        }
        assert(messages@.subrange(0, messages@.len() as int) =~= messages@);
        r
    }

    /// The locale of the catalogue.
    pub fn locale(&self) -> (r: &Locale)
        ensures
            *r == self@.locale,
    {
        &self.locale
    }

    /// The domains, in increasing order.
    pub fn domains(&self) -> (r: Vec<&String>)
        requires
            self.wf(),
        ensures
            forall|i: int, j: int|
                0 <= i < j < r@.len() ==> lex_lt(#[trigger] r@[i]@, #[trigger] r@[j]@),
            forall|d: Seq<char>|
                self@.messages.contains_key(d) <==> r@.map_values(|s: &String| s@).contains(d),
    {
        self.messages.keys()
    }

    /// The message `id` of `domain`.
    pub fn get(&self, domain: &str, id: &str) -> (r: Option<&String>)
        requires
            self.wf(),
        ensures
            match r {
                Some(m) => self@.messages.contains_key(domain@) && self@.messages[domain@].contains_key(
                    id@,
                ) && self@.messages[domain@][id@] == m@,
                None => !(self@.messages.contains_key(domain@)
                    && self@.messages[domain@].contains_key(id@)),
            },
    {
        match self.messages.get(domain) {
            Some(messages) => messages.get(id),
            None => None,
        }
    }

    /// The messages of `domain`.
    pub fn get_all(&self, domain: &str) -> (r: Option<&Table<String>>)
        requires
            self.wf(),
        ensures
            match r {
                Some(t) => t.wf() && self@.messages.contains_key(domain@) && table_texts(*t)
                    == self@.messages[domain@],
                None => !self@.messages.contains_key(domain@),
            },
    {
        self.messages.get(domain)
    }

    /// Puts `message` under `id` in `domain`, giving back the message that
    /// was there.
    pub fn insert(&mut self, domain: &str, id: &str, message: &str) -> (r: Option<String>)
        requires
            old(self).wf(),
        ensures
            final(self).wf(),
            final(self)@.locale == old(self)@.locale,
            final(self)@.messages == old(self)@.messages.insert(
                domain@,
                (if old(self)@.messages.contains_key(domain@) {
                    old(self)@.messages[domain@]
                } else {
                    Map::empty()
                }).insert(id@, message@),
            ),
            match r {
                Some(m) => old(self)@.messages.contains_key(domain@)
                    && old(self)@.messages[domain@].contains_key(id@)
                    && old(self)@.messages[domain@][id@] == m@,
                None => !(old(self)@.messages.contains_key(domain@)
                    && old(self)@.messages[domain@].contains_key(id@)),
            },
    {
        let mut t = match self.messages.remove(domain) {
            Some(t) => t,
            None => Table::new(),
        };
        let ghost tb = t@;
        assert(table_texts_of(tb) =~= (if old(self)@.messages.contains_key(domain@) {
            old(self)@.messages[domain@]
        } else {
            Map::empty()
        }));
        let prev = t.insert(id.to_owned(), message.to_owned());
        let ghost tv = table_texts(t);
        assert(tv =~= table_texts_of(tb).insert(id@, message@));
        self.messages.insert(domain.to_owned(), t);
        assert(self@.messages =~= old(self)@.messages.insert(domain@, tv));
        prev
    }

    /// Takes out the message `id` of `domain`; the domain stays.
    pub fn remove(&mut self, domain: &str, id: &str) -> (r: Option<String>)
        requires
            old(self).wf(),
        ensures
            final(self).wf(),
            final(self)@.locale == old(self)@.locale,
            final(self)@.messages == (if old(self)@.messages.contains_key(domain@) {
                old(self)@.messages.insert(domain@, old(self)@.messages[domain@].remove(id@))
            } else {
                old(self)@.messages
            }),
            match r {
                Some(m) => old(self)@.messages.contains_key(domain@)
                    && old(self)@.messages[domain@].contains_key(id@)
                    && old(self)@.messages[domain@][id@] == m@,
                None => !(old(self)@.messages.contains_key(domain@)
                    && old(self)@.messages[domain@].contains_key(id@)),
            },
    {
        match self.messages.remove(domain) {
            Some(t) => {
                let mut t = t;
                let ghost tb = t@;
                let prev = t.remove(id);
                let ghost tv = table_texts(t);
                assert(tv =~= table_texts_of(tb).remove(id@));
                self.messages.insert(domain.to_owned(), t);
                assert(self@.messages =~= old(self)@.messages.insert(domain@, tv));
                prev
            },
            None => {
                assert(self@.messages =~= old(self)@.messages);
                None
            },
        }
    }

    /// Takes out the whole of `domain`.
    pub fn remove_all(&mut self, domain: &str) -> (r: Option<Table<String>>)
        requires
            old(self).wf(),
        ensures
            final(self).wf(),
            final(self)@.locale == old(self)@.locale,
            final(self)@.messages == old(self)@.messages.remove(domain@),
            match r {
                Some(t) => t.wf() && old(self)@.messages.contains_key(domain@) && table_texts(t)
                    == old(self)@.messages[domain@],
                None => !old(self)@.messages.contains_key(domain@),
            },
    {
        let r = self.messages.remove(domain);
        assert(self@.messages =~= old(self)@.messages.remove(domain@));
        r
    }
}

/// The texts of a table of strings, given its map.
pub open spec fn table_texts_of(m: Map<Seq<char>, String>) -> Map<Seq<char>, Seq<char>> {
    m.map_values(|s: String| s@)
}

/// Catalogues, in the order they were added.
#[derive(Debug, Clone, PartialEq, Eq)]
pub struct CatalogueBag {
    catalogues: Vec<Catalogue>,
}

impl View for CatalogueBag {
    type V = Seq<CatalogueView>;

    closed spec fn view(&self) -> Seq<CatalogueView> {
        self.catalogues@.map_values(|c: Catalogue| c@)
    }
}

impl CatalogueBag {
    /// Every catalogue is well formed.
    pub closed spec fn wf(&self) -> bool {
        forall|i: int| 0 <= i < self.catalogues@.len() ==> #[trigger] self.catalogues@[i].wf()
    }

    /// An empty bag.
    pub fn new() -> (r: CatalogueBag)
        ensures
            r.wf(),
            r@ == Seq::<CatalogueView>::empty(),
    {
        let r = CatalogueBag { catalogues: Vec::new() };
        assert(r@ =~= Seq::<CatalogueView>::empty());
        r
    }

    /// A bag of the given catalogues.
    pub fn with_catalogues(catalogues: Vec<Catalogue>) -> (r: CatalogueBag)
        requires
            forall|i: int| 0 <= i < catalogues@.len() ==> #[trigger] catalogues@[i].wf(),
        ensures
            r.wf(),
            r@ == catalogues@.map_values(|c: Catalogue| c@),
    {
        CatalogueBag { catalogues }
    }

    /// Moves the catalogues of `other` after those of `self`.
    pub fn append(&mut self, other: &mut CatalogueBag)
        requires
            old(self).wf(),
            old(other).wf(),
        ensures
            final(self).wf(),
            final(other).wf(),
            final(self)@ == old(self)@ + old(other)@,
            final(other)@ == Seq::<CatalogueView>::empty(),
    {
        self.catalogues.append(&mut other.catalogues);
        assert(self@ =~= old(self)@ + old(other)@);
        assert(other@ =~= Seq::<CatalogueView>::empty());
    }

    /// Adds a catalogue at the end.
    pub fn insert(&mut self, catalogue: Catalogue)
        requires
            old(self).wf(),
            catalogue.wf(),
        ensures
            final(self).wf(),
            final(self)@ == old(self)@.push(catalogue@),
    {
        self.catalogues.push(catalogue);
        assert(self@ =~= old(self)@.push(catalogue@));
    }

    /// The catalogues of `locale`, in order.
    pub fn get(&self, locale: &Locale) -> (r: Vec<&Catalogue>)
        requires
            self.wf(),
        ensures
            r@.map_values(|c: &Catalogue| c@) == self@.filter(
                |c: CatalogueView| c.locale == *locale,
            ),
            forall|i: int| 0 <= i < r@.len() ==> #[trigger] r@[i].wf(),
    {
        let mut r: Vec<&Catalogue> = Vec::new();
        let mut i: usize = 0;
        let ghost pred = |c: CatalogueView| c.locale == *locale;
        proof {
            reveal(Seq::filter);
        }
        assert(self@.subrange(0, 0).filter(pred) =~= Seq::<CatalogueView>::empty());
        while i < self.catalogues.len()
            invariant
                self.wf(),
                i <= self.catalogues@.len(),
                pred == (|c: CatalogueView| c.locale == *locale),
                r@.map_values(|c: &Catalogue| c@) == self@.subrange(0, i as int).filter(pred),
                forall|j: int| 0 <= j < r@.len() ==> #[trigger] r@[j].wf(),
            decreases self.catalogues@.len() - i,
        {
            let ghost before = r@.map_values(|c: &Catalogue| c@);
            assert(self@.subrange(0, i + 1).drop_last() =~= self@.subrange(0, i as int));
            assert(self@.subrange(0, i + 1).last() == self@[i as int]);
            assert(self@[i as int] == self.catalogues@[i as int]@);
            assert(pred(self@[i as int]) == (self.catalogues@[i as int].locale == *locale));
            let ghost s1 = self@.subrange(0, i + 1);
            proof {
                reveal(Seq::filter);
            }
            assert(s1.filter(pred) == (if pred(s1.last()) {
                s1.drop_last().filter(pred).push(s1.last())
            } else {
                s1.drop_last().filter(pred)
            }));
            if *self.catalogues[i].locale() == *locale {
                r.push(&self.catalogues[i]);
                assert(r@.map_values(|c: &Catalogue| c@) =~= before.push(self@[i as int]));
            } else {
                assert(r@.map_values(|c: &Catalogue| c@) =~= before);
            }
            i = i + 1;
        }
        assert(self@.subrange(0, self@.len() as int) =~= self@);
        r
    }

    /// Whether the bag holds no catalogue.
    pub fn is_empty(&self) -> (r: bool)
        ensures
            r == (self@.len() == 0),
    {
        self.catalogues.len() == 0
    }
}

} // verus!
