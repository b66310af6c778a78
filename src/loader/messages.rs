//! The contents of catalogue files: TOML documents of string messages.
use vstd::prelude::*;

use crate::catalogue::pairs_model;
use crate::catalogue::Catalogue;
use crate::error::Error;
use crate::loader::error::Error as LoadingError;

verus! {

pub uninterp spec fn toml_strings(content: Seq<char>) -> Option<Map<Seq<char>, Seq<char>>>;

/// Relies on `toml::from_str::<HashMap<String, String>>`: a document whose
/// keys all hold strings, read as a map; any other text is an error.  The
/// pairs come out in no particular order; their keys are those of the map.
#[verifier::external_body]
fn parse_toml_strings(content: &str) -> (r: Result<Vec<(String, String)>, String>)
    ensures
        match r {
            Ok(pairs) => toml_strings(content@) == Some(pairs_model(pairs@)),
            Err(_) => toml_strings(content@) is None,
        },
{
    match toml::from_str::<std::collections::HashMap<String, String>>(content) {
        Ok(m) => Ok(m.into_iter().collect()),
        Err(e) => Err(e.to_string()),
    }
}

/// The domains after each pair is put into `domain`, in order.
pub open spec fn inserted(
    m: Map<Seq<char>, Map<Seq<char>, Seq<char>>>,
    domain: Seq<char>,
    ps: Seq<(String, String)>,
) -> Map<Seq<char>, Map<Seq<char>, Seq<char>>>
    decreases ps.len(),
{
    if ps.len() == 0 {
        m
    } else {
        let m0 = inserted(m, domain, ps.drop_last());
        m0.insert(
            domain,
            (if m0.contains_key(domain) {
                m0[domain]
            } else {
                Map::empty()
            }).insert(ps.last().0@, ps.last().1@),
        )
    }
}

/// The messages of `domain` in `m`, or none.
pub open spec fn domain_of(
    m: Map<Seq<char>, Map<Seq<char>, Seq<char>>>,
    domain: Seq<char>,
) -> Map<Seq<char>, Seq<char>> {
    if m.contains_key(domain) {
        m[domain]
    } else {
        Map::empty()
    }
}

proof fn lemma_inserted(
    m: Map<Seq<char>, Map<Seq<char>, Seq<char>>>,
    domain: Seq<char>,
    ps: Seq<(String, String)>,
)
    ensures
        inserted(m, domain, ps) == if ps.len() == 0 {
            m
        } else {
            m.insert(domain, domain_of(m, domain).union_prefer_right(pairs_model(ps)))
        },
        ps.len() > 0 ==> pairs_model(ps) != Map::<Seq<char>, Seq<char>>::empty(),
    decreases ps.len(),
{
    if ps.len() > 0 {
        let init = ps.drop_last();
        lemma_inserted(m, domain, init);
        assert(pairs_model(ps).contains_key(ps.last().0@));
        if init.len() == 0 {
            assert(pairs_model(init) =~= Map::<Seq<char>, Seq<char>>::empty());
            assert(domain_of(m, domain).insert(ps.last().0@, ps.last().1@) =~= domain_of(
                m,
                domain,
            ).union_prefer_right(pairs_model(ps)));
        } else {
            assert(domain_of(m, domain).union_prefer_right(pairs_model(init)).insert(
                ps.last().0@,
                ps.last().1@,
            ) =~= domain_of(m, domain).union_prefer_right(pairs_model(ps)));
            assert(m.insert(domain, domain_of(m, domain).union_prefer_right(pairs_model(init))).insert(
                domain,
                domain_of(m, domain).union_prefer_right(pairs_model(ps)),
            ) =~= m.insert(domain, domain_of(m, domain).union_prefer_right(pairs_model(ps))));
        }
    }
}

/// Reads the messages of a catalogue file of `domain` into `catalogue`.
/// A file with no message leaves the catalogue as it was; one that is not
/// a document of strings is a `FailedToParseFile` error.
pub fn load_messages(catalogue: &mut Catalogue, domain: &str, content: &str) -> (r: Result<
    (),
    Error,
>)
    requires
        old(catalogue).wf(),
    ensures
        final(catalogue).wf(),
        final(catalogue)@.locale == old(catalogue)@.locale,
        match toml_strings(content@) {
            None => r is Err && r->Err_0 is LoadingError && r->Err_0->LoadingError_0 is FailedToParseFile
                && final(catalogue)@.messages == old(catalogue)@.messages,
            Some(m) => r is Ok && final(catalogue)@.messages == if m == Map::<
                Seq<char>,
                Seq<char>,
            >::empty() {
                old(catalogue)@.messages
            } else {
                old(catalogue)@.messages.insert(
                    domain@,
                    domain_of(old(catalogue)@.messages, domain@).union_prefer_right(m),
                )
            },
        },
{
    match parse_toml_strings(content) {
        Err(e) => Err(Error::LoadingError(LoadingError::FailedToParseFile(e))),
        Ok(pairs) => {
            let ghost start = catalogue@.messages;
            let mut i: usize = 0;
            while i < pairs.len()
                invariant
                    i <= pairs.len(),
                    catalogue.wf(),
                    catalogue@.locale == old(catalogue)@.locale,
                    start == old(catalogue)@.messages,
                    catalogue@.messages == inserted(start, domain@, pairs@.subrange(0, i as int)),
                decreases pairs.len() - i,
            {
                assert(pairs@.subrange(0, i + 1).drop_last() =~= pairs@.subrange(0, i as int));
                catalogue.insert(domain, pairs[i].0.as_str(), pairs[i].1.as_str());
                i = i + 1;
            }
            assert(pairs@.subrange(0, pairs@.len() as int) =~= pairs@);
            proof {
                lemma_inserted(start, domain@, pairs@);
            }
            Ok(())
        },
    }
}

} // verus!
