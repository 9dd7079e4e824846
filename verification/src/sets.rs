//! Fixtures for sets: hash sets and ordered sets of bytes, hash sets of
//! strings, and vectors of sets.

use crate::codec::{all_fit, lemma_text_fits, Wire};
use crate::collections::{
    byte_btree_set, byte_hash_set, lemma_set_of_fits, string_hash_set, texts,
};
use crate::samples::{
    fixture, lemma_fixture_reads_back, lemma_samples_of_fitting_catalog, produce_samples,
    reads_back, sample_models, Sample, SampleModel,
};
use core::convert::Infallible;
use std::collections::{BTreeSet, HashSet};
use vstd::prelude::*;

verus! {

/// The fixture rows for sets.
pub struct Sets {
    pub hash_set_u8s: Vec<Sample<HashSet<u8>>>,
    pub btree_set_u8s: Vec<Sample<BTreeSet<u8>>>,
    pub hash_set_strings: Vec<Sample<HashSet<String>>>,
    pub vec_hash_set_strings: Vec<Sample<Vec<HashSet<String>>>>,
}

/// What the fixture rows for sets stand for.
pub struct SetsModel {
    pub hash_set_u8s: Seq<SampleModel<Set<u8>>>,
    pub btree_set_u8s: Seq<SampleModel<Set<u8>>>,
    pub hash_set_strings: Seq<SampleModel<Set<Seq<char>>>>,
    pub vec_hash_set_strings: Seq<SampleModel<Seq<Set<Seq<char>>>>>,
}

impl View for Sets {
    type V = SetsModel;

    open spec fn view(&self) -> SetsModel {
        SetsModel {
            hash_set_u8s: sample_models(self.hash_set_u8s@),
            btree_set_u8s: sample_models(self.btree_set_u8s@),
            hash_set_strings: sample_models(self.hash_set_strings@),
            vec_hash_set_strings: sample_models(self.vec_hash_set_strings@),
        }
    }
}

/// The three sets of bytes: small, middling and up to the largest byte.
pub open spec fn byte_sets() -> Seq<Set<u8>> {
    seq![set![1u8, 2u8, 3u8], set![11u8, 22u8, 33u8], set![111u8, 222u8, 255u8]]
}

/// The Spanish numerals.
pub open spec fn spanish_words() -> Set<Seq<char>> {
    set!["Uno"@, "Dos"@, "Tres"@]
}

/// The German numerals.
pub open spec fn german_words() -> Set<Seq<char>> {
    set!["Eins"@, "Zwei"@, "Drei"@, "Vier"@]
}

/// The two sets of strings.
pub open spec fn string_sets() -> Seq<Set<Seq<char>>> {
    seq![spanish_words(), german_words()]
}

/// The sets of strings as two vectors, in both orders.
pub open spec fn vecs_of_string_sets() -> Seq<Seq<Set<Seq<char>>>> {
    seq![seq![spanish_words(), german_words()], seq![german_words(), spanish_words()]]
}

/// The fixture for sets: every catalog entry with its encoding.
pub open spec fn sets_fixture() -> SetsModel {
    SetsModel {
        hash_set_u8s: fixture::<HashSet<u8>>(byte_sets()),
        btree_set_u8s: fixture::<BTreeSet<u8>>(byte_sets()),
        hash_set_strings: fixture::<HashSet<String>>(string_sets()),
        vec_hash_set_strings: fixture::<Vec<HashSet<String>>>(vecs_of_string_sets()),
    }
}

/// The sets of bytes are what the literal arrays hold, and can be encoded.
proof fn lemma_byte_sets()
    ensures
        seq![1u8, 2u8, 3u8].to_set() == byte_sets()[0],
        seq![11u8, 22u8, 33u8].to_set() == byte_sets()[1],
        seq![111u8, 222u8, 255u8].to_set() == byte_sets()[2],
        all_fit::<HashSet<u8>>(byte_sets()),
        all_fit::<BTreeSet<u8>>(byte_sets()),
{
    let a = seq![1u8, 2u8, 3u8];
    let b = seq![11u8, 22u8, 33u8];
    let c = seq![111u8, 222u8, 255u8];
    assert(a.to_set() =~= set![1u8, 2u8, 3u8]) by {
        assert(a[0] == 1u8 && a[1] == 2u8 && a[2] == 3u8);
    }
    assert(b.to_set() =~= set![11u8, 22u8, 33u8]) by {
        assert(b[0] == 11u8 && b[1] == 22u8 && b[2] == 33u8);
    }
    assert(c.to_set() =~= set![111u8, 222u8, 255u8]) by {
        assert(c[0] == 111u8 && c[1] == 222u8 && c[2] == 255u8);
    }
    lemma_set_of_fits::<u8>(a);
    lemma_set_of_fits::<u8>(b);
    lemma_set_of_fits::<u8>(c);
}

/// The sets of strings are what the literal arrays hold, and can be encoded.
proof fn lemma_string_sets()
    ensures
        seq!["Uno"@, "Dos"@, "Tres"@].to_set() == spanish_words(),
        seq!["Eins"@, "Zwei"@, "Drei"@, "Vier"@].to_set() == german_words(),
        <HashSet<String> as Wire>::fits(spanish_words()),
        <HashSet<String> as Wire>::fits(german_words()),
{
    let a = seq!["Uno"@, "Dos"@, "Tres"@];
    let b = seq!["Eins"@, "Zwei"@, "Drei"@, "Vier"@];
    assert(a.to_set() =~= spanish_words()) by {
        assert(a[0] == "Uno"@ && a[1] == "Dos"@ && a[2] == "Tres"@);
    }
    assert(b.to_set() =~= german_words()) by {
        assert(b[0] == "Eins"@ && b[1] == "Zwei"@ && b[2] == "Drei"@ && b[3] == "Vier"@);
    }
    reveal_strlit("Uno");
    reveal_strlit("Dos");
    reveal_strlit("Tres");
    reveal_strlit("Eins");
    reveal_strlit("Zwei");
    reveal_strlit("Drei");
    reveal_strlit("Vier");
    lemma_text_fits("Uno"@);
    lemma_text_fits("Dos"@);
    lemma_text_fits("Tres"@);
    lemma_text_fits("Eins"@);
    lemma_text_fits("Zwei"@);
    lemma_text_fits("Drei"@);
    lemma_text_fits("Vier"@);
    lemma_set_of_fits::<String>(a);
    lemma_set_of_fits::<String>(b);
}

/// Every entry of the four catalogs can be encoded, so that no row is
/// dropped.
pub proof fn lemma_sets_catalogs_fit()
    ensures
        all_fit::<HashSet<u8>>(byte_sets()),
        all_fit::<BTreeSet<u8>>(byte_sets()),
        all_fit::<HashSet<String>>(string_sets()),
        all_fit::<Vec<HashSet<String>>>(vecs_of_string_sets()),
{
    lemma_byte_sets();
    lemma_string_sets();
}

/// Round trip: every row of the fixture reads back as its value.
pub proof fn lemma_sets_read_back()
    ensures
        reads_back::<HashSet<u8>>(sets_fixture().hash_set_u8s),
        reads_back::<BTreeSet<u8>>(sets_fixture().btree_set_u8s),
        reads_back::<HashSet<String>>(sets_fixture().hash_set_strings),
        reads_back::<Vec<HashSet<String>>>(sets_fixture().vec_hash_set_strings),
{
    lemma_sets_catalogs_fit();
    lemma_fixture_reads_back::<HashSet<u8>>(byte_sets());
    lemma_fixture_reads_back::<BTreeSet<u8>>(byte_sets());
    lemma_fixture_reads_back::<HashSet<String>>(string_sets());
    lemma_fixture_reads_back::<Vec<HashSet<String>>>(vecs_of_string_sets());
}

/// The hash set of the Spanish numerals.
fn spanish_set() -> (s: HashSet<String>)
    ensures
        s.model() == spanish_words(),
{
    let items = ["Uno".to_string(), "Dos".to_string(), "Tres".to_string()];
    proof {
        lemma_string_sets();
        assert(texts(items@) == seq!["Uno"@, "Dos"@, "Tres"@]);
    }
    string_hash_set(items)
}

/// The hash set of the German numerals.
fn german_set() -> (s: HashSet<String>)
    ensures
        s.model() == german_words(),
{
    let items = ["Eins".to_string(), "Zwei".to_string(), "Drei".to_string(), "Vier".to_string()];
    proof {
        lemma_string_sets();
        assert(texts(items@) == seq!["Eins"@, "Zwei"@, "Drei"@, "Vier"@]);
    }
    string_hash_set(items)
}

/// Builds the fixture rows for sets. The call never fails, and no catalog
/// entry is dropped.
pub fn produce_sets() -> (r: Result<Sets, Infallible>)
    ensures
        r is Ok,
        r->Ok_0@ == sets_fixture(),
{
    let small = [1u8, 2u8, 3u8];
    let middling = [11u8, 22u8, 33u8];
    let large = [111u8, 222u8, 255u8];

    let hash_set_u8s = {
        let hm1 = byte_hash_set(&small);
        let hm2 = byte_hash_set(&middling);
        let hm3 = byte_hash_set(&large);
        let xs = vec![hm1, hm2, hm3];
        proof {
            lemma_byte_sets();
            assert(xs.model() == byte_sets());
            lemma_samples_of_fitting_catalog::<HashSet<u8>>(byte_sets());
        }
        produce_samples(xs)?
    };

    let btree_set_u8s = {
        let btm1 = byte_btree_set(&small);
        let btm2 = byte_btree_set(&middling);
        let btm3 = byte_btree_set(&large);
        let xs = vec![btm1, btm2, btm3];
        proof {
            lemma_byte_sets();
            assert(xs.model() == byte_sets());
            lemma_samples_of_fitting_catalog::<BTreeSet<u8>>(byte_sets());
        }
        produce_samples(xs)?
    };

    let hash_set_strings = {
        let hm1 = spanish_set();
        let hm2 = german_set();
        let xs = vec![hm1, hm2];
        proof {
            lemma_string_sets();
            assert(xs.model() == string_sets());
            lemma_samples_of_fitting_catalog::<HashSet<String>>(string_sets());
        }
        produce_samples(xs)?
    };

    let vec_hash_set_strings = {
        let forth = vec![spanish_set(), german_set()];
        let back = vec![german_set(), spanish_set()];
        proof {
            assert(forth.model() == vecs_of_string_sets()[0]);
            assert(back.model() == vecs_of_string_sets()[1]);
        }
        let xs = vec![forth, back];
        proof {
            lemma_string_sets();
            assert(xs.model() == vecs_of_string_sets());
            lemma_samples_of_fitting_catalog::<Vec<HashSet<String>>>(vecs_of_string_sets());
        }
        produce_samples(xs)?
    };

    Ok(Sets { hash_set_u8s, btree_set_u8s, hash_set_strings, vec_hash_set_strings })
}

} // verus!
