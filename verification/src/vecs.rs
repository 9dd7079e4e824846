//! Fixtures for vectors: empty and populated, over strings and bytes.

use crate::codec::{all_fit, lemma_text_fits, Wire};
use crate::samples::{
    fixture, lemma_fixture_reads_back, lemma_samples_of_fitting_catalog, produce_samples,
    reads_back, sample_models, Sample, SampleModel,
};
use core::convert::Infallible;
use vstd::prelude::*;

verus! {

/// The fixture rows for vectors.
pub struct Options {
    pub strings: Vec<Sample<Vec<String>>>,
    pub u8s: Vec<Sample<Vec<u8>>>,
}

/// What the fixture rows for vectors stand for.
pub struct OptionsModel {
    pub strings: Seq<SampleModel<Seq<Seq<char>>>>,
    pub u8s: Seq<SampleModel<Seq<u8>>>,
}

impl View for Options {
    type V = OptionsModel;

    open spec fn view(&self) -> OptionsModel {
        OptionsModel { strings: sample_models(self.strings@), u8s: sample_models(self.u8s@) }
    }
}

/// No string, the empty string alone, one word, and two strings.
pub open spec fn vec_string_catalog() -> Seq<Seq<Seq<char>>> {
    seq![Seq::empty(), seq![""@], seq!["Bob"@], seq!["Bob"@, "Harry and Luise"@]]
}

/// No byte, zero alone, and three bytes up to the largest.
pub open spec fn vec_u8_catalog() -> Seq<Seq<u8>> {
    seq![Seq::empty(), seq![0u8], seq![0u8, 1u8, 255u8]]
}

/// The fixture for vectors: every catalog entry with its encoding.
pub open spec fn vecs_fixture() -> OptionsModel {
    OptionsModel {
        strings: fixture::<Vec<String>>(vec_string_catalog()),
        u8s: fixture::<Vec<u8>>(vec_u8_catalog()),
    }
}

/// Every entry of the two catalogs can be encoded, so that no row is
/// dropped.
pub proof fn lemma_vecs_catalogs_fit()
    ensures
        all_fit::<Vec<String>>(vec_string_catalog()),
        all_fit::<Vec<u8>>(vec_u8_catalog()),
{
    reveal_strlit("");
    reveal_strlit("Bob");
    reveal_strlit("Harry and Luise");
    lemma_text_fits(""@);
    lemma_text_fits("Bob"@);
    lemma_text_fits("Harry and Luise"@);
}

/// Round trip: every row of the fixture reads back as its value.
pub proof fn lemma_vecs_read_back()
    ensures
        reads_back::<Vec<String>>(vecs_fixture().strings),
        reads_back::<Vec<u8>>(vecs_fixture().u8s),
{
    lemma_vecs_catalogs_fit();
    lemma_fixture_reads_back::<Vec<String>>(vec_string_catalog());
    lemma_fixture_reads_back::<Vec<u8>>(vec_u8_catalog());
}

/// Boundary coverage: each catalog holds the empty vector.
pub proof fn lemma_vecs_cover_empty()
    ensures
        vec_string_catalog().contains(Seq::empty()),
        vec_u8_catalog().contains(Seq::empty()),
{
    assert(vec_string_catalog()[0] == Seq::<Seq<char>>::empty());
    assert(vec_u8_catalog()[0] == Seq::<u8>::empty());
}

/// Builds the fixture rows for vectors. The call never fails, and no
/// catalog entry is dropped.
pub fn produce_vecs() -> (r: Result<Options, Infallible>)
    ensures
        r is Ok,
        r->Ok_0@ == vecs_fixture(),
{
    let strings = {
        let a: Vec<String> = vec![];
        let b = vec!["".to_string()];
        let c = vec!["Bob".to_string()];
        let d = vec!["Bob".to_string(), "Harry and Luise".to_string()];
        proof {
            assert(a.model() == vec_string_catalog()[0]);
            assert(b.model() == vec_string_catalog()[1]);
            assert(c.model() == vec_string_catalog()[2]);
            assert(d.model() == vec_string_catalog()[3]);
        }
        let xs = vec![a, b, c, d];
        proof {
            lemma_vecs_catalogs_fit();
            assert(xs.model() == vec_string_catalog());
            lemma_samples_of_fitting_catalog::<Vec<String>>(vec_string_catalog());
        }
        produce_samples(xs)?
    };
    let u8s = {
        let a: Vec<u8> = vec![];
        let b = vec![0u8];
        let c = vec![0u8, 1u8, 255u8];
        proof {
            assert(a.model() == vec_u8_catalog()[0]);
            assert(b.model() == vec_u8_catalog()[1]);
            assert(c.model() == vec_u8_catalog()[2]);
        }
        let xs = vec![a, b, c];
        proof {
            assert(xs.model() == vec_u8_catalog());
            lemma_samples_of_fitting_catalog::<Vec<u8>>(vec_u8_catalog());
        }
        produce_samples(xs)?
    };

    Ok(Options { strings, u8s })
}

} // verus!
