//! Fixtures for optional values: absent and present, over strings and bytes.

use crate::codec::{all_fit, lemma_text_fits, Wire};
use crate::samples::{
    fixture, lemma_fixture_reads_back, lemma_samples_of_fitting_catalog, produce_samples,
    reads_back, sample_models, Sample, SampleModel,
};
use core::convert::Infallible;
use vstd::prelude::*;

verus! {

/// The fixture rows for optional values.
pub struct Options {
    pub strings: Vec<Sample<Option<String>>>,
    pub u8s: Vec<Sample<Option<u8>>>,
}

/// What the fixture rows for optional values stand for.
pub struct OptionsModel {
    pub strings: Seq<SampleModel<Option<Seq<char>>>>,
    pub u8s: Seq<SampleModel<Option<u8>>>,
}

impl View for Options {
    type V = OptionsModel;

    open spec fn view(&self) -> OptionsModel {
        OptionsModel { strings: sample_models(self.strings@), u8s: sample_models(self.u8s@) }
    }
}

/// An absent string, one word, and several words.
pub open spec fn option_string_catalog() -> Seq<Option<Seq<char>>> {
    seq![None, Some("Bob"@), Some("Harry and Luise"@)]
}

/// An absent byte, zero, one, and the largest byte.
pub open spec fn option_u8_catalog() -> Seq<Option<u8>> {
    seq![None, Some(0u8), Some(1u8), Some(255u8)]
}

/// The fixture for optional values: every catalog entry with its encoding.
pub open spec fn options_fixture() -> OptionsModel {
    OptionsModel {
        strings: fixture::<Option<String>>(option_string_catalog()),
        u8s: fixture::<Option<u8>>(option_u8_catalog()),
    }
}

/// Every entry of the two catalogs can be encoded, so that no row is
/// dropped.
pub proof fn lemma_options_catalogs_fit()
    ensures
        all_fit::<Option<String>>(option_string_catalog()),
        all_fit::<Option<u8>>(option_u8_catalog()),
{
    reveal_strlit("Bob");
    reveal_strlit("Harry and Luise");
    lemma_text_fits("Bob"@);
    lemma_text_fits("Harry and Luise"@);
}

/// Round trip: every row of the fixture reads back as its value.
pub proof fn lemma_options_read_back()
    ensures
        reads_back::<Option<String>>(options_fixture().strings),
        reads_back::<Option<u8>>(options_fixture().u8s),
{
    lemma_options_catalogs_fit();
    lemma_fixture_reads_back::<Option<String>>(option_string_catalog());
    lemma_fixture_reads_back::<Option<u8>>(option_u8_catalog());
}

/// Boundary coverage: each catalog holds an absent value and a present one,
/// and the bytes hold zero and the largest byte.
pub proof fn lemma_options_cover_bounds()
    ensures
        option_string_catalog().contains(None),
        exists|i: int|
            0 <= i < option_string_catalog().len() && (#[trigger] option_string_catalog()[i])
                is Some,
        option_u8_catalog().contains(None),
        option_u8_catalog().contains(Some(0u8)),
        option_u8_catalog().contains(Some(u8::MAX)),
{
    assert(option_string_catalog()[0] == None::<Seq<char>>);
    assert(option_string_catalog()[1] is Some);
    assert(option_u8_catalog()[0] == None::<u8>);
    assert(option_u8_catalog()[1] == Some(0u8));
    assert(option_u8_catalog()[3] == Some(u8::MAX));
}

/// Builds the fixture rows for optional values. The call never fails, and
/// no catalog entry is dropped.
pub fn produce_options() -> (r: Result<Options, Infallible>)
    ensures
        r is Ok,
        r->Ok_0@ == options_fixture(),
{
    let strings = {
        let xs = vec![None, Some("Bob".to_string()), Some("Harry and Luise".to_string())];
        proof {
            lemma_options_catalogs_fit();
            assert(xs.model() == option_string_catalog());
            lemma_samples_of_fitting_catalog::<Option<String>>(option_string_catalog());
        }
        produce_samples(xs)?
    };
    let u8s = {
        let xs = vec![None, Some(0u8), Some(1u8), Some(255u8)];
        proof {
            assert(xs.model() == option_u8_catalog());
            lemma_samples_of_fitting_catalog::<Option<u8>>(option_u8_catalog());
        }
        produce_samples(xs)?
    };

    Ok(Options { strings, u8s })
}

} // verus!
