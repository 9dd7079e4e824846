//! Fixtures for plain values: strings, bytes, and 128-bit numbers kept as
//! decimal text.

use crate::codec::{all_fit, lemma_text_fits, Wire};
use crate::samples::{
    fixture, lemma_fixture_reads_back, lemma_samples_of_fitting_catalog,
    lemma_stringified_fixture_reads_back, lemma_stringified_samples_of_fitting_catalog,
    produce_samples, produce_stringified_samples, reads_back, reads_back_as_text, sample_models,
    stringified_fixture, Sample, SampleModel,
};
use core::convert::Infallible;
use vstd::prelude::*;

verus! {

/// The fixture rows for plain values. A 128-bit number is too wide for the
/// output format, so its row holds its decimal text.
pub struct Simple {
    pub strings: Vec<Sample<String>>,
    pub u8s: Vec<Sample<u8>>,
    pub u128s: Vec<Sample<String>>,
}

/// What the fixture rows for plain values stand for.
pub struct SimpleModel {
    pub strings: Seq<SampleModel<Seq<char>>>,
    pub u8s: Seq<SampleModel<u8>>,
    pub u128s: Seq<SampleModel<Seq<char>>>,
}

impl View for Simple {
    type V = SimpleModel;

    open spec fn view(&self) -> SimpleModel {
        SimpleModel {
            strings: sample_models(self.strings@),
            u8s: sample_models(self.u8s@),
            u128s: sample_models(self.u128s@),
        }
    }
}

/// The empty string, one word, and several words.
pub open spec fn string_catalog() -> Seq<Seq<char>> {
    seq![""@, "Bob"@, "Harry and Bob"@]
}

/// Zero, one, and the largest byte.
pub open spec fn u8_catalog() -> Seq<u8> {
    seq![0u8, 1u8, 255u8]
}

/// Zero, a number in the lowest byte, and the largest 128-bit number.
pub open spec fn u128_catalog() -> Seq<u128> {
    seq![0u128, 255u128, u128::MAX]
}

/// The fixture for plain values: every catalog entry with its encoding.
pub open spec fn simple_fixture() -> SimpleModel {
    SimpleModel {
        strings: fixture::<String>(string_catalog()),
        u8s: fixture::<u8>(u8_catalog()),
        u128s: stringified_fixture::<u128>(u128_catalog()),
    }
}

/// Every entry of the three catalogs can be encoded, so that no row is
/// dropped.
pub proof fn lemma_simple_catalogs_fit()
    ensures
        all_fit::<String>(string_catalog()),
        all_fit::<u8>(u8_catalog()),
        all_fit::<u128>(u128_catalog()),
{
    reveal_strlit("");
    reveal_strlit("Bob");
    reveal_strlit("Harry and Bob");
    lemma_text_fits(""@);
    lemma_text_fits("Bob"@);
    lemma_text_fits("Harry and Bob"@);
}

/// Round trip: every row of the fixture reads back as its value, the rows
/// of 128-bit numbers as the number that their text displays.
pub proof fn lemma_simple_reads_back()
    ensures
        reads_back::<String>(simple_fixture().strings),
        reads_back::<u8>(simple_fixture().u8s),
        reads_back_as_text::<u128>(simple_fixture().u128s),
{
    lemma_simple_catalogs_fit();
    lemma_fixture_reads_back::<String>(string_catalog());
    lemma_fixture_reads_back::<u8>(u8_catalog());
    lemma_stringified_fixture_reads_back::<u128>(u128_catalog());
}

/// Boundary coverage: each numeric catalog holds zero, the largest value of
/// its type, and a value strictly between the two.
pub proof fn lemma_simple_covers_bounds()
    ensures
        u8_catalog().contains(0u8),
        u8_catalog().contains(u8::MAX),
        exists|i: int| 0 <= i < u8_catalog().len() && 0 < #[trigger] u8_catalog()[i] < u8::MAX,
        u128_catalog().contains(0u128),
        u128_catalog().contains(u128::MAX),
        exists|i: int|
            0 <= i < u128_catalog().len() && 0 < #[trigger] u128_catalog()[i] < u128::MAX,
{
    assert(u8_catalog()[0] == 0u8);
    assert(u8_catalog()[1] == 1u8);
    assert(u8_catalog()[2] == u8::MAX);
    assert(u128_catalog()[0] == 0u128);
    assert(u128_catalog()[1] == 255u128);
    assert(u128_catalog()[2] == u128::MAX);
}

/// Builds the fixture rows for plain values. The call never fails, and no
/// catalog entry is dropped.
pub fn produce_simple() -> (r: Result<Simple, Infallible>)
    ensures
        r is Ok,
        r->Ok_0@ == simple_fixture(),
{
    let strings: Vec<String> = vec!["".to_string(), "Bob".to_string(), "Harry and Bob".to_string()];
    proof {
        lemma_simple_catalogs_fit();
        assert(strings.model() == string_catalog());
        lemma_samples_of_fitting_catalog::<String>(string_catalog());
    }
    let strings = produce_samples(strings)?;

    let u8s = {
        let xs = vec![0u8, 1u8, 255u8];
        proof {
            assert(xs.model() == u8_catalog());
            lemma_samples_of_fitting_catalog::<u8>(u8_catalog());
        }
        produce_samples(xs)?
    };
    let u128s = {
        let xs = vec![0u128, 255u128, u128::MAX];
        proof {
            assert(xs.model() == u128_catalog());
            lemma_stringified_samples_of_fitting_catalog::<u128>(u128_catalog());
        }
        produce_stringified_samples(xs)?
    };

    Ok(Simple { strings, u8s, u128s })
}

} // verus!
