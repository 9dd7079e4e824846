//! Fixtures for tuples: of fixed size, with parts of varying size, and
//! nested in vectors.

use crate::codec::{all_fit, lemma_text_fits, Wire};
use crate::samples::{
    fixture, lemma_fixture_reads_back, lemma_samples_of_fitting_catalog, produce_samples,
    reads_back, sample_models, Sample, SampleModel,
};
use core::convert::Infallible;
use vstd::prelude::*;

verus! {

/// The fixture rows for tuples.
pub struct Tuples {
    pub u8_u8s: Vec<Sample<(u8, u8)>>,
    pub u8_i16_u32s: Vec<Sample<(u8, i16, u32)>>,
    pub u8_strings: Vec<Sample<(u8, String)>>,
    pub string_u16s: Vec<Sample<(String, u16)>>,
    pub u8_vec_i32s_i8: Vec<Sample<(u8, Vec<i32>, i8)>>,
    pub vec_u8_u8s: Vec<Sample<Vec<(u8, u8)>>>,
    pub vec_u8_strings: Vec<Sample<Vec<(u8, String)>>>,
}

/// What the fixture rows for tuples stand for.
pub struct TuplesModel {
    pub u8_u8s: Seq<SampleModel<(u8, u8)>>,
    pub u8_i16_u32s: Seq<SampleModel<(u8, i16, u32)>>,
    pub u8_strings: Seq<SampleModel<(u8, Seq<char>)>>,
    pub string_u16s: Seq<SampleModel<(Seq<char>, u16)>>,
    pub u8_vec_i32s_i8: Seq<SampleModel<(u8, Seq<i32>, i8)>>,
    pub vec_u8_u8s: Seq<SampleModel<Seq<(u8, u8)>>>,
    pub vec_u8_strings: Seq<SampleModel<Seq<(u8, Seq<char>)>>>,
}

impl View for Tuples {
    type V = TuplesModel;

    open spec fn view(&self) -> TuplesModel {
        TuplesModel {
            u8_u8s: sample_models(self.u8_u8s@),
            u8_i16_u32s: sample_models(self.u8_i16_u32s@),
            u8_strings: sample_models(self.u8_strings@),
            string_u16s: sample_models(self.string_u16s@),
            u8_vec_i32s_i8: sample_models(self.u8_vec_i32s_i8@),
            vec_u8_u8s: sample_models(self.vec_u8_u8s@),
            vec_u8_strings: sample_models(self.vec_u8_strings@),
        }
    }
}

/// Pairs of bytes.
pub open spec fn u8_u8_catalog() -> Seq<(u8, u8)> {
    seq![(1u8, 1u8), (1u8, 2u8), (3u8, 3u8)]
}

/// Triples of integers of three widths, with negative numbers and zeros.
pub open spec fn u8_i16_u32_catalog() -> Seq<(u8, i16, u32)> {
    seq![(1u8, 2i16, 3u32), (9u8, -9i16, 22u32), (0u8, -5i16, 0u32)]
}

/// A byte before a string.
pub open spec fn u8_string_catalog() -> Seq<(u8, Seq<char>)> {
    seq![(1u8, "1"@), (2u8, "22"@), (3u8, "333"@)]
}

/// A string before a number.
pub open spec fn string_u16_catalog() -> Seq<(Seq<char>, u16)> {
    seq![("hello world"@, 100u16), ("hola mundo"@, 200u16)]
}

/// A vector between two bytes.
pub open spec fn u8_vec_i32_i8_catalog() -> Seq<(u8, Seq<i32>, i8)> {
    seq![
        (1u8, seq![1i32, 2i32, 3i32, 4i32], 11i8),
        (2u8, seq![-4i32, -3i32, -2i32, -1i32, 0i32, 1i32, 2i32, 3i32, 4i32], 22i8),
        (
            3u8,
            seq![-1i32, 0i32, 1i32, 2i32, 3i32, 4i32, 5i32, 6i32, 7i32, 8i32, 9i32],
            33i8,
        ),
    ]
}

/// Vectors of pairs of bytes.
pub open spec fn vec_u8_u8_catalog() -> Seq<Seq<(u8, u8)>> {
    seq![
        seq![(1u8, 1u8), (2u8, 2u8), (3u8, 3u8)],
        seq![(1u8, 2u8), (3u8, 4u8), (5u8, 6u8)],
    ]
}

/// Vectors of pairs of a byte and a string.
pub open spec fn vec_u8_string_catalog() -> Seq<Seq<(u8, Seq<char>)>> {
    seq![
        seq![(1u8, "1"@), (2u8, "2"@), (3u8, "3"@)],
        seq![(1u8, "22"@), (3u8, "444"@), (5u8, "6666"@)],
    ]
}

/// The fixture for tuples: every catalog entry with its encoding.
pub open spec fn tuples_fixture() -> TuplesModel {
    TuplesModel {
        u8_u8s: fixture::<(u8, u8)>(u8_u8_catalog()),
        u8_i16_u32s: fixture::<(u8, i16, u32)>(u8_i16_u32_catalog()),
        u8_strings: fixture::<(u8, String)>(u8_string_catalog()),
        string_u16s: fixture::<(String, u16)>(string_u16_catalog()),
        u8_vec_i32s_i8: fixture::<(u8, Vec<i32>, i8)>(u8_vec_i32_i8_catalog()),
        vec_u8_u8s: fixture::<Vec<(u8, u8)>>(vec_u8_u8_catalog()),
        vec_u8_strings: fixture::<Vec<(u8, String)>>(vec_u8_string_catalog()),
    }
}

/// Every string of the catalog can be encoded.
proof fn lemma_strings_fit()
    ensures
        <String as Wire>::fits("1"@),
        <String as Wire>::fits("2"@),
        <String as Wire>::fits("3"@),
        <String as Wire>::fits("22"@),
        <String as Wire>::fits("333"@),
        <String as Wire>::fits("444"@),
        <String as Wire>::fits("6666"@),
        <String as Wire>::fits("hello world"@),
        <String as Wire>::fits("hola mundo"@),
{
    reveal_strlit("1");
    reveal_strlit("2");
    reveal_strlit("3");
    reveal_strlit("22");
    reveal_strlit("333");
    reveal_strlit("444");
    reveal_strlit("6666");
    reveal_strlit("hello world");
    reveal_strlit("hola mundo");
    lemma_text_fits("1"@);
    lemma_text_fits("2"@);
    lemma_text_fits("3"@);
    lemma_text_fits("22"@);
    lemma_text_fits("333"@);
    lemma_text_fits("444"@);
    lemma_text_fits("6666"@);
    lemma_text_fits("hello world"@);
    lemma_text_fits("hola mundo"@);
}

/// Every entry of the seven catalogs can be encoded, so that no row is
/// dropped.
pub proof fn lemma_tuples_catalogs_fit()
    ensures
        all_fit::<(u8, u8)>(u8_u8_catalog()),
        all_fit::<(u8, i16, u32)>(u8_i16_u32_catalog()),
        all_fit::<(u8, String)>(u8_string_catalog()),
        all_fit::<(String, u16)>(string_u16_catalog()),
        all_fit::<(u8, Vec<i32>, i8)>(u8_vec_i32_i8_catalog()),
        all_fit::<Vec<(u8, u8)>>(vec_u8_u8_catalog()),
        all_fit::<Vec<(u8, String)>>(vec_u8_string_catalog()),
{
    lemma_strings_fit();
}

/// Round trip: every row of the fixture reads back as its value.
pub proof fn lemma_tuples_read_back()
    ensures
        reads_back::<(u8, u8)>(tuples_fixture().u8_u8s),
        reads_back::<(u8, i16, u32)>(tuples_fixture().u8_i16_u32s),
        reads_back::<(u8, String)>(tuples_fixture().u8_strings),
        reads_back::<(String, u16)>(tuples_fixture().string_u16s),
        reads_back::<(u8, Vec<i32>, i8)>(tuples_fixture().u8_vec_i32s_i8),
        reads_back::<Vec<(u8, u8)>>(tuples_fixture().vec_u8_u8s),
        reads_back::<Vec<(u8, String)>>(tuples_fixture().vec_u8_strings),
{
    lemma_tuples_catalogs_fit();
    lemma_fixture_reads_back::<(u8, u8)>(u8_u8_catalog());
    lemma_fixture_reads_back::<(u8, i16, u32)>(u8_i16_u32_catalog());
    lemma_fixture_reads_back::<(u8, String)>(u8_string_catalog());
    lemma_fixture_reads_back::<(String, u16)>(string_u16_catalog());
    lemma_fixture_reads_back::<(u8, Vec<i32>, i8)>(u8_vec_i32_i8_catalog());
    lemma_fixture_reads_back::<Vec<(u8, u8)>>(vec_u8_u8_catalog());
    lemma_fixture_reads_back::<Vec<(u8, String)>>(vec_u8_string_catalog());
}

/// Builds the fixture rows for tuples. The call never fails, and no catalog
/// entry is dropped.
pub fn produce_tuples() -> (r: Result<Tuples, Infallible>)
    ensures
        r is Ok,
        r->Ok_0@ == tuples_fixture(),
{
    let u8_u8s = {
        let xs = vec![(1u8, 1u8), (1u8, 2u8), (3u8, 3u8)];
        proof {
            assert(xs.model() == u8_u8_catalog());
            lemma_samples_of_fitting_catalog::<(u8, u8)>(u8_u8_catalog());
        }
        produce_samples(xs)?
    };
    let u8_i16_u32s = {
        let xs = vec![(1u8, 2i16, 3u32), (9u8, -9i16, 22u32), (0u8, -5i16, 0u32)];
        proof {
            assert(xs.model() == u8_i16_u32_catalog());
            lemma_samples_of_fitting_catalog::<(u8, i16, u32)>(u8_i16_u32_catalog());
        }
        produce_samples(xs)?
    };
    let u8_strings = {
        let xs = vec![(1u8, "1".to_string()), (2u8, "22".to_string()), (3u8, "333".to_string())];
        proof {
            lemma_strings_fit();
            assert(xs.model() == u8_string_catalog());
            lemma_samples_of_fitting_catalog::<(u8, String)>(u8_string_catalog());
        }
        produce_samples(xs)?
    };
    let string_u16s = {
        let xs = vec![("hello world".to_string(), 100u16), ("hola mundo".to_string(), 200u16)];
        proof {
            lemma_strings_fit();
            assert(xs.model() == string_u16_catalog());
            lemma_samples_of_fitting_catalog::<(String, u16)>(string_u16_catalog());
        }
        produce_samples(xs)?
    };
    let u8_vec_i32s_i8 = {
        let a = vec![1i32, 2i32, 3i32, 4i32];
        let b = vec![-4i32, -3i32, -2i32, -1i32, 0i32, 1i32, 2i32, 3i32, 4i32];
        let c = vec![-1i32, 0i32, 1i32, 2i32, 3i32, 4i32, 5i32, 6i32, 7i32, 8i32, 9i32];
        proof {
            assert(a.model() == u8_vec_i32_i8_catalog()[0].1);
            assert(b.model() == u8_vec_i32_i8_catalog()[1].1);
            assert(c.model() == u8_vec_i32_i8_catalog()[2].1);
        }
        let xs = vec![(1u8, a, 11i8), (2u8, b, 22i8), (3u8, c, 33i8)];
        proof {
            assert(xs.model() == u8_vec_i32_i8_catalog());
            lemma_samples_of_fitting_catalog::<(u8, Vec<i32>, i8)>(u8_vec_i32_i8_catalog());
        }
        produce_samples(xs)?
    };

    let vec_u8_u8s = {
        let a = vec![(1u8, 1u8), (2u8, 2u8), (3u8, 3u8)];
        let b = vec![(1u8, 2u8), (3u8, 4u8), (5u8, 6u8)];
        proof {
            assert(a.model() == vec_u8_u8_catalog()[0]);
            assert(b.model() == vec_u8_u8_catalog()[1]);
        }
        let xs = vec![a, b];
        proof {
            assert(xs.model() == vec_u8_u8_catalog());
            lemma_samples_of_fitting_catalog::<Vec<(u8, u8)>>(vec_u8_u8_catalog());
        }
        produce_samples(xs)?
    };

    let vec_u8_strings = {
        let a = vec![(1u8, "1".to_string()), (2u8, "2".to_string()), (3u8, "3".to_string())];
        let b = vec![(1u8, "22".to_string()), (3u8, "444".to_string()), (5u8, "6666".to_string())];
        proof {
            assert(a.model() == vec_u8_string_catalog()[0]);
            assert(b.model() == vec_u8_string_catalog()[1]);
        }
        let xs = vec![a, b];
        proof {
            lemma_strings_fit();
            assert(xs.model() == vec_u8_string_catalog());
            lemma_samples_of_fitting_catalog::<Vec<(u8, String)>>(vec_u8_string_catalog());
        }
        produce_samples(xs)?
    };

    Ok(
        Tuples {
            u8_u8s,
            u8_i16_u32s,
            u8_strings,
            string_u16s,
            u8_vec_i32s_i8,
            vec_u8_u8s,
            vec_u8_strings,
        },
    )
}

} // verus!
