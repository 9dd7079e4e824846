//! Fixtures for nested shapes: vectors of optional bytes and optional
//! vectors of bytes.

use crate::codec::{all_fit, Wire};
use crate::samples::{
    fixture, lemma_fixture_reads_back, lemma_samples_of_fitting_catalog, produce_samples,
    reads_back, sample_models, Sample, SampleModel,
};
use core::convert::Infallible;
use vstd::prelude::*;

verus! {

/// The fixture rows for nested shapes.
pub struct Composites {
    pub vec_opt_u8s: Vec<Sample<Vec<Option<u8>>>>,
    pub opt_vec_u8s: Vec<Sample<Option<Vec<u8>>>>,
}

/// What the fixture rows for nested shapes stand for.
pub struct CompositesModel {
    pub vec_opt_u8s: Seq<SampleModel<Seq<Option<u8>>>>,
    pub opt_vec_u8s: Seq<SampleModel<Option<Seq<u8>>>>,
}

impl View for Composites {
    type V = CompositesModel;

    open spec fn view(&self) -> CompositesModel {
        CompositesModel {
            vec_opt_u8s: sample_models(self.vec_opt_u8s@),
            opt_vec_u8s: sample_models(self.opt_vec_u8s@),
        }
    }
}

/// An empty vector, one absent byte, and a mix of absent and present bytes.
pub open spec fn vec_opt_u8_catalog() -> Seq<Seq<Option<u8>>> {
    seq![Seq::empty(), seq![None], seq![None, Some(5u8), Some(7u8)]]
}

/// A present empty vector, an absent vector, and a present vector of two.
pub open spec fn opt_vec_u8_catalog() -> Seq<Option<Seq<u8>>> {
    seq![Some(Seq::empty()), None, Some(seq![5u8, 7u8])]
}

/// The fixture for nested shapes: every catalog entry with its encoding.
pub open spec fn composites_fixture() -> CompositesModel {
    CompositesModel {
        vec_opt_u8s: fixture::<Vec<Option<u8>>>(vec_opt_u8_catalog()),
        opt_vec_u8s: fixture::<Option<Vec<u8>>>(opt_vec_u8_catalog()),
    }
}

/// Every entry of the two catalogs can be encoded, so that no row is
/// dropped.
pub proof fn lemma_composites_catalogs_fit()
    ensures
        all_fit::<Vec<Option<u8>>>(vec_opt_u8_catalog()),
        all_fit::<Option<Vec<u8>>>(opt_vec_u8_catalog()),
{
}

/// Round trip: every row of the fixture reads back as its value.
pub proof fn lemma_composites_read_back()
    ensures
        reads_back::<Vec<Option<u8>>>(composites_fixture().vec_opt_u8s),
        reads_back::<Option<Vec<u8>>>(composites_fixture().opt_vec_u8s),
{
    lemma_composites_catalogs_fit();
    lemma_fixture_reads_back::<Vec<Option<u8>>>(vec_opt_u8_catalog());
    lemma_fixture_reads_back::<Option<Vec<u8>>>(opt_vec_u8_catalog());
}

/// Boundary coverage: the vectors include the empty one, and the optional
/// vectors an absent one, a present one and a present empty one.
pub proof fn lemma_composites_cover_bounds()
    ensures
        vec_opt_u8_catalog().contains(Seq::empty()),
        opt_vec_u8_catalog().contains(None),
        opt_vec_u8_catalog().contains(Some(Seq::empty())),
        exists|i: int|
            0 <= i < opt_vec_u8_catalog().len() && (#[trigger] opt_vec_u8_catalog()[i]) is Some,
{
    assert(vec_opt_u8_catalog()[0] == Seq::<Option<u8>>::empty());
    assert(opt_vec_u8_catalog()[0] == Some(Seq::<u8>::empty()));
    assert(opt_vec_u8_catalog()[1] == None::<Seq<u8>>);
}

/// Builds the fixture rows for nested shapes. The call never fails, and no
/// catalog entry is dropped.
pub fn produce_composites() -> (r: Result<Composites, Infallible>)
    ensures
        r is Ok,
        r->Ok_0@ == composites_fixture(),
{
    let vec_opt_u8s = {
        let a: Vec<Option<u8>> = vec![];
        let b: Vec<Option<u8>> = vec![None];
        let c = vec![None, Some(5u8), Some(7u8)];
        proof {
            assert(a.model() == vec_opt_u8_catalog()[0]);
            assert(b.model() == vec_opt_u8_catalog()[1]);
            assert(c.model() == vec_opt_u8_catalog()[2]);
        }
        let xs = vec![a, b, c];
        proof {
            assert(xs.model() == vec_opt_u8_catalog());
            lemma_composites_catalogs_fit();
            lemma_samples_of_fitting_catalog::<Vec<Option<u8>>>(vec_opt_u8_catalog());
        }
        produce_samples(xs)?
    };
    let opt_vec_u8s = {
        let a: Vec<u8> = vec![];
        let c = vec![5u8, 7u8];
        proof {
            assert(a.model() == Seq::<u8>::empty());
            assert(c.model() == seq![5u8, 7u8]);
        }
        let xs = vec![Some(a), None, Some(c)];
        proof {
            assert(xs.model() == opt_vec_u8_catalog());
            lemma_composites_catalogs_fit();
            lemma_samples_of_fitting_catalog::<Option<Vec<u8>>>(opt_vec_u8_catalog());
        }
        produce_samples(xs)?
    };

    Ok(Composites { vec_opt_u8s, opt_vec_u8s })
}

} // verus!
