//! Fixtures for enums without data: the encoding is the position of the
//! variant in the declaration, in one byte.

use crate::codec::{all_fit, Wire};
use crate::decode::Decode;
use crate::encode::Encode;
use crate::samples::{
    fixture, lemma_fixture_reads_back, lemma_samples_of_fitting_catalog, produce_samples,
    reads_back, sample_models, Sample, SampleModel,
};
use core::convert::Infallible;
use vstd::prelude::*;

verus! {

/// A direction on a grid.
#[derive(Debug, Clone, Copy, PartialEq, Eq)]
pub enum Direction {
    Up,
    Right,
    Down,
    Left,
}

/// A unit of mass by its size in milligrams: a gram is a thousand, a
/// kilogram a million. The encoding knows nothing of these sizes.
#[derive(Debug, Clone, Copy, PartialEq, Eq)]
pub enum Milligrams {
    Grams,
    Kilograms,
}

impl Direction {
    /// The position of the variant in the declaration.
    pub open spec fn index(self) -> u8 {
        match self {
            Direction::Up => 0,
            Direction::Right => 1,
            Direction::Down => 2,
            Direction::Left => 3,
        }
    }
}

impl Milligrams {
    /// The position of the variant in the declaration.
    pub open spec fn index(self) -> u8 {
        match self {
            Milligrams::Grams => 0,
            Milligrams::Kilograms => 1,
        }
    }
}

impl Wire for Direction {
    type Model = Direction;

    open spec fn model(&self) -> Direction {
        *self
    }

    open spec fn fits(m: Direction) -> bool {
        true
    }

    open spec fn wire(m: Direction) -> Seq<u8> {
        seq![m.index()]
    }
}

impl Wire for Milligrams {
    type Model = Milligrams;

    open spec fn model(&self) -> Milligrams {
        *self
    }

    open spec fn fits(m: Milligrams) -> bool {
        true
    }

    open spec fn wire(m: Milligrams) -> Seq<u8> {
        seq![m.index()]
    }
}

impl Decode for Direction {
    open spec fn decode(bytes: Seq<u8>) -> Option<(Direction, Seq<u8>)> {
        if bytes.len() == 0 {
            None
        } else if bytes[0] == 0 {
            Some((Direction::Up, bytes.skip(1)))
        } else if bytes[0] == 1 {
            Some((Direction::Right, bytes.skip(1)))
        } else if bytes[0] == 2 {
            Some((Direction::Down, bytes.skip(1)))
        } else if bytes[0] == 3 {
            Some((Direction::Left, bytes.skip(1)))
        } else {
            None
        }
    }

    proof fn lemma_decode_wire(m: Direction, rest: Seq<u8>) {
        assert((seq![m.index()] + rest).skip(1) =~= rest);
    }
}

impl Decode for Milligrams {
    open spec fn decode(bytes: Seq<u8>) -> Option<(Milligrams, Seq<u8>)> {
        if bytes.len() == 0 {
            None
        } else if bytes[0] == 0 {
            Some((Milligrams::Grams, bytes.skip(1)))
        } else if bytes[0] == 1 {
            Some((Milligrams::Kilograms, bytes.skip(1)))
        } else {
            None
        }
    }

    proof fn lemma_decode_wire(m: Milligrams, rest: Seq<u8>) {
        assert((seq![m.index()] + rest).skip(1) =~= rest);
    }
}

impl Encode for Direction {
    fn encode(&self) -> (r: Option<Vec<u8>>) {
        let index: u8 = match self {
            Direction::Up => 0,
            Direction::Right => 1,
            Direction::Down => 2,
            Direction::Left => 3,
        };
        Some(vec![index])
    }
}

impl Encode for Milligrams {
    fn encode(&self) -> (r: Option<Vec<u8>>) {
        let index: u8 = match self {
            Milligrams::Grams => 0,
            Milligrams::Kilograms => 1,
        };
        Some(vec![index])
    }
}

/// The fixture rows for enums without data.
pub struct Enums {
    pub directions: Vec<Sample<Direction>>,
    pub milligrams: Vec<Sample<Milligrams>>,
}

/// What the fixture rows for enums without data stand for.
pub struct EnumsModel {
    pub directions: Seq<SampleModel<Direction>>,
    pub milligrams: Seq<SampleModel<Milligrams>>,
}

impl View for Enums {
    type V = EnumsModel;

    open spec fn view(&self) -> EnumsModel {
        EnumsModel {
            directions: sample_models(self.directions@),
            milligrams: sample_models(self.milligrams@),
        }
    }
}

/// Two of the four directions: the first variant and a later one.
pub open spec fn direction_catalog() -> Seq<Direction> {
    seq![Direction::Up, Direction::Down]
}

/// Both units.
pub open spec fn milligrams_catalog() -> Seq<Milligrams> {
    seq![Milligrams::Grams, Milligrams::Kilograms]
}

/// The fixture for enums without data: every catalog entry with its
/// encoding.
pub open spec fn enums_fixture() -> EnumsModel {
    EnumsModel {
        directions: fixture::<Direction>(direction_catalog()),
        milligrams: fixture::<Milligrams>(milligrams_catalog()),
    }
}

/// Every entry of the two catalogs can be encoded, so that no row is
/// dropped.
pub proof fn lemma_enums_catalogs_fit()
    ensures
        all_fit::<Direction>(direction_catalog()),
        all_fit::<Milligrams>(milligrams_catalog()),
{
}

/// Round trip: every row of the fixture reads back as its value.
pub proof fn lemma_enums_read_back()
    ensures
        reads_back::<Direction>(enums_fixture().directions),
        reads_back::<Milligrams>(enums_fixture().milligrams),
{
    lemma_fixture_reads_back::<Direction>(direction_catalog());
    lemma_fixture_reads_back::<Milligrams>(milligrams_catalog());
}

/// Builds the fixture rows for enums without data. The call never fails,
/// and no catalog entry is dropped.
pub fn produce_enums() -> (r: Result<Enums, Infallible>)
    ensures
        r is Ok,
        r->Ok_0@ == enums_fixture(),
{
    let directions: Vec<Sample<Direction>> = {
        let xs = vec![Direction::Up, Direction::Down];
        proof {
            assert(xs.model() == direction_catalog());
            lemma_samples_of_fitting_catalog::<Direction>(direction_catalog());
        }
        produce_samples(xs)?
    };
    let milligrams: Vec<Sample<Milligrams>> = {
        let xs = vec![Milligrams::Grams, Milligrams::Kilograms];
        proof {
            assert(xs.model() == milligrams_catalog());
            lemma_samples_of_fitting_catalog::<Milligrams>(milligrams_catalog());
        }
        produce_samples(xs)?
    };

    Ok(Enums { directions, milligrams })
}

} // verus!
