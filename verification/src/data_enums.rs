//! Fixtures for enums that carry data: the encoding is the position of the
//! variant in one byte, followed by the fields in the order of declaration.

use crate::codec::{all_fit, Wire};
use crate::decode::Decode;
use crate::encode::Encode;
use crate::samples::{
    fixture, lemma_fixture_reads_back, lemma_samples_of_fitting_catalog, produce_samples,
    reads_back, sample_models, Sample, SampleModel,
};
use core::convert::Infallible;
use vstd::prelude::*;

verus! {

/// Two variants with one number each.
#[derive(Debug, Clone, Copy, PartialEq, Eq)]
pub enum Simple {
    First { first_field: u32 },
    Second { second_field: u32 },
}

/// A description of a collection, in two versions.
#[derive(Debug, PartialEq, Eq)]
pub enum CollectionInfo {
    V1 { symbol: String, verified_creators: Vec<u8>, whitelist_root: [u8; 32] },
    V2 { collection_mint: u8 },
}

/// What a `CollectionInfo` stands for.
pub enum CollectionInfoModel {
    V1 { symbol: Seq<char>, verified_creators: Seq<u8>, whitelist_root: Seq<u8> },
    V2 { collection_mint: u8 },
}

impl Wire for Simple {
    type Model = Simple;

    open spec fn model(&self) -> Simple {
        *self
    }

    open spec fn fits(m: Simple) -> bool {
        true
    }

    open spec fn wire(m: Simple) -> Seq<u8> {
        match m {
            Simple::First { first_field } => seq![0u8] + <u32 as Wire>::wire(first_field),
            Simple::Second { second_field } => seq![1u8] + <u32 as Wire>::wire(second_field),
        }
    }
}

impl Wire for CollectionInfo {
    type Model = CollectionInfoModel;

    open spec fn model(&self) -> CollectionInfoModel {
        match self {
            CollectionInfo::V1 { symbol, verified_creators, whitelist_root } => {
                CollectionInfoModel::V1 {
                    symbol: symbol.model(),
                    verified_creators: verified_creators.model(),
                    whitelist_root: whitelist_root.model(),
                }
            },
            CollectionInfo::V2 { collection_mint } => CollectionInfoModel::V2 {
                collection_mint: *collection_mint,
            },
        }
    }

    open spec fn fits(m: CollectionInfoModel) -> bool {
        match m {
            CollectionInfoModel::V1 { symbol, verified_creators, whitelist_root } => {
                &&& <String as Wire>::fits(symbol)
                &&& <Vec<u8> as Wire>::fits(verified_creators)
                &&& <[u8; 32] as Wire>::fits(whitelist_root)
            },
            CollectionInfoModel::V2 { collection_mint } => true,
        }
    }

    open spec fn wire(m: CollectionInfoModel) -> Seq<u8> {
        match m {
            CollectionInfoModel::V1 { symbol, verified_creators, whitelist_root } => {
                seq![0u8] + <String as Wire>::wire(symbol) + <Vec<u8> as Wire>::wire(
                    verified_creators,
                ) + <[u8; 32] as Wire>::wire(whitelist_root)
            },
            CollectionInfoModel::V2 { collection_mint } => seq![1u8] + <u8 as Wire>::wire(
                collection_mint,
            ),
        }
    }
}

impl Decode for Simple {
    open spec fn decode(bytes: Seq<u8>) -> Option<(Simple, Seq<u8>)> {
        if bytes.len() == 0 {
            None
        } else if bytes[0] == 0 {
            match <u32 as Decode>::decode(bytes.skip(1)) {
                Some((first_field, rest)) => Some((Simple::First { first_field }, rest)),
                None => None,
            }
        } else if bytes[0] == 1 {
            match <u32 as Decode>::decode(bytes.skip(1)) {
                Some((second_field, rest)) => Some((Simple::Second { second_field }, rest)),
                None => None,
            }
        } else {
            None
        }
    }

    proof fn lemma_decode_wire(m: Simple, rest: Seq<u8>) {
        match m {
            Simple::First { first_field } => {
                let field = <u32 as Wire>::wire(first_field);
                assert((seq![0u8] + field + rest).skip(1) =~= field + rest);
                <u32 as Decode>::lemma_decode_wire(first_field, rest);
            },
            Simple::Second { second_field } => {
                let field = <u32 as Wire>::wire(second_field);
                assert((seq![1u8] + field + rest).skip(1) =~= field + rest);
                <u32 as Decode>::lemma_decode_wire(second_field, rest);
            },
        }
    }
}

impl Decode for CollectionInfo {
    open spec fn decode(bytes: Seq<u8>) -> Option<(CollectionInfoModel, Seq<u8>)> {
        if bytes.len() == 0 {
            None
        } else if bytes[0] == 0 {
            match <(String, Vec<u8>, [u8; 32]) as Decode>::decode(bytes.skip(1)) {
                Some(((symbol, verified_creators, whitelist_root), rest)) => Some(
                    (CollectionInfoModel::V1 { symbol, verified_creators, whitelist_root }, rest),
                ),
                None => None,
            }
        } else if bytes[0] == 1 {
            match <u8 as Decode>::decode(bytes.skip(1)) {
                Some((collection_mint, rest)) => Some(
                    (CollectionInfoModel::V2 { collection_mint }, rest),
                ),
                None => None,
            }
        } else {
            None
        }
    }

    proof fn lemma_decode_wire(m: CollectionInfoModel, rest: Seq<u8>) {
        match m {
            CollectionInfoModel::V1 { symbol, verified_creators, whitelist_root } => {
                let fields = (symbol, verified_creators, whitelist_root);
                let body = <(String, Vec<u8>, [u8; 32]) as Wire>::wire(fields);
                assert(Self::wire(m) + rest =~= seq![0u8] + (body + rest));
                assert((seq![0u8] + (body + rest)).skip(1) =~= body + rest);
                <(String, Vec<u8>, [u8; 32]) as Decode>::lemma_decode_wire(fields, rest);
            },
            CollectionInfoModel::V2 { collection_mint } => {
                let field = <u8 as Wire>::wire(collection_mint);
                assert((seq![1u8] + field + rest).skip(1) =~= field + rest);
                <u8 as Decode>::lemma_decode_wire(collection_mint, rest);
            },
        }
    }
}

impl Encode for Simple {
    fn encode(&self) -> (r: Option<Vec<u8>>) {
        match self {
            Simple::First { first_field } => {
                let mut out: Vec<u8> = vec![0u8];
                let mut field = first_field.encode()?;
                out.append(&mut field);
                Some(out)
            },
            Simple::Second { second_field } => {
                let mut out: Vec<u8> = vec![1u8];
                let mut field = second_field.encode()?;
                out.append(&mut field);
                Some(out)
            },
        }
    }
}

impl Encode for CollectionInfo {
    fn encode(&self) -> (r: Option<Vec<u8>>) {
        match self {
            CollectionInfo::V1 { symbol, verified_creators, whitelist_root } => {
                let mut out: Vec<u8> = vec![0u8];
                let mut field = symbol.encode()?;
                out.append(&mut field);
                let mut field = verified_creators.encode()?;
                out.append(&mut field);
                let mut field = whitelist_root.encode()?;
                out.append(&mut field);
                Some(out)
            },
            CollectionInfo::V2 { collection_mint } => {
                let mut out: Vec<u8> = vec![1u8];
                let mut field = collection_mint.encode()?;
                out.append(&mut field);
                Some(out)
            },
        }
    }
}

/// The fixture rows for enums that carry data.
pub struct DataEnums {
    pub collections: Vec<Sample<CollectionInfo>>,
    pub simples: Vec<Sample<Simple>>,
}

/// What the fixture rows for enums that carry data stand for.
pub struct DataEnumsModel {
    pub collections: Seq<SampleModel<CollectionInfoModel>>,
    pub simples: Seq<SampleModel<Simple>>,
}

impl View for DataEnums {
    type V = DataEnumsModel;

    open spec fn view(&self) -> DataEnumsModel {
        DataEnumsModel {
            collections: sample_models(self.collections@),
            simples: sample_models(self.simples@),
        }
    }
}

/// Both versions of the description: one with a string, a vector and an
/// array, one with a single byte.
pub open spec fn collection_catalog() -> Seq<CollectionInfoModel> {
    seq![
        CollectionInfoModel::V1 {
            symbol: "TEST"@,
            verified_creators: seq![1u8, 2u8, 3u8],
            whitelist_root: Seq::new(32, |i: int| 0u8),
        },
        CollectionInfoModel::V2 { collection_mint: 4u8 },
    ]
}

/// Both variants of `Simple`.
pub open spec fn simple_catalog() -> Seq<Simple> {
    seq![Simple::First { first_field: 11u32 }, Simple::Second { second_field: 22u32 }]
}

/// The fixture for enums that carry data: every catalog entry with its
/// encoding.
pub open spec fn data_enums_fixture() -> DataEnumsModel {
    DataEnumsModel {
        collections: fixture::<CollectionInfo>(collection_catalog()),
        simples: fixture::<Simple>(simple_catalog()),
    }
}

/// Every entry of the two catalogs can be encoded, so that no row is
/// dropped.
pub proof fn lemma_data_enums_catalogs_fit()
    ensures
        all_fit::<CollectionInfo>(collection_catalog()),
        all_fit::<Simple>(simple_catalog()),
{
    reveal_strlit("TEST");
    crate::codec::lemma_text_fits("TEST"@);
}

/// Round trip: every row of the fixture reads back as its value.
pub proof fn lemma_data_enums_read_back()
    ensures
        reads_back::<CollectionInfo>(data_enums_fixture().collections),
        reads_back::<Simple>(data_enums_fixture().simples),
{
    lemma_data_enums_catalogs_fit();
    lemma_fixture_reads_back::<CollectionInfo>(collection_catalog());
    lemma_fixture_reads_back::<Simple>(simple_catalog());
}

/// Builds the fixture rows for enums that carry data. The call never fails,
/// and no catalog entry is dropped.
pub fn produce_data_enums() -> (r: Result<DataEnums, Infallible>)
    ensures
        r is Ok,
        r->Ok_0@ == data_enums_fixture(),
{
    let collections: Vec<Sample<CollectionInfo>> = {
        let symbol = "TEST".to_string();
        let verified_creators = vec![1u8, 2u8, 3u8];
        let whitelist_root = [0u8; 32];
        proof {
            assert(verified_creators.model() == seq![1u8, 2u8, 3u8]);
            assert(whitelist_root.model() == Seq::new(32, |i: int| 0u8));
        }
        let v1 = CollectionInfo::V1 { symbol, verified_creators, whitelist_root };
        let v2 = CollectionInfo::V2 { collection_mint: 4u8 };
        proof {
            assert(v1.model() == collection_catalog()[0]);
            assert(v2.model() == collection_catalog()[1]);
        }
        let xs = vec![v1, v2];
        proof {
            assert(xs.model() == collection_catalog());
            lemma_data_enums_catalogs_fit();
            lemma_samples_of_fitting_catalog::<CollectionInfo>(collection_catalog());
        }
        produce_samples(xs)?
    };
    let simples = {
        let xs = vec![Simple::First { first_field: 11u32 }, Simple::Second { second_field: 22u32 }];
        proof {
            assert(xs.model() == simple_catalog());
            lemma_samples_of_fitting_catalog::<Simple>(simple_catalog());
        }
        produce_samples(xs)?
    };

    Ok(DataEnums { simples, collections })
}

} // verus!
