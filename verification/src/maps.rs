//! Fixtures for maps: hash maps and ordered maps keyed by bytes, hash maps
//! keyed by strings, and vectors of maps.

use crate::codec::{all_fit, lemma_text_fits, Wire};
use crate::collections::{
    byte_btree_map, byte_hash_map, entry_models, lemma_map_of_fits, map_of, string_hash_map,
};
use crate::samples::{
    fixture, lemma_fixture_reads_back, lemma_samples_of_fitting_catalog, produce_samples,
    reads_back, sample_models, Sample, SampleModel,
};
use core::convert::Infallible;
use std::collections::{BTreeMap, HashMap};
use vstd::prelude::*;

verus! {

/// The fixture rows for maps.
pub struct Maps {
    pub hash_map_u8_u8s: Vec<Sample<HashMap<u8, u8>>>,
    pub btree_map_u8_u8s: Vec<Sample<BTreeMap<u8, u8>>>,
    pub hash_map_string_i32s: Vec<Sample<HashMap<String, i32>>>,
    pub hash_map_string_vec_i8s: Vec<Sample<HashMap<String, Vec<i8>>>>,
    pub vec_hash_map_string_i64s: Vec<Sample<Vec<HashMap<String, i64>>>>,
}

/// What the fixture rows for maps stand for.
pub struct MapsModel {
    pub hash_map_u8_u8s: Seq<SampleModel<Map<u8, u8>>>,
    pub btree_map_u8_u8s: Seq<SampleModel<Map<u8, u8>>>,
    pub hash_map_string_i32s: Seq<SampleModel<Map<Seq<char>, i32>>>,
    pub hash_map_string_vec_i8s: Seq<SampleModel<Map<Seq<char>, Seq<i8>>>>,
    pub vec_hash_map_string_i64s: Seq<SampleModel<Seq<Map<Seq<char>, i64>>>>,
}

impl View for Maps {
    type V = MapsModel;

    open spec fn view(&self) -> MapsModel {
        MapsModel {
            hash_map_u8_u8s: sample_models(self.hash_map_u8_u8s@),
            btree_map_u8_u8s: sample_models(self.btree_map_u8_u8s@),
            hash_map_string_i32s: sample_models(self.hash_map_string_i32s@),
            hash_map_string_vec_i8s: sample_models(self.hash_map_string_vec_i8s@),
            vec_hash_map_string_i64s: sample_models(self.vec_hash_map_string_i64s@),
        }
    }
}

/// The three byte-to-byte maps: small, middling and up to the largest byte.
pub open spec fn byte_maps() -> Seq<Map<u8, u8>> {
    seq![
        map_of(seq![(1u8, 11u8), (2u8, 12u8), (3u8, 13u8)]),
        map_of(seq![(11u8, 111u8), (22u8, 122u8), (33u8, 133u8)]),
        map_of(seq![(111u8, 110u8), (222u8, 220u8), (255u8, 250u8)]),
    ]
}

/// The Spanish numerals, each with the value given for it.
pub open spec fn spanish<V>(uno: V, dos: V, tres: V) -> Map<Seq<char>, V> {
    map_of(seq![("Uno"@, uno), ("Dos"@, dos), ("Tres"@, tres)])
}

/// The German numerals, each with the value given for it.
pub open spec fn german<V>(eins: V, zwei: V, drei: V, vier: V) -> Map<Seq<char>, V> {
    map_of(seq![("Eins"@, eins), ("Zwei"@, zwei), ("Drei"@, drei), ("Vier"@, vier)])
}

/// The two string-to-`i32` maps.
pub open spec fn string_i32_maps() -> Seq<Map<Seq<char>, i32>> {
    seq![spanish(-3i32, -1i32, 2i32), german(3i32, 1i32, -3i32, 0i32)]
}

/// The two string-to-`i64` maps.
pub open spec fn string_i64_maps() -> Seq<Map<Seq<char>, i64>> {
    seq![spanish(-3i64, -1i64, 2i64), german(3i64, 1i64, -3i64, 0i64)]
}

/// The two maps from strings to vectors of `i8`, one with an empty vector.
pub open spec fn string_vec_i8_maps() -> Seq<Map<Seq<char>, Seq<i8>>> {
    seq![
        spanish(
            seq![-3i8, -2i8, -1i8],
            seq![-1i8, 0i8, 1i8, 2i8, 3i8, 4i8],
            seq![-3i8, -2i8, -1i8, 0i8, 1i8],
        ),
        german(
            seq![3i8, 2i8, 1i8],
            seq![1i8, 0i8, -1i8, -2i8, -3i8, -4i8],
            seq![-3i8, -2i8, -1i8, 0i8, 1i8],
            Seq::<i8>::empty(),
        ),
    ]
}

/// The string-to-`i64` maps as two vectors, in both orders.
pub open spec fn vecs_of_string_i64_maps() -> Seq<Seq<Map<Seq<char>, i64>>> {
    seq![
        seq![string_i64_maps()[0], string_i64_maps()[1]],
        seq![string_i64_maps()[1], string_i64_maps()[0]],
    ]
}

/// The fixture for maps: every catalog entry with its encoding.
pub open spec fn maps_fixture() -> MapsModel {
    MapsModel {
        hash_map_u8_u8s: fixture::<HashMap<u8, u8>>(byte_maps()),
        btree_map_u8_u8s: fixture::<BTreeMap<u8, u8>>(byte_maps()),
        hash_map_string_i32s: fixture::<HashMap<String, i32>>(string_i32_maps()),
        hash_map_string_vec_i8s: fixture::<HashMap<String, Vec<i8>>>(string_vec_i8_maps()),
        vec_hash_map_string_i64s: fixture::<Vec<HashMap<String, i64>>>(vecs_of_string_i64_maps()),
    }
}

/// The Spanish numerals are three different words of at most four letters.
proof fn lemma_spanish_words()
    ensures
        "Uno"@ != "Dos"@,
        "Uno"@ != "Tres"@,
        "Dos"@ != "Tres"@,
        "Uno"@.len() == 3,
        "Dos"@.len() == 3,
        "Tres"@.len() == 4,
{
    reveal_strlit("Uno");
    reveal_strlit("Dos");
    reveal_strlit("Tres");
    assert("Uno"@[0] != "Dos"@[0]);
}

/// The German numerals are four different words of four letters.
proof fn lemma_german_words()
    ensures
        "Eins"@ != "Zwei"@,
        "Eins"@ != "Drei"@,
        "Eins"@ != "Vier"@,
        "Zwei"@ != "Drei"@,
        "Zwei"@ != "Vier"@,
        "Drei"@ != "Vier"@,
        "Eins"@.len() == 4,
        "Zwei"@.len() == 4,
        "Drei"@.len() == 4,
        "Vier"@.len() == 4,
{
    reveal_strlit("Eins");
    reveal_strlit("Zwei");
    reveal_strlit("Drei");
    reveal_strlit("Vier");
    assert("Eins"@[0] != "Zwei"@[0]);
    assert("Eins"@[0] != "Drei"@[0]);
    assert("Eins"@[0] != "Vier"@[0]);
    assert("Zwei"@[0] != "Drei"@[0]);
    assert("Zwei"@[0] != "Vier"@[0]);
    assert("Drei"@[0] != "Vier"@[0]);
}

/// A map of the Spanish numerals can be encoded where its values can.
proof fn lemma_spanish_fits<V: Wire>(uno: V::Model, dos: V::Model, tres: V::Model)
    requires
        V::fits(uno),
        V::fits(dos),
        V::fits(tres),
    ensures
        <HashMap<String, V> as Wire>::fits(spanish(uno, dos, tres)),
{
    lemma_spanish_words();
    lemma_text_fits("Uno"@);
    lemma_text_fits("Dos"@);
    lemma_text_fits("Tres"@);
    lemma_map_of_fits::<String, V>(seq![("Uno"@, uno), ("Dos"@, dos), ("Tres"@, tres)]);
}

/// A map of the German numerals can be encoded where its values can.
proof fn lemma_german_fits<V: Wire>(eins: V::Model, zwei: V::Model, drei: V::Model, vier: V::Model)
    requires
        V::fits(eins),
        V::fits(zwei),
        V::fits(drei),
        V::fits(vier),
    ensures
        <HashMap<String, V> as Wire>::fits(german(eins, zwei, drei, vier)),
{
    lemma_german_words();
    lemma_text_fits("Eins"@);
    lemma_text_fits("Zwei"@);
    lemma_text_fits("Drei"@);
    lemma_text_fits("Vier"@);
    lemma_map_of_fits::<String, V>(
        seq![("Eins"@, eins), ("Zwei"@, zwei), ("Drei"@, drei), ("Vier"@, vier)],
    );
}

/// The hash map of the Spanish numerals with the given values.
fn spanish_map<V: Wire>(uno: V, dos: V, tres: V) -> (m: HashMap<String, V>)
    ensures
        m.model() == spanish(uno.model(), dos.model(), tres.model()),
{
    let entries = [("Uno".to_string(), uno), ("Dos".to_string(), dos), ("Tres".to_string(), tres)];
    proof {
        lemma_spanish_words();
        assert(entry_models(entries@) == seq![
            ("Uno"@, uno.model()),
            ("Dos"@, dos.model()),
            ("Tres"@, tres.model()),
        ]);
    }
    string_hash_map(entries)
}

/// The hash map of the German numerals with the given values.
fn german_map<V: Wire>(eins: V, zwei: V, drei: V, vier: V) -> (m: HashMap<String, V>)
    ensures
        m.model() == german(eins.model(), zwei.model(), drei.model(), vier.model()),
{
    let entries = [
        ("Eins".to_string(), eins),
        ("Zwei".to_string(), zwei),
        ("Drei".to_string(), drei),
        ("Vier".to_string(), vier),
    ];
    proof {
        lemma_german_words();
        assert(entry_models(entries@) == seq![
            ("Eins"@, eins.model()),
            ("Zwei"@, zwei.model()),
            ("Drei"@, drei.model()),
            ("Vier"@, vier.model()),
        ]);
    }
    string_hash_map(entries)
}

/// Every entry of the five catalogs can be encoded, so that no row is
/// dropped.
pub proof fn lemma_maps_catalogs_fit()
    ensures
        all_fit::<HashMap<u8, u8>>(byte_maps()),
        all_fit::<BTreeMap<u8, u8>>(byte_maps()),
        all_fit::<HashMap<String, i32>>(string_i32_maps()),
        all_fit::<HashMap<String, Vec<i8>>>(string_vec_i8_maps()),
        all_fit::<Vec<HashMap<String, i64>>>(vecs_of_string_i64_maps()),
{
    lemma_map_of_fits::<u8, u8>(seq![(1u8, 11u8), (2u8, 12u8), (3u8, 13u8)]);
    lemma_map_of_fits::<u8, u8>(seq![(11u8, 111u8), (22u8, 122u8), (33u8, 133u8)]);
    lemma_map_of_fits::<u8, u8>(seq![(111u8, 110u8), (222u8, 220u8), (255u8, 250u8)]);
    lemma_spanish_fits::<i32>(-3i32, -1i32, 2i32);
    lemma_german_fits::<i32>(3i32, 1i32, -3i32, 0i32);
    lemma_spanish_fits::<Vec<i8>>(
        seq![-3i8, -2i8, -1i8],
        seq![-1i8, 0i8, 1i8, 2i8, 3i8, 4i8],
        seq![-3i8, -2i8, -1i8, 0i8, 1i8],
    );
    lemma_german_fits::<Vec<i8>>(
        seq![3i8, 2i8, 1i8],
        seq![1i8, 0i8, -1i8, -2i8, -3i8, -4i8],
        seq![-3i8, -2i8, -1i8, 0i8, 1i8],
        Seq::<i8>::empty(),
    );
    lemma_spanish_fits::<i64>(-3i64, -1i64, 2i64);
    lemma_german_fits::<i64>(3i64, 1i64, -3i64, 0i64);
}

/// Round trip: every row of the fixture reads back as its value.
pub proof fn lemma_maps_read_back()
    ensures
        reads_back::<HashMap<u8, u8>>(maps_fixture().hash_map_u8_u8s),
        reads_back::<BTreeMap<u8, u8>>(maps_fixture().btree_map_u8_u8s),
        reads_back::<HashMap<String, i32>>(maps_fixture().hash_map_string_i32s),
        reads_back::<HashMap<String, Vec<i8>>>(maps_fixture().hash_map_string_vec_i8s),
        reads_back::<Vec<HashMap<String, i64>>>(maps_fixture().vec_hash_map_string_i64s),
{
    lemma_maps_catalogs_fit();
    lemma_fixture_reads_back::<HashMap<u8, u8>>(byte_maps());
    lemma_fixture_reads_back::<BTreeMap<u8, u8>>(byte_maps());
    lemma_fixture_reads_back::<HashMap<String, i32>>(string_i32_maps());
    lemma_fixture_reads_back::<HashMap<String, Vec<i8>>>(string_vec_i8_maps());
    lemma_fixture_reads_back::<Vec<HashMap<String, i64>>>(vecs_of_string_i64_maps());
}

/// Builds the fixture rows for maps. The call never fails, and no catalog
/// entry is dropped.
pub fn produce_maps() -> (r: Result<Maps, Infallible>)
    ensures
        r is Ok,
        r->Ok_0@ == maps_fixture(),
{
    let small = [(1u8, 11u8), (2u8, 12u8), (3u8, 13u8)];
    let middling = [(11u8, 111u8), (22u8, 122u8), (33u8, 133u8)];
    let large = [(111u8, 110u8), (222u8, 220u8), (255u8, 250u8)];

    let hash_map_u8_u8s = {
        let hm1 = byte_hash_map(&small);
        let hm2 = byte_hash_map(&middling);
        let hm3 = byte_hash_map(&large);
        let xs = vec![hm1, hm2, hm3];
        proof {
            assert(xs.model() == byte_maps());
            lemma_maps_catalogs_fit();
            lemma_samples_of_fitting_catalog::<HashMap<u8, u8>>(byte_maps());
        }
        produce_samples(xs)?
    };

    let btree_map_u8_u8s = {
        let btm1 = byte_btree_map(&small);
        let btm2 = byte_btree_map(&middling);
        let btm3 = byte_btree_map(&large);
        let xs = vec![btm1, btm2, btm3];
        proof {
            assert(xs.model() == byte_maps());
            lemma_maps_catalogs_fit();
            lemma_samples_of_fitting_catalog::<BTreeMap<u8, u8>>(byte_maps());
        }
        produce_samples(xs)?
    };

    let hash_map_string_i32s = {
        let hm1 = spanish_map(-3i32, -1i32, 2i32);
        let hm2 = german_map(3i32, 1i32, -3i32, 0i32);
        let xs = vec![hm1, hm2];
        proof {
            assert(xs.model() == string_i32_maps());
            lemma_maps_catalogs_fit();
            lemma_samples_of_fitting_catalog::<HashMap<String, i32>>(string_i32_maps());
        }
        produce_samples(xs)?
    };

    let hash_map_string_vec_i8s = {
        let uno = vec![-3i8, -2i8, -1i8];
        let dos = vec![-1i8, 0i8, 1i8, 2i8, 3i8, 4i8];
        let tres = vec![-3i8, -2i8, -1i8, 0i8, 1i8];
        let eins = vec![3i8, 2i8, 1i8];
        let zwei = vec![1i8, 0i8, -1i8, -2i8, -3i8, -4i8];
        let drei = vec![-3i8, -2i8, -1i8, 0i8, 1i8];
        let vier: Vec<i8> = vec![];
        proof {
            assert(uno.model() == seq![-3i8, -2i8, -1i8]);
            assert(dos.model() == seq![-1i8, 0i8, 1i8, 2i8, 3i8, 4i8]);
            assert(tres.model() == seq![-3i8, -2i8, -1i8, 0i8, 1i8]);
            assert(eins.model() == seq![3i8, 2i8, 1i8]);
            assert(zwei.model() == seq![1i8, 0i8, -1i8, -2i8, -3i8, -4i8]);
            assert(drei.model() == seq![-3i8, -2i8, -1i8, 0i8, 1i8]);
            assert(vier.model() == Seq::<i8>::empty());
        }
        let hm1 = spanish_map(uno, dos, tres);
        let hm2 = german_map(eins, zwei, drei, vier);
        let xs = vec![hm1, hm2];
        proof {
            assert(xs.model() == string_vec_i8_maps());
            lemma_maps_catalogs_fit();
            lemma_samples_of_fitting_catalog::<HashMap<String, Vec<i8>>>(string_vec_i8_maps());
        }
        produce_samples(xs)?
    };

    let vec_hash_map_string_i64s = {
        let hm1 = spanish_map(-3i64, -1i64, 2i64);
        let hm2 = german_map(3i64, 1i64, -3i64, 0i64);
        let forth = vec![hm1.clone(), hm2.clone()];
        let back = vec![hm2, hm1];
        proof {
            assert(forth.model() == vecs_of_string_i64_maps()[0]);
            assert(back.model() == vecs_of_string_i64_maps()[1]);
        }
        let xs = vec![forth, back];
        proof {
            lemma_maps_catalogs_fit();
            assert(xs.model() == vecs_of_string_i64_maps());
            lemma_samples_of_fitting_catalog::<Vec<HashMap<String, i64>>>(
                vecs_of_string_i64_maps(),
            );
        }
        produce_samples(xs)?
    };

    Ok(
        Maps {
            hash_map_u8_u8s,
            btree_map_u8_u8s,
            hash_map_string_i32s,
            hash_map_string_vec_i8s,
            vec_hash_map_string_i64s,
        },
    )
}

} // verus!
