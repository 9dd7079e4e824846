//! Fixture rows and the producer that encodes a list of values into rows.

use crate::codec::{all_fit, Wire};
use crate::decode::Decode;
use crate::encode::Encode;
use crate::text::Textual;
use core::convert::Infallible;
use vstd::prelude::*;

verus! {

/// One fixture row: a value and the bytes that encode it.
pub struct Sample<T> {
    pub value: T,
    pub data: Vec<u8>,
}

/// What a fixture row stands for: the model of its value, and its bytes.
pub struct SampleModel<M> {
    pub value: M,
    pub data: Seq<u8>,
}

impl<T> Sample<T> {
    /// Pairs `value` with `data` without looking at either.
    pub fn new(value: T, data: Vec<u8>) -> (sample: Sample<T>)
        ensures
            sample.value == value,
            sample.data == data,
    {
        Sample { value, data }
    }
}

impl<T: Wire> Sample<T> {
    /// The model of this row.
    pub open spec fn model(&self) -> SampleModel<T::Model> {
        SampleModel { value: self.value.model(), data: self.data@ }
    }

    /// Whether the bytes of this row are the encoding of its value.
    pub open spec fn is_canonical(&self) -> bool {
        T::fits(self.value.model()) && self.data@ == T::wire(self.value.model())
    }
}

/// The models of a list of rows.
pub open spec fn sample_models<T: Wire>(samples: Seq<Sample<T>>) -> Seq<SampleModel<T::Model>> {
    samples.map_values(|s: Sample<T>| s.model())
}

/// The row that pairs `m` with its encoding.
pub open spec fn canonical<T: Wire>(m: T::Model) -> SampleModel<T::Model> {
    SampleModel { value: m, data: T::wire(m) }
}

/// The row that pairs the display text of `m` with the encoding of `m`.
pub open spec fn rendered<T: Textual>(m: T::Model) -> SampleModel<Seq<char>> {
    SampleModel { value: T::text(m), data: T::wire(m) }
}

/// The values of a list of rows.
pub open spec fn values_of<T>(samples: Seq<Sample<T>>) -> Seq<T> {
    samples.map_values(|s: Sample<T>| s.value)
}

/// The test that keeps the executable values that can be encoded.
pub open spec fn encodable<T: Wire>() -> spec_fn(T) -> bool {
    |x: T| T::fits(x.model())
}

/// The test that keeps the values that can be encoded.
pub open spec fn fitting<T: Wire>() -> spec_fn(T::Model) -> bool {
    |m: T::Model| T::fits(m)
}

/// The test that keeps the values that cannot be encoded.
pub open spec fn unfitting<T: Wire>() -> spec_fn(T::Model) -> bool {
    |m: T::Model| !T::fits(m)
}

/// The rows owed for `values`: one canonical row for each value that can be
/// encoded, in the order of `values`; the others leave no trace.
pub open spec fn samples_of<T: Wire>(values: Seq<T::Model>) -> Seq<SampleModel<T::Model>> {
    values.filter(fitting::<T>()).map_values(|m: T::Model| canonical::<T>(m))
}

/// The rows owed for `values` where the value is kept as display text.
pub open spec fn stringified_samples_of<T: Textual>(values: Seq<T::Model>) -> Seq<
    SampleModel<Seq<char>>,
> {
    values.filter(fitting::<T>()).map_values(|m: T::Model| rendered::<T>(m))
}

/// The rows of a catalog in which every value can be encoded: one canonical
/// row for each value.
pub open spec fn fixture<T: Wire>(catalog: Seq<T::Model>) -> Seq<SampleModel<T::Model>> {
    catalog.map_values(|m: T::Model| canonical::<T>(m))
}

/// The rows of a catalog whose values are kept as display text.
pub open spec fn stringified_fixture<T: Textual>(catalog: Seq<T::Model>) -> Seq<
    SampleModel<Seq<char>>,
> {
    catalog.map_values(|m: T::Model| rendered::<T>(m))
}

/// Whether every one of `rows` reads back: a correct decoder finds in the
/// bytes of the row the value of the row, and nothing behind it.
pub open spec fn reads_back<T: Decode>(rows: Seq<SampleModel<T::Model>>) -> bool {
    forall|i: int|
        0 <= i < rows.len() ==> T::decode((#[trigger] rows[i]).data) == Some(
            (rows[i].value, Seq::<u8>::empty()),
        )
}

/// Whether every one of `rows` reads back as the value that its text
/// displays: a correct decoder finds in the bytes of the row a value whose
/// display text is the text of the row, and nothing behind it.
pub open spec fn reads_back_as_text<T: Decode + Textual>(rows: Seq<SampleModel<Seq<char>>>) -> bool {
    forall|i: int|
        0 <= i < rows.len() ==> match T::decode((#[trigger] rows[i]).data) {
            Some((m, rest)) => T::text(m) == rows[i].value && rest == Seq::<u8>::empty(),
            None => false,
        }
}

/// A test and its negation split a sequence: the two filtered parts have the
/// length of the whole.
pub proof fn lemma_filter_split<A>(s: Seq<A>, keep: spec_fn(A) -> bool, drop: spec_fn(A) -> bool)
    requires
        forall|a: A| #[trigger] drop(a) == !keep(a),
    ensures
        s.filter(keep).len() + s.filter(drop).len() == s.len(),
    decreases s.len(),
{
    reveal(Seq::filter);
    if s.len() > 0 {
        lemma_filter_split(s.drop_last(), keep, drop);
    }
}

/// A test that every item passes keeps the whole sequence.
pub proof fn lemma_filter_keeps_all<A>(s: Seq<A>, keep: spec_fn(A) -> bool)
    requires
        forall|i: int| 0 <= i < s.len() ==> keep(#[trigger] s[i]),
    ensures
        s.filter(keep) == s,
    decreases s.len(),
{
    reveal(Seq::filter);
    if s.len() > 0 {
        lemma_filter_keeps_all(s.drop_last(), keep);
        assert(s.drop_last().push(s.last()) =~= s);
    }
}

/// Where every value of a catalog can be encoded, the rows owed for it are
/// its fixture: nothing is dropped.
pub proof fn lemma_samples_of_fitting_catalog<T: Wire>(catalog: Seq<T::Model>)
    requires
        all_fit::<T>(catalog),
    ensures
        samples_of::<T>(catalog) == fixture::<T>(catalog),
        fixture::<T>(catalog).len() == catalog.len(),
{
    lemma_filter_keeps_all(catalog, fitting::<T>());
}

/// Where every value of a catalog can be encoded, the stringified rows owed
/// for it are its stringified fixture.
pub proof fn lemma_stringified_samples_of_fitting_catalog<T: Textual>(catalog: Seq<T::Model>)
    requires
        all_fit::<T>(catalog),
    ensures
        stringified_samples_of::<T>(catalog) == stringified_fixture::<T>(catalog),
        stringified_fixture::<T>(catalog).len() == catalog.len(),
{
    lemma_filter_keeps_all(catalog, fitting::<T>());
}

/// Round trip of one row: where the bytes of a row are the encoding of its
/// value, a correct decoder reads the value back from them and leaves
/// nothing over.
pub proof fn lemma_round_trip<T: Decode>(sample: Sample<T>)
    requires
        sample.is_canonical(),
    ensures
        T::decode(sample.data@) == Some((sample.value.model(), Seq::<u8>::empty())),
{
    let m = sample.value.model();
    T::lemma_decode_wire(m, Seq::empty());
    assert(T::wire(m) + Seq::<u8>::empty() =~= T::wire(m));
}

/// Round trip of the rows owed for any list of values: each reads back.
pub proof fn lemma_samples_read_back<T: Decode>(values: Seq<T::Model>)
    ensures
        reads_back::<T>(samples_of::<T>(values)),
{
    let kept = values.filter(fitting::<T>());
    let rows = samples_of::<T>(values);
    assert forall|i: int| 0 <= i < rows.len() implies T::decode((#[trigger] rows[i]).data) == Some(
        (rows[i].value, Seq::<u8>::empty()),
    ) by {
        values.lemma_filter_pred(fitting::<T>(), i);
        assert(T::fits(kept[i]));
        T::lemma_decode_wire(kept[i], Seq::empty());
        assert(T::wire(kept[i]) + Seq::<u8>::empty() =~= T::wire(kept[i]));
    }
}

/// Round trip of the stringified rows owed for any list of values: each
/// reads back as the value that its text displays.
pub proof fn lemma_stringified_samples_read_back<T: Decode + Textual>(values: Seq<T::Model>)
    ensures
        reads_back_as_text::<T>(stringified_samples_of::<T>(values)),
{
    let kept = values.filter(fitting::<T>());
    let rows = stringified_samples_of::<T>(values);
    assert forall|i: int| 0 <= i < rows.len() implies match T::decode((#[trigger] rows[i]).data) {
        Some((m, rest)) => T::text(m) == rows[i].value && rest == Seq::<u8>::empty(),
        None => false,
    } by {
        values.lemma_filter_pred(fitting::<T>(), i);
        assert(T::fits(kept[i]));
        T::lemma_decode_wire(kept[i], Seq::empty());
        assert(T::wire(kept[i]) + Seq::<u8>::empty() =~= T::wire(kept[i]));
    }
}

/// Round trip of a fixture: where every value of the catalog can be
/// encoded, every row of its fixture reads back.
pub proof fn lemma_fixture_reads_back<T: Decode>(catalog: Seq<T::Model>)
    requires
        all_fit::<T>(catalog),
    ensures
        reads_back::<T>(fixture::<T>(catalog)),
{
    lemma_samples_of_fitting_catalog::<T>(catalog);
    lemma_samples_read_back::<T>(catalog);
}

/// Round trip of a stringified fixture: where every value of the catalog
/// can be encoded, every row reads back as the value that its text displays.
pub proof fn lemma_stringified_fixture_reads_back<T: Decode + Textual>(catalog: Seq<T::Model>)
    requires
        all_fit::<T>(catalog),
    ensures
        reads_back_as_text::<T>(stringified_fixture::<T>(catalog)),
{
    lemma_stringified_samples_of_fitting_catalog::<T>(catalog);
    lemma_stringified_samples_read_back::<T>(catalog);
}

/// Determinism: the rows owed depend on nothing but the models of the
/// values. Two runs over values with the same models, whatever the order in
/// which a hash map happens to be walked, give rows with the same models,
/// byte for byte.
pub proof fn lemma_rows_deterministic<T: Wire>(
    first: Vec<T>,
    second: Vec<T>,
    first_rows: Vec<Sample<T>>,
    second_rows: Vec<Sample<T>>,
)
    requires
        first.model() == second.model(),
        sample_models(first_rows@) == samples_of::<T>(first.model()),
        sample_models(second_rows@) == samples_of::<T>(second.model()),
    ensures
        sample_models(first_rows@) == sample_models(second_rows@),
        first_rows@.len() == second_rows@.len(),
        forall|i: int|
            0 <= i < first_rows@.len() ==> (#[trigger] first_rows@[i]).data@ == second_rows@[i].data@,
{
    assert(first_rows@.len() == sample_models(first_rows@).len());
    assert(second_rows@.len() == sample_models(second_rows@).len());
    assert forall|i: int| 0 <= i < first_rows@.len() implies (#[trigger] first_rows@[i]).data@
        == second_rows@[i].data@ by {
        assert(sample_models(first_rows@)[i] == first_rows@[i].model());
        assert(sample_models(second_rows@)[i] == second_rows@[i].model());
    }
}

/// Determinism of a producer without inputs: its contract fixes what its
/// record stands for, so the records of two runs stand for the same rows,
/// byte for byte.
pub proof fn lemma_runs_agree<R: View>(first: R, second: R, owed: R::V)
    requires
        first@ == owed,
        second@ == owed,
    ensures
        first@ == second@,
{
}

/// Encodes each of `xs` and pairs it with its bytes. A value that cannot be
/// encoded is left out without a word; the order of the others is kept.
/// The call itself never fails.
pub fn produce_samples<T: Encode>(xs: Vec<T>) -> (r: Result<Vec<Sample<T>>, Infallible>)
    ensures
        r is Ok,
        values_of(r->Ok_0@) == xs@.filter(encodable::<T>()),
        sample_models(r->Ok_0@) == samples_of::<T>(xs.model()),
        r->Ok_0@.len() == xs@.len() - xs.model().filter(unfitting::<T>()).len(),
        forall|i: int| 0 <= i < r->Ok_0@.len() ==> (#[trigger] r->Ok_0@[i]).is_canonical(),
{
    let ghost values = xs.model();
    let mut samples: Vec<Sample<T>> = Vec::new();
    for x in it: xs
        invariant
            it.seq() == xs@,
            values == xs.model(),
            values_of(samples@) == xs@.take(it.index() as int).filter(encodable::<T>()),
            sample_models(samples@) == samples_of::<T>(values.take(it.index() as int)),
            forall|i: int| 0 <= i < samples@.len() ==> (#[trigger] samples@[i]).is_canonical(),
    {
        let ghost i = it.index() as int;
        let ghost before = samples@;
        proof {
            assert(x == xs@[i]);
            assert(values[i] == x.model());
            assert(values.take(i + 1) == values.take(i).push(values[i]));
            values.take(i).lemma_filter_push(values[i], fitting::<T>());
            assert(xs@.take(i + 1) == xs@.take(i).push(x));
            xs@.take(i).lemma_filter_push(x, encodable::<T>());
        }
        match x.encode() {
            Some(data) => {
                samples.push(Sample::new(x, data));
                assert(values_of(samples@) == values_of(before).push(x));
                assert(sample_models(samples@) == sample_models(before).push(
                    canonical::<T>(values[i]),
                ));
                assert(samples_of::<T>(values.take(i + 1)) == samples_of::<T>(
                    values.take(i),
                ).push(canonical::<T>(values[i])));
            },
            None => {},
        }
    }
    proof {
        assert(values.take(xs@.len() as int) == values);
        assert(xs@.take(xs@.len() as int) == xs@);
        lemma_filter_split(values, fitting::<T>(), unfitting::<T>());
        assert(samples@.len() == sample_models(samples@).len());
    }
    Ok(samples)
}

/// Encodes each of `xs` and pairs its display text with its bytes. A value
/// that cannot be encoded is left out without a word; the order of the
/// others is kept. The call itself never fails.
pub fn produce_stringified_samples<T: Encode + Textual>(xs: Vec<T>) -> (r: Result<
    Vec<Sample<String>>,
    Infallible,
>)
    ensures
        r is Ok,
        sample_models(r->Ok_0@) == stringified_samples_of::<T>(xs.model()),
        r->Ok_0@.len() == xs@.len() - xs.model().filter(unfitting::<T>()).len(),
{
    let ghost values = xs.model();
    let mut samples: Vec<Sample<String>> = Vec::new();
    for x in it: xs
        invariant
            it.seq() == xs@,
            values == xs.model(),
            sample_models(samples@) == stringified_samples_of::<T>(
                values.take(it.index() as int),
            ),
    {
        let ghost i = it.index() as int;
        let ghost before = samples@;
        proof {
            assert(x == xs@[i]);
            assert(values[i] == x.model());
            assert(values.take(i + 1) == values.take(i).push(values[i]));
            values.take(i).lemma_filter_push(values[i], fitting::<T>());
        }
        match x.encode() {
            Some(data) => {
                samples.push(Sample::new(x.to_text(), data));
                assert(sample_models(samples@) == sample_models(before).push(
                    rendered::<T>(values[i]),
                ));
                assert(stringified_samples_of::<T>(values.take(i + 1))
                    == stringified_samples_of::<T>(values.take(i)).push(rendered::<T>(values[i])));
            },
            None => {},
        }
    }
    proof {
        assert(values.take(xs@.len() as int) == values);
        lemma_filter_split(values, fitting::<T>(), unfitting::<T>());
        assert(samples@.len() == sample_models(samples@).len());
    }
    Ok(samples)
}

} // verus!
