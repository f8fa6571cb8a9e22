//! Building summaries value by value.

use vstd::prelude::*;
use vstd::slice::slice_to_vec;
use crate::proto::{
    Dim, HistogramProto, InnerValue, PluginData, Summary, SummaryMetadata, TensorProto,
    TensorShapeProto, Value, DT_STRING,
};

verus! {

/// The plugin that renders text summaries.
pub const TEXT_PLUGIN_NAME: &'static str = "text";

/// The number of elements of a tensor of the given shape: the product of its
/// dimensions, which is one for a scalar.
pub open spec fn element_count(shape: Seq<usize>) -> nat
    decreases shape.len(),
{
    if shape.len() == 0 {
        1
    } else {
        element_count(shape.drop_last()) * shape.last() as nat
    }
}

/// A tensor with a dimension of extent zero has no elements.
pub proof fn lemma_element_count_zero(shape: Seq<usize>, at: int)
    requires
        0 <= at < shape.len(),
        shape[at] == 0,
    ensures
        element_count(shape) == 0,
    decreases shape.len(),
{
    if at < shape.len() - 1 {
        lemma_element_count_zero(shape.drop_last(), at);
        assert(element_count(shape) == 0) by (nonlinear_arith)
            requires
                element_count(shape) == element_count(shape.drop_last()) * shape.last() as nat,
                element_count(shape.drop_last()) == 0,
        ;
    } else {
        assert(element_count(shape) == 0) by (nonlinear_arith)
            requires
                element_count(shape) == element_count(shape.drop_last()) * shape.last() as nat,
                shape.last() == 0,
        ;
    }
}

/// Without a dimension of extent zero, the outer dimensions alone hold no
/// more elements than the whole tensor.
pub proof fn lemma_element_count_grows(shape: Seq<usize>, outer: int)
    requires
        0 <= outer <= shape.len(),
        forall|i: int| 0 <= i < shape.len() ==> shape[i] != 0,
    ensures
        element_count(shape.take(outer)) <= element_count(shape),
    decreases shape.len(),
{
    if outer == shape.len() {
        assert(shape.take(outer) =~= shape);
    } else {
        lemma_element_count_grows(shape.drop_last(), outer);
        assert(shape.drop_last().take(outer) =~= shape.take(outer));
        assert(element_count(shape.drop_last()) <= element_count(shape)) by (nonlinear_arith)
            requires
                element_count(shape) == element_count(shape.drop_last()) * shape.last() as nat,
                shape.last() >= 1,
        ;
    }
}

/// Whether a tensor of the given shape has exactly `count` elements.
pub fn shape_matches(shape: &[usize], count: usize) -> (fits: bool)
    ensures
        fits == (element_count(shape@) == count),
{
    let mut i: usize = 0;
    while i < shape.len()
        invariant
            i <= shape.len(),
            forall|j: int| 0 <= j < i ==> shape@[j] != 0,
        decreases shape.len() - i,
    {
        if shape[i] == 0 {
            proof {
                lemma_element_count_zero(shape@, i as int);
            }
            return count == 0;
        }
        i += 1;
    }
    let mut product: usize = 1;
    let mut i: usize = 0;
    while i < shape.len()
        invariant
            i <= shape.len(),
            forall|j: int| 0 <= j < shape.len() ==> shape@[j] != 0,
            product == element_count(shape@.take(i as int)),
        decreases shape.len() - i,
    {
        proof {
            assert(shape@.take(i + 1).drop_last() =~= shape@.take(i as int));
            lemma_element_count_grows(shape@, i + 1);
        }
        match product.checked_mul(shape[i]) {
            Some(next) => {
                product = next;
            },
            None => {
                return false;
            },
        }
        i += 1;
    }
    proof {
        assert(shape@.take(i as int) =~= shape@);
    }
    product == count
}

/// Whether `value` is a scalar summary.
pub open spec fn is_scalar(value: Value, tag: Seq<char>, bits: u32) -> bool {
    &&& value.tag@ == tag
    &&& value.value == Some(InnerValue::SimpleValue(bits))
    &&& value.metadata is None
}

/// Whether `value` is a histogram summary.
pub open spec fn is_histogram(value: Value, tag: Seq<char>, histogram: HistogramProto) -> bool {
    &&& value.tag@ == tag
    &&& value.value == Some(InnerValue::Histo(histogram))
    &&& value.metadata is None
}

/// Whether `dims` spell out `shape`.
pub open spec fn is_shape(dims: Seq<Dim>, shape: Seq<usize>) -> bool {
    &&& dims.len() == shape.len()
    &&& forall|i: int| 0 <= i < shape.len() ==> (#[trigger] dims[i]).size == shape[i] as i64
}

/// Whether `value` is a text summary: a tensor of the given strings and
/// shape, marked for the text plugin.
pub open spec fn is_text(
    value: Value,
    tag: Seq<char>,
    strings: Seq<Seq<u8>>,
    shape: Seq<usize>,
) -> bool {
    &&& value.tag@ == tag
    &&& value.value matches Some(InnerValue::Tensor(tensor))
    &&& tensor.dtype == DT_STRING
    &&& tensor.tensor_shape matches Some(tensor_shape)
    &&& is_shape(tensor_shape.dim@, shape)
    &&& tensor.string_val@.len() == strings.len()
    &&& forall|i: int| 0 <= i < strings.len() ==> (#[trigger] tensor.string_val@[i])@ == strings[i]
    &&& value.metadata matches Some(metadata)
    &&& metadata.plugin_data matches Some(plugin)
    &&& plugin.plugin_name@ == TEXT_PLUGIN_NAME@
    &&& plugin.content@.len() == 0
}

/// The view of each of `strings`.
pub open spec fn views(strings: Seq<Vec<u8>>) -> Seq<Seq<u8>> {
    Seq::new(strings.len(), |i: int| strings[i]@)
}

/// Builds a [`Summary`] one value at a time.
///
/// Every method that adds a value appends it after those already there. Tags
/// may repeat: each value is a data point of its own.
pub struct SummaryBuilder {
    summary: Summary,
}

impl View for SummaryBuilder {
    type V = Seq<Value>;

    /// The values added so far, oldest first.
    closed spec fn view(&self) -> Seq<Value> {
        self.summary.value@
    }
}

impl Default for SummaryBuilder {
    /// Creates an empty summary with no values.
    fn default() -> (builder: Self)
        ensures
            builder@.len() == 0,
    {
        SummaryBuilder::new()
    }
}

impl SummaryBuilder {
    /// Whether `self` holds the values of `before` and one more.
    pub open spec fn follows(&self, before: SummaryBuilder) -> bool {
        self@.len() == before@.len() + 1 && self@.drop_last() == before@
    }

    /// Creates an empty summary with no values.
    pub fn new() -> (builder: Self)
        ensures
            builder@.len() == 0,
    {
        SummaryBuilder { summary: Summary { value: Vec::new() } }
    }

    /// Finishes this builder and returns the summary that has been built.
    pub fn build(self) -> (summary: Summary)
        ensures
            summary.value@ == self@,
    {
        self.summary
    }

    /// Adds a value as it is.
    pub fn value(self, value: Value) -> (builder: Self)
        ensures
            builder@ == self@.push(value),
    {
        let mut builder = self;
        builder.summary.value.push(value);
        builder
    }

    fn build_value(
        self,
        tag: &str,
        inner: InnerValue,
        metadata: Option<SummaryMetadata>,
    ) -> (builder: Self)
        ensures
            builder.follows(self),
            builder@.last().tag@ == tag@,
            builder@.last().value == Some(inner),
            builder@.last().metadata == metadata,
    {
        let outer = Value { tag: tag.to_owned(), value: Some(inner), metadata };
        let builder = self.value(outer);
        assert(builder@.drop_last() =~= self@);
        builder
    }

    /// Adds a scalar summary: a 32-bit float, given by its bits.
    pub fn scalar(self, tag: &str, bits: u32) -> (builder: Self)
        ensures
            builder.follows(self),
            is_scalar(builder@.last(), tag@, bits),
    {
        self.build_value(tag, InnerValue::SimpleValue(bits), None)
    }

    /// Adds a histogram summary.
    pub fn histogram(self, tag: &str, histogram: HistogramProto) -> (builder: Self)
        ensures
            builder.follows(self),
            is_histogram(builder@.last(), tag@, histogram),
    {
        self.build_value(tag, InnerValue::Histo(histogram), None)
    }

    /// Adds a text summary with a single string, a tensor of rank 0. The
    /// text is interpreted as Markdown.
    pub fn text(self, tag: &str, text: &[u8]) -> (builder: Self)
        ensures
            builder.follows(self),
            is_text(builder@.last(), tag@, seq![text@], Seq::empty()),
    {
        let mut strings: Vec<Vec<u8>> = Vec::new();
        strings.push(slice_to_vec(text));
        let shape: Vec<usize> = Vec::new();
        let builder = self.text_ndarray(tag, strings, shape.as_slice());
        assert(shape@ =~= Seq::<usize>::empty());
        builder
    }

    /// Adds a text summary with a tensor of strings. `text` holds the
    /// strings in row-major order, `shape` the extent of each dimension.
    /// The strings are interpreted as Markdown.
    ///
    /// The shape must fit the strings: see [`shape_matches`].
    pub fn text_ndarray(self, tag: &str, text: Vec<Vec<u8>>, shape: &[usize]) -> (builder: Self)
        requires
            element_count(shape@) == text@.len(),
        ensures
            builder.follows(self),
            is_text(builder@.last(), tag@, views(text@), shape@),
    {
        let mut dim: Vec<Dim> = Vec::new();
        let mut i: usize = 0;
        while i < shape.len()
            invariant
                i <= shape.len(),
                is_shape(dim@, shape@.take(i as int)),
            decreases shape.len() - i,
        {
            dim.push(Dim { size: shape[i] as i64 });
            i += 1;
        }
        assert(shape@.take(i as int) =~= shape@);
        let tensor = TensorProto {
            dtype: DT_STRING,
            tensor_shape: Some(TensorShapeProto { dim }),
            string_val: text,
        };
        let metadata = SummaryMetadata {
            plugin_data: Some(
                PluginData { plugin_name: TEXT_PLUGIN_NAME.to_owned(), content: Vec::new() },
            ),
        };
        self.build_value(tag, InnerValue::Tensor(tensor), Some(metadata))
    }
}

} // verus!
