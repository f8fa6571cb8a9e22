//! The messages of an event file and their encoding.
//!
//! These are the parts of TensorBoard's `Event` and `Summary` messages that
//! this crate fills in. Floating-point fields are held by their IEEE 754 bit
//! patterns. Fields are encoded in the order of their numbers, and fields
//! that hold their default value are left out, as proto3 prescribes.

use vstd::prelude::*;
use crate::wire::{
    bytes_field, double_field, fixed32_field, int64_field, optional_message_field,
    packed_fixed64_field, put_bytes, put_double, put_fixed32, put_int32, put_nonzero_int64,
    put_packed_fixed64, put_string, put_text, text_field, varint_field,
};

verus! {

/// The `DataType` of a tensor of byte strings.
pub const DT_STRING: i32 = 7;

/// Who wrote an event file.
#[derive(Clone, Debug, PartialEq, Eq, Default)]
pub struct SourceMetadata {
    /// A free-form name of the writing program.
    pub writer: String,
}

/// What a dashboard plugin needs to know about a summary value.
#[derive(Clone, Debug, PartialEq, Eq, Default)]
pub struct PluginData {
    /// The plugin that the value is meant for.
    pub plugin_name: String,
    /// Data for the plugin, in a format of its choosing.
    pub content: Vec<u8>,
}

/// Metadata of a summary value.
#[derive(Clone, Debug, PartialEq, Eq, Default)]
pub struct SummaryMetadata {
    /// The plugin that renders the value.
    pub plugin_data: Option<PluginData>,
}

/// A histogram of samples. All numbers are 64-bit floats, held by their bits.
#[derive(Clone, Debug, PartialEq, Eq, Default)]
pub struct HistogramProto {
    /// The smallest sample.
    pub min: u64,
    /// The largest sample.
    pub max: u64,
    /// The inclusive right edge of each bucket.
    pub bucket_limit: Vec<u64>,
    /// The number of samples in each bucket.
    pub bucket: Vec<u64>,
}

/// One dimension of a tensor.
#[derive(Clone, Copy, Debug, PartialEq, Eq, Default)]
pub struct Dim {
    /// The extent of the tensor along this dimension.
    pub size: i64,
}

/// The shape of a tensor.
#[derive(Clone, Debug, PartialEq, Eq, Default)]
pub struct TensorShapeProto {
    /// The dimensions, outermost first. None for a scalar.
    pub dim: Vec<Dim>,
}

/// A tensor of byte strings.
#[derive(Clone, Debug, PartialEq, Eq, Default)]
pub struct TensorProto {
    /// The type of the elements.
    pub dtype: i32,
    /// The shape of the tensor.
    pub tensor_shape: Option<TensorShapeProto>,
    /// The elements, in row-major order.
    pub string_val: Vec<Vec<u8>>,
}

/// The payload of a summary value.
#[derive(Clone, Debug, PartialEq, Eq)]
pub enum InnerValue {
    /// A scalar: a 32-bit float, held by its bits.
    SimpleValue(u32),
    /// A histogram.
    Histo(HistogramProto),
    /// A tensor.
    Tensor(TensorProto),
}

/// One data point of a time series.
#[derive(Clone, Debug, PartialEq, Eq, Default)]
pub struct Value {
    /// The name of the time series.
    pub tag: String,
    /// The data itself.
    pub value: Option<InnerValue>,
    /// How to render it.
    pub metadata: Option<SummaryMetadata>,
}

/// Data points, possibly of several time series, that belong to one step.
#[derive(Clone, Debug, PartialEq, Eq, Default)]
pub struct Summary {
    /// The data points. Tags may repeat.
    pub value: Vec<Value>,
}

/// What an event is about.
#[derive(Clone, Debug, PartialEq, Eq)]
pub enum What {
    /// The version of the file format; only in the first event of a file.
    FileVersion(String),
    /// Summary values.
    Summary(Summary),
}

/// One event of a run: the payload of one record.
#[derive(Clone, Debug, PartialEq, Eq, Default)]
pub struct Event {
    /// Seconds since the Unix epoch as a 64-bit float, held by its bits.
    pub wall_time: u64,
    /// The step of the run that the event belongs to.
    pub step: i64,
    /// The content of the event.
    pub what: Option<What>,
    /// Who wrote the file; only in the first event of a file.
    pub source_metadata: Option<SourceMetadata>,
}

impl SourceMetadata {
    /// The encoded message.
    pub open spec fn encoding(&self) -> Seq<u8> {
        text_field(1, self.writer@)
    }

    /// Encodes the message.
    pub fn encode_to_vec(&self) -> (bytes: Vec<u8>)
        ensures
            bytes@ == self.encoding(),
    {
        let mut bytes: Vec<u8> = Vec::new();
        put_text(1, &self.writer, &mut bytes);
        assert(bytes@ =~= self.encoding());
        bytes
    }
}

impl PluginData {
    /// The encoded message.
    pub open spec fn encoding(&self) -> Seq<u8> {
        text_field(1, self.plugin_name@) + if self.content@.len() == 0 {
            Seq::empty()
        } else {
            bytes_field(2, self.content@)
        }
    }

    /// Encodes the message.
    pub fn encode_to_vec(&self) -> (bytes: Vec<u8>)
        ensures
            bytes@ == self.encoding(),
    {
        let mut bytes: Vec<u8> = Vec::new();
        put_text(1, &self.plugin_name, &mut bytes);
        if self.content.len() > 0 {
            put_bytes(2, &self.content, &mut bytes);
        }
        assert(bytes@ =~= self.encoding());
        bytes
    }
}

impl SummaryMetadata {
    /// The encoding of the plugin data, if there are any.
    pub open spec fn plugin_data_encoding(&self) -> Option<Seq<u8>> {
        match self.plugin_data {
            Some(data) => Some(data.encoding()),
            None => None,
        }
    }

    /// The encoded message.
    pub open spec fn encoding(&self) -> Seq<u8> {
        optional_message_field(1, self.plugin_data_encoding())
    }

    /// Encodes the message.
    pub fn encode_to_vec(&self) -> (bytes: Vec<u8>)
        ensures
            bytes@ == self.encoding(),
    {
        let mut bytes: Vec<u8> = Vec::new();
        match &self.plugin_data {
            Some(data) => {
                let inner = data.encode_to_vec();
                put_bytes(1, &inner, &mut bytes);
            },
            None => {},
        }
        assert(bytes@ =~= self.encoding());
        bytes
    }
}

impl HistogramProto {
    /// The encoded message.
    pub open spec fn encoding(&self) -> Seq<u8> {
        double_field(1, self.min) + double_field(2, self.max) + packed_fixed64_field(
            6,
            self.bucket_limit@,
        ) + packed_fixed64_field(7, self.bucket@)
    }

    /// Encodes the message.
    pub fn encode_to_vec(&self) -> (bytes: Vec<u8>)
        ensures
            bytes@ == self.encoding(),
    {
        let mut bytes: Vec<u8> = Vec::new();
        put_double(1, self.min, &mut bytes);
        put_double(2, self.max, &mut bytes);
        put_packed_fixed64(6, &self.bucket_limit, &mut bytes);
        put_packed_fixed64(7, &self.bucket, &mut bytes);
        assert(bytes@ =~= self.encoding());
        bytes
    }
}

impl Dim {
    /// The encoded message.
    pub open spec fn encoding(&self) -> Seq<u8> {
        int64_field(1, self.size)
    }

    /// Encodes the message.
    pub fn encode_to_vec(&self) -> (bytes: Vec<u8>)
        ensures
            bytes@ == self.encoding(),
    {
        let mut bytes: Vec<u8> = Vec::new();
        put_nonzero_int64(1, self.size, &mut bytes);
        assert(bytes@ =~= self.encoding());
        bytes
    }
}

/// Each of `messages` as an embedded message in a field numbered `tag`.
pub open spec fn repeated_dim_field(tag: u32, messages: Seq<Dim>) -> Seq<u8>
    decreases messages.len(),
{
    if messages.len() == 0 {
        Seq::empty()
    } else {
        repeated_dim_field(tag, messages.drop_last()) + bytes_field(
            tag,
            messages.last().encoding(),
        )
    }
}

impl TensorShapeProto {
    /// The encoded message.
    pub open spec fn encoding(&self) -> Seq<u8> {
        repeated_dim_field(2, self.dim@)
    }

    /// Encodes the message.
    pub fn encode_to_vec(&self) -> (bytes: Vec<u8>)
        ensures
            bytes@ == self.encoding(),
    {
        let mut bytes: Vec<u8> = Vec::new();
        let mut i: usize = 0;
        while i < self.dim.len()
            invariant
                i <= self.dim.len(),
                bytes@ == repeated_dim_field(2, self.dim@.take(i as int)),
            decreases self.dim.len() - i,
        {
            proof {
                assert(self.dim@.take(i + 1).drop_last() =~= self.dim@.take(i as int));
            }
            let inner = self.dim[i].encode_to_vec();
            put_bytes(2, &inner, &mut bytes);
            i += 1;
        }
        proof {
            assert(self.dim@.take(i as int) =~= self.dim@);
        }
        bytes
    }
}

/// Each of `strings` in a byte-string field numbered `tag`.
pub open spec fn repeated_bytes_field(tag: u32, strings: Seq<Vec<u8>>) -> Seq<u8>
    decreases strings.len(),
{
    if strings.len() == 0 {
        Seq::empty()
    } else {
        repeated_bytes_field(tag, strings.drop_last()) + bytes_field(tag, strings.last()@)
    }
}

impl TensorProto {
    /// The encoding of the shape, if there is one.
    pub open spec fn shape_encoding(&self) -> Option<Seq<u8>> {
        match self.tensor_shape {
            Some(shape) => Some(shape.encoding()),
            None => None,
        }
    }

    /// The encoded message.
    pub open spec fn encoding(&self) -> Seq<u8> {
        (if self.dtype == 0 {
            Seq::empty()
        } else {
            varint_field(1, self.dtype as u64)
        }) + optional_message_field(2, self.shape_encoding()) + repeated_bytes_field(
            8,
            self.string_val@,
        )
    }

    /// Encodes the message.
    pub fn encode_to_vec(&self) -> (bytes: Vec<u8>)
        ensures
            bytes@ == self.encoding(),
    {
        let mut bytes: Vec<u8> = Vec::new();
        if self.dtype != 0 {
            put_int32(1, self.dtype, &mut bytes);
        }
        match &self.tensor_shape {
            Some(shape) => {
                let inner = shape.encode_to_vec();
                put_bytes(2, &inner, &mut bytes);
            },
            None => {},
        }
        let ghost head = bytes@;
        let mut i: usize = 0;
        while i < self.string_val.len()
            invariant
                i <= self.string_val.len(),
                bytes@ == head + repeated_bytes_field(8, self.string_val@.take(i as int)),
            decreases self.string_val.len() - i,
        {
            proof {
                assert(self.string_val@.take(i + 1).drop_last() =~= self.string_val@.take(
                    i as int,
                ));
            }
            put_bytes(8, &self.string_val[i], &mut bytes);
            i += 1;
        }
        proof {
            assert(self.string_val@.take(i as int) =~= self.string_val@);
            assert(bytes@ =~= self.encoding());
        }
        bytes
    }
}

impl InnerValue {
    /// The field that holds the payload within a summary value.
    pub open spec fn field(&self) -> Seq<u8> {
        match self {
            InnerValue::SimpleValue(bits) => fixed32_field(2, *bits),
            InnerValue::Histo(histogram) => bytes_field(5, histogram.encoding()),
            InnerValue::Tensor(tensor) => bytes_field(8, tensor.encoding()),
        }
    }
}

impl Value {
    /// The field of the payload, if there is one.
    pub open spec fn value_field(&self) -> Seq<u8> {
        match self.value {
            Some(inner) => inner.field(),
            None => Seq::empty(),
        }
    }

    /// The encoding of the metadata, if there are any.
    pub open spec fn metadata_encoding(&self) -> Option<Seq<u8>> {
        match self.metadata {
            Some(metadata) => Some(metadata.encoding()),
            None => None,
        }
    }

    /// The encoded message.
    pub open spec fn encoding(&self) -> Seq<u8> {
        text_field(1, self.tag@) + self.value_field() + optional_message_field(
            9,
            self.metadata_encoding(),
        )
    }

    /// Encodes the message.
    pub fn encode_to_vec(&self) -> (bytes: Vec<u8>)
        ensures
            bytes@ == self.encoding(),
    {
        let mut bytes: Vec<u8> = Vec::new();
        put_text(1, &self.tag, &mut bytes);
        match &self.value {
            Some(InnerValue::SimpleValue(bits)) => {
                put_fixed32(2, *bits, &mut bytes);
            },
            Some(InnerValue::Histo(histogram)) => {
                let inner = histogram.encode_to_vec();
                put_bytes(5, &inner, &mut bytes);
            },
            Some(InnerValue::Tensor(tensor)) => {
                let inner = tensor.encode_to_vec();
                put_bytes(8, &inner, &mut bytes);
            },
            None => {},
        }
        match &self.metadata {
            Some(metadata) => {
                let inner = metadata.encode_to_vec();
                put_bytes(9, &inner, &mut bytes);
            },
            None => {},
        }
        assert(bytes@ =~= self.encoding());
        bytes
    }
}

/// Each of `values` as an embedded message in a field numbered `tag`.
pub open spec fn repeated_value_field(tag: u32, values: Seq<Value>) -> Seq<u8>
    decreases values.len(),
{
    if values.len() == 0 {
        Seq::empty()
    } else {
        repeated_value_field(tag, values.drop_last()) + bytes_field(tag, values.last().encoding())
    }
}

impl Summary {
    /// The encoded message.
    pub open spec fn encoding(&self) -> Seq<u8> {
        repeated_value_field(1, self.value@)
    }

    /// Encodes the message.
    pub fn encode_to_vec(&self) -> (bytes: Vec<u8>)
        ensures
            bytes@ == self.encoding(),
    {
        let mut bytes: Vec<u8> = Vec::new();
        let mut i: usize = 0;
        while i < self.value.len()
            invariant
                i <= self.value.len(),
                bytes@ == repeated_value_field(1, self.value@.take(i as int)),
            decreases self.value.len() - i,
        {
            proof {
                assert(self.value@.take(i + 1).drop_last() =~= self.value@.take(i as int));
            }
            let inner = self.value[i].encode_to_vec();
            put_bytes(1, &inner, &mut bytes);
            i += 1;
        }
        proof {
            assert(self.value@.take(i as int) =~= self.value@);
        }
        bytes
    }
}

impl What {
    /// The field that holds the content within an event.
    pub open spec fn field(&self) -> Seq<u8> {
        match self {
            What::FileVersion(version) => bytes_field(3, vstd::utf8::encode_utf8(version@)),
            What::Summary(summary) => bytes_field(5, summary.encoding()),
        }
    }
}

impl Event {
    /// The field of the content, if there is one.
    pub open spec fn what_field(&self) -> Seq<u8> {
        match self.what {
            Some(what) => what.field(),
            None => Seq::empty(),
        }
    }

    /// The encoding of the source metadata, if there are any.
    pub open spec fn source_metadata_encoding(&self) -> Option<Seq<u8>> {
        match self.source_metadata {
            Some(metadata) => Some(metadata.encoding()),
            None => None,
        }
    }

    /// The encoded message.
    pub open spec fn encoding(&self) -> Seq<u8> {
        double_field(1, self.wall_time) + int64_field(2, self.step) + self.what_field()
            + optional_message_field(10, self.source_metadata_encoding())
    }

    /// Encodes the message.
    pub fn encode_to_vec(&self) -> (bytes: Vec<u8>)
        ensures
            bytes@ == self.encoding(),
    {
        let mut bytes: Vec<u8> = Vec::new();
        put_double(1, self.wall_time, &mut bytes);
        put_nonzero_int64(2, self.step, &mut bytes);
        match &self.what {
            Some(What::FileVersion(version)) => {
                put_string(3, version, &mut bytes);
            },
            Some(What::Summary(summary)) => {
                let inner = summary.encode_to_vec();
                put_bytes(5, &inner, &mut bytes);
            },
            None => {},
        }
        match &self.source_metadata {
            Some(metadata) => {
                let inner = metadata.encode_to_vec();
                put_bytes(10, &inner, &mut bytes);
            },
            None => {},
        }
        assert(bytes@ =~= self.encoding());
        bytes
    }
}

} // verus!
