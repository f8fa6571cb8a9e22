use prost::bytes::Buf;
use prost::encoding::{decode_key, decode_varint, DecodeContext, WireType};
use std::time::{Duration, SystemTime, UNIX_EPOCH};
use tensorboard_writer::proto::{
    Dim, Event, HistogramProto, InnerValue, PluginData, SourceMetadata, Summary,
    SummaryMetadata, TensorProto, TensorShapeProto, Value, What, DT_STRING,
};
use tensorboard_writer::clock::wall_time_bits;
use tensorboard_writer::writer::{FILE_VERSION, WRITER};
use tensorboard_writer::{
    BoundedBuffer, ReadError, Sink, SummaryBuilder, TfRecord, WriteError, Writer,
};

/// One field of a message, as prost's decoder sees it.
#[derive(Debug, PartialEq)]
enum Field {
    Varint(u32, i64),
    Double(u32, f64),
    Float(u32, f32),
    Bytes(u32, Vec<u8>),
}

/// Takes a message apart with prost's decoding functions.
fn fields(mut buf: &[u8]) -> Vec<Field> {
    let mut out = Vec::new();
    while buf.has_remaining() {
        let (tag, wire_type) = decode_key(&mut buf).unwrap();
        let ctx = DecodeContext::default();
        match wire_type {
            WireType::Varint => {
                let mut value = 0i64;
                prost::encoding::int64::merge(wire_type, &mut value, &mut buf, ctx).unwrap();
                out.push(Field::Varint(tag, value));
            }
            WireType::SixtyFourBit => {
                let mut value = 0f64;
                prost::encoding::double::merge(wire_type, &mut value, &mut buf, ctx).unwrap();
                out.push(Field::Double(tag, value));
            }
            WireType::ThirtyTwoBit => {
                let mut value = 0f32;
                prost::encoding::float::merge(wire_type, &mut value, &mut buf, ctx).unwrap();
                out.push(Field::Float(tag, value));
            }
            WireType::LengthDelimited => {
                let mut value: Vec<u8> = Vec::new();
                prost::encoding::bytes::merge(wire_type, &mut value, &mut buf, ctx).unwrap();
                out.push(Field::Bytes(tag, value));
            }
            other => panic!("unexpected wire type {other:?}"),
        }
    }
    out
}

/// Takes a packed field of doubles apart with prost's decoder.
fn packed_doubles(payload: &[u8]) -> Vec<f64> {
    let mut field = Vec::new();
    prost::encoding::encode_key(1, WireType::LengthDelimited, &mut field);
    prost::encoding::encode_varint(payload.len() as u64, &mut field);
    field.extend_from_slice(payload);
    let mut buf: &[u8] = &field;
    let (_, wire_type) = decode_key(&mut buf).unwrap();
    let mut values: Vec<f64> = Vec::new();
    let ctx = DecodeContext::default();
    prost::encoding::double::merge_repeated(wire_type, &mut values, &mut buf, ctx).unwrap();
    assert!(!buf.has_remaining());
    values
}

fn text(bytes: &[u8]) -> String {
    String::from_utf8(bytes.to_vec()).unwrap()
}

fn bits(values: &[f64]) -> Vec<u64> {
    values.iter().map(|v| v.to_bits()).collect()
}

/// Reads every record of a stream.
fn records(mut stream: &[u8]) -> Vec<Vec<u8>> {
    let mut out = Vec::new();
    loop {
        match TfRecord::read(stream) {
            Ok((record, consumed)) => {
                out.push(record.into_data());
                stream = &stream[consumed..];
            }
            Err(ReadError::Eof) => return out,
            Err(other) => panic!("{other:?}"),
        }
    }
}

#[test]
fn file_version_event_bytes() {
    let event = Event {
        wall_time: 1.5f64.to_bits(),
        step: 0,
        what: Some(What::FileVersion("brain.Event:2".to_string())),
        source_metadata: Some(SourceMetadata { writer: "w".to_string() }),
    };
    let mut expected = vec![0x09, 0, 0, 0, 0, 0, 0, 0xf8, 0x3f, 0x1a, 13];
    expected.extend_from_slice(b"brain.Event:2");
    expected.extend_from_slice(&[0x52, 3, 0x0a, 1, b'w']);
    assert_eq!(event.encode_to_vec(), expected);
}

#[test]
fn empty_event_encodes_to_nothing() {
    assert_eq!(Event::default().encode_to_vec(), Vec::<u8>::new());
    assert_eq!(Summary::default().encode_to_vec(), Vec::<u8>::new());
    assert_eq!(Value::default().encode_to_vec(), Vec::<u8>::new());
    assert_eq!(HistogramProto::default().encode_to_vec(), Vec::<u8>::new());
    assert_eq!(TensorProto::default().encode_to_vec(), Vec::<u8>::new());
    assert_eq!(SourceMetadata::default().encode_to_vec(), Vec::<u8>::new());
    assert_eq!(PluginData::default().encode_to_vec(), Vec::<u8>::new());
    assert_eq!(SummaryMetadata::default().encode_to_vec(), Vec::<u8>::new());
    assert_eq!(TensorShapeProto::default().encode_to_vec(), Vec::<u8>::new());
    assert_eq!(Dim::default().encode_to_vec(), Vec::<u8>::new());
}

#[test]
fn zero_wall_time_of_either_sign_is_left_out() {
    let mut event = Event::default();
    event.wall_time = (-0.0f64).to_bits();
    assert_eq!(event.encode_to_vec(), Vec::<u8>::new());
    event.wall_time = f64::MIN_POSITIVE.to_bits();
    assert_eq!(fields(&event.encode_to_vec()), vec![Field::Double(1, f64::MIN_POSITIVE)]);
    event.wall_time = 1;
    assert_eq!(event.encode_to_vec(), vec![0x09, 1, 0, 0, 0, 0, 0, 0, 0]);
}

#[test]
fn step_is_a_varint() {
    let mut event = Event::default();
    event.step = 1;
    assert_eq!(event.encode_to_vec(), vec![0x10, 1]);
    event.step = 300;
    assert_eq!(event.encode_to_vec(), vec![0x10, 0xac, 0x02]);
    event.step = -1;
    assert_eq!(
        event.encode_to_vec(),
        vec![0x10, 0xff, 0xff, 0xff, 0xff, 0xff, 0xff, 0xff, 0xff, 0xff, 0x01]
    );
    for step in [1i64, 127, 128, 16383, 16384, i64::MAX, i64::MIN, -2] {
        event.step = step;
        assert_eq!(fields(&event.encode_to_vec()), vec![Field::Varint(2, step)]);
    }
}

#[test]
fn present_members_are_written_even_if_empty() {
    let event = Event {
        wall_time: 0,
        step: 0,
        what: Some(What::FileVersion(String::new())),
        source_metadata: Some(SourceMetadata::default()),
    };
    assert_eq!(event.encode_to_vec(), vec![0x1a, 0, 0x52, 0]);
    let value = Value {
        tag: String::new(),
        value: Some(InnerValue::SimpleValue(0)),
        metadata: Some(SummaryMetadata::default()),
    };
    assert_eq!(value.encode_to_vec(), vec![0x15, 0, 0, 0, 0, 0x4a, 0]);
}

#[test]
fn scalar_value_decodes_with_prost() {
    let summary = SummaryBuilder::new().scalar("loss", 0.25f32.to_bits()).build();
    let outer = fields(&summary.encode_to_vec());
    assert_eq!(outer.len(), 1);
    let Field::Bytes(1, value) = &outer[0] else { panic!("{outer:?}") };
    assert_eq!(
        fields(value),
        vec![Field::Bytes(1, b"loss".to_vec()), Field::Float(2, 0.25)]
    );
}

#[test]
fn tags_are_written_in_utf8() {
    let summary = SummaryBuilder::new().scalar("größe/µ", 1.0f32.to_bits()).build();
    let outer = fields(&summary.encode_to_vec());
    let Field::Bytes(1, value) = &outer[0] else { panic!("{outer:?}") };
    let inner = fields(value);
    let Field::Bytes(1, tag) = &inner[0] else { panic!("{inner:?}") };
    assert_eq!(text(tag), "größe/µ");
}

#[test]
fn long_payloads_have_multi_byte_lengths() {
    let tag = "t".repeat(300);
    let summary = SummaryBuilder::new().scalar(&tag, 1.0f32.to_bits()).build();
    let bytes = summary.encode_to_vec();
    // field 1 of the summary, then the length 308 as a varint
    assert_eq!(&bytes[..3], &[0x0a, 0xb4, 0x02]);
    // field 1 of the value, then the length 300 as a varint
    assert_eq!(&bytes[3..6], &[0x0a, 0xac, 0x02]);
    let outer = fields(&bytes);
    let Field::Bytes(1, value) = &outer[0] else { panic!("{outer:?}") };
    assert_eq!(
        fields(value),
        vec![Field::Bytes(1, tag.into_bytes()), Field::Float(2, 1.0)]
    );
}

#[test]
fn histogram_value_decodes_with_prost() {
    let histogram = HistogramProto {
        min: 1.0f64.to_bits(),
        max: 4.0f64.to_bits(),
        bucket_limit: bits(&[2.5, 4.0]),
        bucket: bits(&[2.0, 2.0]),
    };
    let summary = SummaryBuilder::new().histogram("weights", histogram).build();
    let outer = fields(&summary.encode_to_vec());
    let Field::Bytes(1, value) = &outer[0] else { panic!("{outer:?}") };
    let inner = fields(value);
    assert_eq!(inner.len(), 2);
    assert_eq!(inner[0], Field::Bytes(1, b"weights".to_vec()));
    let Field::Bytes(5, histo) = &inner[1] else { panic!("{inner:?}") };
    let parts = fields(histo);
    assert_eq!(parts.len(), 4);
    assert_eq!(parts[0], Field::Double(1, 1.0));
    assert_eq!(parts[1], Field::Double(2, 4.0));
    let Field::Bytes(6, limits) = &parts[2] else { panic!("{parts:?}") };
    let Field::Bytes(7, counts) = &parts[3] else { panic!("{parts:?}") };
    assert_eq!(packed_doubles(limits), vec![2.5, 4.0]);
    assert_eq!(packed_doubles(counts), vec![2.0, 2.0]);
}

#[test]
fn histogram_bytes() {
    let histogram = HistogramProto {
        min: 0,
        max: 2.0f64.to_bits(),
        bucket_limit: bits(&[2.0]),
        bucket: bits(&[1.0]),
    };
    assert_eq!(
        histogram.encode_to_vec(),
        vec![
            0x11, 0, 0, 0, 0, 0, 0, 0, 0x40, // max
            0x32, 8, 0, 0, 0, 0, 0, 0, 0, 0x40, // limits
            0x3a, 8, 0, 0, 0, 0, 0, 0, 0xf0, 0x3f, // counts
        ]
    );
}

#[test]
fn text_value_decodes_with_prost() {
    let strings = vec![b"red".to_vec(), Vec::new(), b"blue".to_vec(), b"green".to_vec()];
    let summary = SummaryBuilder::new().text_ndarray("colors", strings, &[2, 2]).build();
    let outer = fields(&summary.encode_to_vec());
    let Field::Bytes(1, value) = &outer[0] else { panic!("{outer:?}") };
    let inner = fields(value);
    assert_eq!(inner.len(), 3);
    assert_eq!(inner[0], Field::Bytes(1, b"colors".to_vec()));
    let Field::Bytes(8, tensor) = &inner[1] else { panic!("{inner:?}") };
    let Field::Bytes(9, metadata) = &inner[2] else { panic!("{inner:?}") };

    let parts = fields(tensor);
    assert_eq!(parts.len(), 6);
    assert_eq!(parts[0], Field::Varint(1, DT_STRING as i64));
    let Field::Bytes(2, shape) = &parts[1] else { panic!("{parts:?}") };
    assert_eq!(
        fields(shape),
        vec![Field::Bytes(2, vec![0x08, 2]), Field::Bytes(2, vec![0x08, 2])]
    );
    assert_eq!(parts[2], Field::Bytes(8, b"red".to_vec()));
    assert_eq!(parts[3], Field::Bytes(8, Vec::new()));
    assert_eq!(parts[4], Field::Bytes(8, b"blue".to_vec()));
    assert_eq!(parts[5], Field::Bytes(8, b"green".to_vec()));

    let plugin = fields(metadata);
    let Field::Bytes(1, data) = &plugin[0] else { panic!("{plugin:?}") };
    assert_eq!(fields(data), vec![Field::Bytes(1, b"text".to_vec())]);
}

#[test]
fn plugin_content_is_written_when_present() {
    let data = PluginData { plugin_name: "p".to_string(), content: vec![1, 2, 3] };
    assert_eq!(data.encode_to_vec(), vec![0x0a, 1, b'p', 0x12, 3, 1, 2, 3]);
}

#[test]
fn negative_dtype_is_sign_extended() {
    let tensor = TensorProto { dtype: -1, tensor_shape: None, string_val: Vec::new() };
    assert_eq!(fields(&tensor.encode_to_vec()), vec![Field::Varint(1, -1)]);
    assert_eq!(tensor.encode_to_vec().len(), 11);
}

#[test]
fn write_event_frames_the_encoding() {
    let event = Event { wall_time: 0, step: 7, what: None, source_metadata: None };
    let mut writer = Writer::wrap(Vec::new());
    writer.write_event(&event).unwrap();
    let stream = writer.into_inner();
    assert_eq!(stream, TfRecord::from_data(vec![0x10, 7]).to_bytes());
}

#[test]
fn header_then_scalar_round_trip() {
    let mut writer = Writer::wrap(Vec::new());
    writer.write_file_version_at(1234.5f64.to_bits()).unwrap();
    let summary = SummaryBuilder::new().scalar("loss", 0.125f32.to_bits()).build();
    writer.write_summary_at(1240.25f64.to_bits(), 3, summary).unwrap();
    let stream = writer.into_inner();

    let payloads = records(&stream);
    assert_eq!(payloads.len(), 2);

    let header = fields(&payloads[0]);
    assert_eq!(header.len(), 3);
    assert_eq!(header[0], Field::Double(1, 1234.5));
    assert_eq!(header[1], Field::Bytes(3, b"brain.Event:2".to_vec()));
    let Field::Bytes(10, source) = &header[2] else { panic!("{header:?}") };
    assert_eq!(fields(source), vec![Field::Bytes(1, WRITER.as_bytes().to_vec())]);
    assert_eq!(FILE_VERSION, "brain.Event:2");
    assert_eq!(WRITER, "wchargin/rust-tensorboard-writer");

    let event = fields(&payloads[1]);
    assert_eq!(event.len(), 3);
    assert_eq!(event[0], Field::Double(1, 1240.25));
    assert_eq!(event[1], Field::Varint(2, 3));
    let Field::Bytes(5, summary) = &event[2] else { panic!("{event:?}") };
    let values = fields(summary);
    assert_eq!(values.len(), 1);
    let Field::Bytes(1, value) = &values[0] else { panic!("{values:?}") };
    assert_eq!(
        fields(value),
        vec![Field::Bytes(1, b"loss".to_vec()), Field::Float(2, 0.125)]
    );
}

#[test]
fn write_file_version_reads_the_clock() {
    let before = SystemTime::now().duration_since(UNIX_EPOCH).unwrap().as_secs_f64();
    let mut writer = Writer::wrap(Vec::new());
    writer.write_file_version().unwrap();
    let after = SystemTime::now().duration_since(UNIX_EPOCH).unwrap().as_secs_f64();
    let payloads = records(writer.get_ref());
    assert_eq!(payloads.len(), 1);
    let header = fields(&payloads[0]);
    let Field::Double(1, stamp) = header[0] else { panic!("{header:?}") };
    assert!(before <= stamp && stamp <= after);
    assert_eq!(header[1], Field::Bytes(3, b"brain.Event:2".to_vec()));
}

#[test]
fn write_summary_converts_the_wall_time() {
    let time = UNIX_EPOCH + Duration::new(1_700_000_000, 250_000_000);
    let mut writer = Writer::wrap(Vec::new());
    let summary = SummaryBuilder::new().scalar("x", 2.0f32.to_bits()).build();
    writer.write_summary(time, -5, summary).unwrap();
    let payloads = records(writer.get_ref());
    let event = fields(&payloads[0]);
    assert_eq!(event[0], Field::Double(1, 1_700_000_000.25));
    assert_eq!(event[1], Field::Varint(2, -5));
}

#[test]
fn wall_time_bits_of_known_times() {
    assert_eq!(wall_time_bits(&UNIX_EPOCH), Some(0));
    assert_eq!(wall_time_bits(&(UNIX_EPOCH + Duration::from_millis(1500))), Some(1.5f64.to_bits()));
    assert_eq!(wall_time_bits(&(UNIX_EPOCH - Duration::from_nanos(1))), None);
}

#[test]
fn wall_time_before_the_epoch_is_a_clock_error() {
    let mut writer = Writer::wrap(Vec::new());
    let summary = SummaryBuilder::new().scalar("x", 0).build();
    let outcome = writer.write_summary(UNIX_EPOCH - Duration::from_secs(1), 0, summary);
    assert!(matches!(outcome, Err(WriteError::Clock)));
    assert!(writer.into_inner().is_empty());
}

#[test]
fn sink_failure_is_handed_on() {
    let summary = SummaryBuilder::new().scalar("loss", 1.0f32.to_bits()).build();
    let mut reference = Writer::wrap(Vec::new());
    reference.write_summary_at(1, 1, summary.clone()).unwrap();
    let whole = reference.into_inner();

    let mut writer = Writer::wrap(BoundedBuffer::with_limit(whole.len() - 1));
    let outcome = writer.write_summary_at(1, 1, summary.clone());
    assert!(matches!(outcome, Err(WriteError::Sink(_))));
    assert_eq!(writer.get_ref().as_slice(), &whole[..whole.len() - 1]);
    assert!(matches!(TfRecord::read(writer.get_ref().as_slice()), Err(ReadError::Truncated)));

    let mut writer = Writer::wrap(BoundedBuffer::with_limit(whole.len()));
    assert!(writer.write_summary_at(1, 1, summary).is_ok());
    assert!(writer.flush().is_ok());
    assert!(writer.get_mut().write_all(&[0]).is_err());
    assert_eq!(writer.into_inner().as_slice(), whole.as_slice());
}
