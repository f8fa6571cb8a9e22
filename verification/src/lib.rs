//! Verified building blocks for writing TensorBoard event files.
//!
//! An event file is a plain concatenation of records. Every record carries a
//! length, a payload and two masked CRC-32C checksums, and every payload is a
//! protocol-buffer message describing one event of a training run.

pub mod clock;
pub mod file_name;
pub mod histogram;
pub mod masked_crc;
pub mod proto;
pub mod sink;
pub mod summary;
pub mod tf_record;
pub mod wire;
pub mod writer;

pub use masked_crc::MaskedCrc;
pub use sink::{BoundedBuffer, BufferFull, Sink};
pub use summary::SummaryBuilder;
pub use tf_record::{ChecksumField, ReadError, TfRecord};
pub use writer::Writer as TensorboardWriter;
pub use writer::{WriteError, Writer};
