//! The event-file writer.

use std::time::SystemTime;
use vstd::prelude::*;
use vstd::utf8::encode_utf8;
use crate::clock::{before_epoch, system_now, wall_time, wall_time_bits};
use crate::proto::{Event, SourceMetadata, Summary, What};
use crate::sink::{has_room, Sink};
use crate::tf_record::{frame, TfRecord};
use crate::wire::{bytes_field, double_field, int64_field, text_field};

verus! {

/// The format version that the first event of a file announces.
pub const FILE_VERSION: &'static str = "brain.Event:2";

/// The writer that the first event of a file names as its source.
pub const WRITER: &'static str = "wchargin/rust-tensorboard-writer";

/// Why a write did not complete.
#[derive(Debug)]
pub enum WriteError<E> {
    /// The sink refused some of the bytes. The stream may end in a truncated
    /// record and should not be written to again.
    Sink(E),
    /// The wall time lies before the Unix epoch.
    Clock,
}

/// The encoding of the event that opens a file, written at `wall_time`.
pub open spec fn file_version_encoding(wall_time: u64) -> Seq<u8> {
    double_field(1, wall_time) + bytes_field(3, encode_utf8(FILE_VERSION@)) + bytes_field(
        10,
        text_field(1, WRITER@),
    )
}

/// The encoding of the event that carries a summary with the encoding
/// `summary`.
pub open spec fn summary_encoding(wall_time: u64, step: i64, summary: Seq<u8>) -> Seq<u8> {
    double_field(1, wall_time) + int64_field(2, step) + bytes_field(5, summary)
}

/// What writing one record with the given payload does to a sink: on
/// success the sink grows by the whole record, on failure by a proper prefix
/// of it. A sink with room for the whole record is sure to take it.
pub open spec fn record_written<W: Sink>(
    before: W,
    after: W,
    payload: Seq<u8>,
    complete: bool,
) -> bool {
    &&& after.capacity() == before.capacity()
    &&& has_room(&before, frame(payload).len()) ==> complete
    &&& if complete {
        after.accepted() == before.accepted() + frame(payload)
    } else {
        exists|n: int|
            0 <= n < frame(payload).len() && after.accepted() == before.accepted()
                + #[trigger] frame(payload).take(n)
    }
}

/// What writing the event that opens a file does at the time `now`: at or
/// after the Unix epoch, one record with the event stamped with that time is
/// written, and only the sink can make that fail; before the epoch the
/// outcome is a clock error and the sink stays as it is.
pub open spec fn header_written<W: Sink>(
    before: W,
    after: W,
    now: SystemTime,
    outcome: Result<(), WriteError<W::Error>>,
) -> bool {
    match wall_time(now) {
        Some(seconds) => {
            &&& record_written(before, after, file_version_encoding(seconds), outcome is Ok)
            &&& outcome matches Err(reason) ==> reason is Sink
        },
        None => outcome matches Err(WriteError::Clock) && after == before,
    }
}

/// What writing a summary with the encoding `summary` does for the wall time
/// `time`: at or after the Unix epoch, one record with the event stamped with
/// that time is written, and only the sink can make that fail; before the
/// epoch the outcome is a clock error and the sink stays as it is.
pub open spec fn summary_written<W: Sink>(
    before: W,
    after: W,
    time: SystemTime,
    step: i64,
    summary: Seq<u8>,
    outcome: Result<(), WriteError<W::Error>>,
) -> bool {
    match wall_time(time) {
        Some(seconds) => {
            &&& record_written(
                before,
                after,
                summary_encoding(seconds, step, summary),
                outcome is Ok,
            )
            &&& outcome matches Err(reason) ==> reason is Sink
        },
        None => outcome matches Err(WriteError::Clock) && after == before,
    }
}

/// Writes TensorBoard event files.
///
/// An event file is a sequence of records, one directly after the other, each
/// holding one encoded event. The writer adds no buffering of its own: each
/// call hands exactly one record to the sink.
pub struct Writer<W> {
    writer: W,
}

impl<W> Writer<W> {
    /// The sink this writer appends to.
    pub closed spec fn sink(&self) -> W {
        self.writer
    }

    /// Wraps an existing sink.
    pub fn wrap(writer: W) -> (wrapped: Self)
        ensures
            wrapped.sink() == writer,
    {
        Writer { writer }
    }

    /// Gets a reference to the underlying sink.
    pub fn get_ref(&self) -> (sink: &W)
        ensures
            *sink == self.sink(),
    {
        &self.writer
    }

    /// Gets a mutable reference to the underlying sink.
    pub fn get_mut(&mut self) -> (sink: &mut W)
        ensures
            *sink == old(self).sink(),
            final(self).sink() == *final(sink),
    {
        &mut self.writer
    }

    /// Unwraps this writer, returning the underlying sink.
    pub fn into_inner(self) -> (sink: W)
        ensures
            sink == self.sink(),
    {
        self.writer
    }
}

impl<W: Sink> Writer<W> {
    /// Flushes the underlying sink: on success the sink holds nothing back
    /// any longer. What the sink has accepted stays as it is; an error of
    /// the sink is handed on.
    pub fn flush(&mut self) -> (outcome: Result<(), WriteError<W::Error>>)
        ensures
            final(self).sink().capacity() == old(self).sink().capacity(),
            final(self).sink().accepted() == old(self).sink().accepted(),
            final(self).sink().pending() <= old(self).sink().pending(),
            outcome is Ok ==> final(self).sink().pending() == 0,
            has_room(&old(self).sink(), 0) ==> outcome is Ok,
            outcome matches Err(reason) ==> reason is Sink,
    {
        match self.writer.flush() {
            Ok(()) => Ok(()),
            Err(e) => Err(WriteError::Sink(e)),
        }
    }

    /// Writes one record to the sink.
    pub fn write_record(&mut self, record: &TfRecord) -> (outcome: Result<
        (),
        WriteError<W::Error>,
    >)
        ensures
            record_written(old(self).sink(), final(self).sink(), record@, outcome is Ok),
            outcome matches Err(reason) ==> reason is Sink,
    {
        match record.write(&mut self.writer) {
            Ok(()) => Ok(()),
            Err(e) => Err(WriteError::Sink(e)),
        }
    }

    /// Encodes `event` and writes it to the sink as one record.
    pub fn write_event(&mut self, event: &Event) -> (outcome: Result<(), WriteError<W::Error>>)
        ensures
            record_written(old(self).sink(), final(self).sink(), event.encoding(), outcome is Ok),
            outcome matches Err(reason) ==> reason is Sink,
    {
        let data = event.encode_to_vec();
        let record = TfRecord::from_data(data);
        self.write_record(&record)
    }

    /// Writes the event that opens a file, stamped with the wall time
    /// `wall_time`: seconds since the Unix epoch as a 64-bit float, given by
    /// its bits.
    pub fn write_file_version_at(&mut self, wall_time: u64) -> (outcome: Result<
        (),
        WriteError<W::Error>,
    >)
        ensures
            record_written(
                old(self).sink(),
                final(self).sink(),
                file_version_encoding(wall_time),
                outcome is Ok,
            ),
            outcome matches Err(reason) ==> reason is Sink,
    {
        let event = Event {
            wall_time,
            step: 0,
            what: Some(What::FileVersion(FILE_VERSION.to_owned())),
            source_metadata: Some(SourceMetadata { writer: WRITER.to_owned() }),
        };
        assert(event.encoding() =~= file_version_encoding(wall_time));
        self.write_event(&event)
    }

    /// Writes `summary`, wrapped in an event with the given step and the wall
    /// time `wall_time`: seconds since the Unix epoch as a 64-bit float,
    /// given by its bits.
    pub fn write_summary_at(
        &mut self,
        wall_time: u64,
        step: i64,
        summary: Summary,
    ) -> (outcome: Result<(), WriteError<W::Error>>)
        ensures
            record_written(
                old(self).sink(),
                final(self).sink(),
                summary_encoding(wall_time, step, summary.encoding()),
                outcome is Ok,
            ),
            outcome matches Err(reason) ==> reason is Sink,
    {
        let ghost encoded = summary.encoding();
        let event = Event {
            wall_time,
            step,
            what: Some(What::Summary(summary)),
            source_metadata: None,
        };
        assert(event.encoding() =~= summary_encoding(wall_time, step, encoded));
        self.write_event(&event)
    }

    /// Writes the event that opens a file. This reads the system clock.
    ///
    /// If the clock stands before the Unix epoch, nothing is written and the
    /// outcome is a clock error.
    pub fn write_file_version(&mut self) -> (outcome: Result<(), WriteError<W::Error>>)
        ensures
            exists|now: SystemTime| #[trigger]
                header_written(old(self).sink(), final(self).sink(), now, outcome),
    {
        let now = system_now();
        let outcome = match wall_time_bits(&now) {
            Some(seconds) => self.write_file_version_at(seconds),
            None => Err(WriteError::Clock),
        };
        assert(header_written(old(self).sink(), self.sink(), now, outcome));
        outcome
    }

    /// Writes `summary`, wrapped in an event with the given step and wall
    /// time.
    ///
    /// The outcome is a clock error exactly if `wall_time` lies before the
    /// Unix epoch, and nothing is written then. Neither the step nor the
    /// summary is examined.
    pub fn write_summary(
        &mut self,
        wall_time: SystemTime,
        step: i64,
        summary: Summary,
    ) -> (outcome: Result<(), WriteError<W::Error>>)
        ensures
            summary_written(
                old(self).sink(),
                final(self).sink(),
                wall_time,
                step,
                summary.encoding(),
                outcome,
            ),
            outcome matches Err(WriteError::Clock) <==> before_epoch(wall_time),
    {
        match wall_time_bits(&wall_time) {
            Some(seconds) => self.write_summary_at(seconds, step, summary),
            None => Err(WriteError::Clock),
        }
    }
}

} // verus!
