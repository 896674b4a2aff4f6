//! Fan-out: which sinks a frame goes to, and how each record is stamped.
//!
//! Sending is left to whoever owns the channel handles. This module decides
//! what is sent where, keeps the sequence number of every sink, and takes
//! note of failures without letting them touch anything else.

use vstd::prelude::*;

verus! {

/// The two kinds of frame that a revolution is encoded into.
#[derive(Clone, Copy, Debug, PartialEq, Eq, Structural)]
pub enum FrameKind {
    LaserScan,
    PointCloud,
}

/// The kinds of consumer.
#[derive(Clone, Copy, Debug, PartialEq, Eq, Structural)]
pub enum SinkKind {
    /// A topic of the pub/sub bus.
    PubSub,
    /// A channel of the visualisation websocket.
    Visualization,
    /// A channel of the log file.
    Log,
}

/// Records between two progress lines of a sink.
pub const RECORD_PROGRESS_INTERVAL: u32 = 20;

/// Revolutions between two progress lines of the encoder.
pub const REVOLUTION_PROGRESS_INTERVAL: u32 = 80;

/// The stamp of one record.
#[derive(Clone, Copy, Debug, PartialEq, Eq, Structural)]
pub struct RecordHeader {
    pub channel_id: u16,
    pub sequence: u32,
    pub log_time: u64,
    pub publish_time: u64,
}

/// A registered sink and what was sent to it so far.
#[derive(Clone, Copy, Debug, PartialEq, Eq, Structural)]
pub struct Sink {
    pub kind: SinkKind,
    /// The kind of frame that the sink was registered for.
    pub frames: FrameKind,
    /// The channel that the sink gave at registration.
    pub channel_id: u16,
    /// The sequence number of the last record stamped for the sink.
    pub sequence: u32,
    /// Sends that failed.
    pub failures: u64,
}

/// One record to send: to which sink, and under which stamp.
#[derive(Clone, Copy, Debug, PartialEq, Eq, Structural)]
pub struct Delivery {
    /// Index of the sink in the fan-out.
    pub sink: usize,
    pub kind: SinkKind,
    pub header: RecordHeader,
    /// Whether a progress line is due with this record.
    pub report_progress: bool,
}

/// The sinks of the pipeline, in the order of their registration.
#[derive(Clone, Debug, PartialEq, Eq)]
pub struct Fanout {
    pub sinks: Vec<Sink>,
}

/// Whether `sink` is sent a frame of kind `frames`: it was registered for
/// that kind, and has sequence numbers left.
pub open spec fn takes(sink: Sink, frames: FrameKind) -> bool {
    sink.frames == frames && sink.sequence < u32::MAX
}

/// The stamp of the next record of `sink`, captured at `time_nanos`.
pub open spec fn next_header(sink: Sink, time_nanos: u64) -> RecordHeader {
    RecordHeader {
        channel_id: sink.channel_id,
        sequence: (sink.sequence + 1) as u32,
        log_time: time_nanos,
        publish_time: time_nanos,
    }
}

/// The sink after one more record was stamped for it.
pub open spec fn stamped(sink: Sink) -> Sink {
    Sink { sequence: (sink.sequence + 1) as u32, ..sink }
}

/// The record that goes to the sink at `index`.
pub open spec fn delivery_to(index: int, sink: Sink, time_nanos: u64) -> Delivery {
    Delivery {
        sink: index as usize,
        kind: sink.kind,
        header: next_header(sink, time_nanos),
        report_progress: (sink.sequence + 1) % (RECORD_PROGRESS_INTERVAL as int) == 0,
    }
}

/// The records that one frame gives rise to: one for each sink that takes
/// it, in the order of registration.
pub open spec fn deliveries_of(sinks: Seq<Sink>, frames: FrameKind, time_nanos: u64) -> Seq<
    Delivery,
>
    decreases sinks.len(),
{
    if sinks.len() == 0 {
        Seq::empty()
    } else {
        let before = deliveries_of(sinks.drop_last(), frames, time_nanos);
        if takes(sinks.last(), frames) {
            before.push(delivery_to(sinks.len() - 1, sinks.last(), time_nanos))
        } else {
            before
        }
    }
}

/// The sinks after one frame: those that take it are one record further.
pub open spec fn sinks_after(sinks: Seq<Sink>, frames: FrameKind) -> Seq<Sink> {
    Seq::new(
        sinks.len(),
        |i: int|
            if takes(sinks[i], frames) {
                stamped(sinks[i])
            } else {
                sinks[i]
            },
    )
}

/// The sinks after a send to the sink at `index` was reported: a failure
/// is counted against that sink, and nothing else changes.
pub open spec fn sinks_settled(sinks: Seq<Sink>, index: int, delivered: bool) -> Seq<Sink> {
    if !delivered && 0 <= index < sinks.len() && sinks[index].failures < u64::MAX {
        sinks.update(index, Sink { failures: (sinks[index].failures + 1) as u64, ..sinks[index] })
    } else {
        sinks
    }
}

/// Two lists of sinks that differ in their failure counts only.
pub open spec fn same_but_failures(a: Seq<Sink>, b: Seq<Sink>) -> bool {
    &&& a.len() == b.len()
    &&& forall|i: int| 0 <= i < a.len() ==> (#[trigger] a[i]) == (Sink { failures: a[i].failures, ..b[i] })
}

/// Failures are isolated: what a frame sends, and to whom, does not depend
/// on how many sends have failed, at that sink or at any other.
pub proof fn lemma_failures_do_not_stop_delivery(
    a: Seq<Sink>,
    b: Seq<Sink>,
    frames: FrameKind,
    time_nanos: u64,
)
    requires
        same_but_failures(a, b),
    ensures
        deliveries_of(a, frames, time_nanos) == deliveries_of(b, frames, time_nanos),
    decreases a.len(),
{
    if a.len() > 0 {
        assert(a.last() == (Sink { failures: a.last().failures, ..b.last() })) by {
            assert(a[a.len() - 1] == a.last());
        }
        assert forall|i: int| 0 <= i < a.drop_last().len() implies (#[trigger] a.drop_last()[i])
            == (Sink { failures: a.drop_last()[i].failures, ..b.drop_last()[i] }) by {
            assert(a[i] == (Sink { failures: a[i].failures, ..b[i] }));
        }
        lemma_failures_do_not_stop_delivery(a.drop_last(), b.drop_last(), frames, time_nanos);
    }
}

/// A reported send leaves every sink as it was but for its failure count.
pub proof fn lemma_settling_touches_failures_only(sinks: Seq<Sink>, index: int, delivered: bool)
    ensures
        same_but_failures(sinks_settled(sinks, index, delivered), sinks),
{
}

/// Sequence numbers only grow: a frame leaves the number of every sink
/// where it was or one higher, and one higher exactly where the sink
/// takes the frame.
pub proof fn lemma_sequence_grows(sinks: Seq<Sink>, frames: FrameKind, i: int)
    requires
        0 <= i < sinks.len(),
    ensures
        sinks_after(sinks, frames)[i].sequence == if takes(sinks[i], frames) {
            sinks[i].sequence + 1
        } else {
            sinks[i].sequence as int
        },
{
}

impl Sink {
    /// A sink that nothing was sent to yet.
    pub fn new(kind: SinkKind, frames: FrameKind, channel_id: u16) -> (sink: Sink)
        ensures
            sink == (Sink { kind, frames, channel_id, sequence: 0, failures: 0 }),
    {
        Sink { kind, frames, channel_id, sequence: 0, failures: 0 }
    }

    /// Stamps the next record of the sink: the sequence number after the
    /// last one, and the capture time as both log and publish time.
    ///
    /// `None`, and no change, once the sequence numbers are used up.
    pub fn stamp(&mut self, time_nanos: u64) -> (header: Option<RecordHeader>)
        ensures
            old(self).sequence < u32::MAX ==> header == Some(next_header(*old(self), time_nanos))
                && *final(self) == stamped(*old(self)),
            old(self).sequence == u32::MAX ==> header is None && *final(self) == *old(self),
    {
        if self.sequence < u32::MAX {
            self.sequence = self.sequence + 1;
            Some(
                RecordHeader {
                    channel_id: self.channel_id,
                    sequence: self.sequence,
                    log_time: time_nanos,
                    publish_time: time_nanos,
                },
            )
        } else {
            None
        }
    }
}

/// Whether a progress line is due after `count` items, where one is due
/// after every `every` of them; none is ever due where `every` is zero.
pub fn progress_due(count: u32, every: u32) -> (due: bool)
    ensures
        due == (every != 0 && count % every == 0),
{
    every != 0 && count % every == 0
}

impl Fanout {
    /// A fan-out without sinks.
    pub fn new() -> (fanout: Fanout)
        ensures
            fanout.sinks@ == Seq::<Sink>::empty(),
    {
        Fanout { sinks: Vec::new() }
    }

    /// Registers a sink for one kind of frame and returns its index.
    pub fn register(&mut self, kind: SinkKind, frames: FrameKind, channel_id: u16) -> (index: usize)
        ensures
            index == old(self).sinks@.len(),
            final(self).sinks@ == old(self).sinks@.push(
                Sink { kind, frames, channel_id, sequence: 0, failures: 0 },
            ),
    {
        let index: usize = self.sinks.len();
        self.sinks.push(Sink::new(kind, frames, channel_id));
        index
    }

    /// Stamps one record for every sink that takes a frame of kind
    /// `frames`, captured at `time_nanos`, and returns the records in the
    /// order of registration.
    pub fn deliveries(&mut self, frames: FrameKind, time_nanos: u64) -> (records: Vec<Delivery>)
        ensures
            records@ == deliveries_of(old(self).sinks@, frames, time_nanos),
            final(self).sinks@ == sinks_after(old(self).sinks@, frames),
    {
        let count: usize = self.sinks.len();
        let mut records: Vec<Delivery> = Vec::new();
        let mut next: usize = 0;
        while next < count
            invariant
                next <= count,
                count == self.sinks@.len(),
                count == old(self).sinks@.len(),
                records@ == deliveries_of(
                    old(self).sinks@.subrange(0, next as int),
                    frames,
                    time_nanos,
                ),
                forall|i: int|
                    0 <= i < next ==> self.sinks@[i] == sinks_after(old(self).sinks@, frames)[i],
                forall|i: int| next <= i < count ==> self.sinks@[i] == old(self).sinks@[i],
            decreases count - next,
        {
            proof {
                let taken = old(self).sinks@.subrange(0, next + 1);
                assert(taken.drop_last() =~= old(self).sinks@.subrange(0, next as int));
                assert(taken.last() == old(self).sinks@[next as int]);
            }
            let mut sink = self.sinks[next];
            if sink.frames == frames {
                match sink.stamp(time_nanos) {
                    Some(header) => {
                        records.push(
                            Delivery {
                                sink: next,
                                kind: sink.kind,
                                header,
                                report_progress: progress_due(header.sequence, RECORD_PROGRESS_INTERVAL),
                            },
                        );
                        self.sinks[next] = sink;
                    },
                    None => {},
                }
            }
            next = next + 1;
        }
        proof {
            assert(old(self).sinks@.subrange(0, next as int) =~= old(self).sinks@);
            assert(self.sinks@ =~= sinks_after(old(self).sinks@, frames));
        }
        records
    }

    /// Takes note of how the send to the sink at `index` ended, and says
    /// whether a failure is to be logged.
    ///
    /// A failed send is counted and dropped: it is not tried again, and the
    /// sink is sent the next frame like any other.
    pub fn settle(&mut self, index: usize, delivered: bool) -> (log_failure: bool)
        ensures
            log_failure == !delivered,
            final(self).sinks@ == sinks_settled(old(self).sinks@, index as int, delivered),
    {
        if !delivered && index < self.sinks.len() {
            let mut sink = self.sinks[index];
            if sink.failures < u64::MAX {
                sink.failures = sink.failures + 1;
                self.sinks[index] = sink;
            }
        }
        assert(self.sinks@ =~= sinks_settled(old(self).sinks@, index as int, delivered));
        !delivered
    }
}

} // verus!
