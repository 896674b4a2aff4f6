//! The polar telemetry record: one range and one intensity per sample.

use vstd::prelude::*;
use crate::pose::Pose;
use crate::sample::{angle_rank, in_angle_order, RawSample};
use crate::time::{proto_time, system_time_to_proto_time, EpochTime, Timestamp};

verus! {

/// A laser scan frame: every sample of one revolution, valid or not.
///
/// Angles and ranges are binary32 bit patterns and intensities are quality
/// values; they are widened to doubles where the frame is put on the wire.
#[derive(Clone, Debug, PartialEq, Eq)]
pub struct LaserScan {
    pub timestamp: Timestamp,
    pub frame_id: String,
    pub pose: Pose,
    pub start_angle: u32,
    pub end_angle: u32,
    pub ranges: Vec<u32>,
    pub intensities: Vec<u8>,
}

/// What a laser scan frame holds.
pub struct LaserScanView {
    pub timestamp: Timestamp,
    pub frame_id: Seq<char>,
    pub pose: Pose,
    pub start_angle: u32,
    pub end_angle: u32,
    pub ranges: Seq<u32>,
    pub intensities: Seq<u8>,
}

impl View for LaserScan {
    type V = LaserScanView;

    open spec fn view(&self) -> LaserScanView {
        LaserScanView {
            timestamp: self.timestamp,
            frame_id: self.frame_id@,
            pose: self.pose,
            start_angle: self.start_angle,
            end_angle: self.end_angle,
            ranges: self.ranges@,
            intensities: self.intensities@,
        }
    }
}

impl LaserScanView {
    /// The frame has one range and one intensity for each of its samples.
    pub open spec fn is_well_formed(self) -> bool {
        self.ranges.len() == self.intensities.len()
    }
}

/// The frame of a revolution: the angles of its first and last sample (zero
/// for an empty revolution), and the distance and quality of every sample
/// in order.
pub open spec fn laser_scan_of(
    timestamp: Timestamp,
    frame_id: Seq<char>,
    pose: Pose,
    revolution: Seq<RawSample>,
) -> LaserScanView {
    LaserScanView {
        timestamp,
        frame_id,
        pose,
        start_angle: if revolution.len() == 0 {
            0
        } else {
            revolution.first().angle
        },
        end_angle: if revolution.len() == 0 {
            0
        } else {
            revolution.last().angle
        },
        ranges: Seq::new(revolution.len(), |i: int| revolution[i].distance),
        intensities: Seq::new(revolution.len(), |i: int| revolution[i].quality),
    }
}

/// A frame has as many ranges as intensities, one of each per sample, and
/// the frame of an empty revolution has both angles zero.
pub proof fn lemma_scan_lengths(
    timestamp: Timestamp,
    frame_id: Seq<char>,
    pose: Pose,
    revolution: Seq<RawSample>,
)
    ensures
        laser_scan_of(timestamp, frame_id, pose, revolution).is_well_formed(),
        laser_scan_of(timestamp, frame_id, pose, revolution).ranges.len() == revolution.len(),
        laser_scan_of(timestamp, frame_id, pose, revolution).intensities.len()
            == revolution.len(),
        revolution.len() == 0 ==> laser_scan_of(timestamp, frame_id, pose, revolution).start_angle
            == 0 && laser_scan_of(timestamp, frame_id, pose, revolution).end_angle == 0,
{
}

/// The frame of a revolution in angle order spans it: no sample lies
/// before the start angle or after the end angle.
pub proof fn lemma_scan_spans_revolution(
    timestamp: Timestamp,
    frame_id: Seq<char>,
    pose: Pose,
    revolution: Seq<RawSample>,
    i: int,
)
    requires
        in_angle_order(revolution),
        0 <= i < revolution.len(),
    ensures
        angle_rank(laser_scan_of(timestamp, frame_id, pose, revolution).start_angle) <= angle_rank(
            revolution[i].angle,
        ),
        angle_rank(revolution[i].angle) <= angle_rank(
            laser_scan_of(timestamp, frame_id, pose, revolution).end_angle,
        ),
{
}

/// Builds the laser scan frame of one revolution.
pub fn laser_scan(
    revolution: &Vec<RawSample>,
    timestamp: &EpochTime,
    frame_id: &str,
    pose: &Pose,
) -> (scan: LaserScan)
    ensures
        scan@ == laser_scan_of(proto_time(*timestamp), frame_id@, *pose, revolution@),
        scan@.is_well_formed(),
        scan@.ranges.len() == revolution@.len(),
        scan@.intensities.len() == revolution@.len(),
{
    let count: usize = revolution.len();
    let start_angle: u32 = if count == 0 {
        0
    } else {
        revolution[0].angle
    };
    let end_angle: u32 = if count == 0 {
        0
    } else {
        revolution[count - 1].angle
    };
    let mut ranges: Vec<u32> = Vec::new();
    let mut intensities: Vec<u8> = Vec::new();
    let mut next: usize = 0;
    while next < count
        invariant
            next <= count,
            count == revolution@.len(),
            ranges@.len() == next,
            intensities@.len() == next,
            forall|i: int| 0 <= i < next ==> ranges@[i] == revolution@[i].distance,
            forall|i: int| 0 <= i < next ==> intensities@[i] == revolution@[i].quality,
        decreases count - next,
    {
        ranges.push(revolution[next].distance);
        intensities.push(revolution[next].quality);
        next = next + 1;
    }
    let scan = LaserScan {
        timestamp: system_time_to_proto_time(timestamp),
        frame_id: frame_id.to_owned(),
        pose: *pose,
        start_angle,
        end_angle,
        ranges,
        intensities,
    };
    proof {
        let expected = laser_scan_of(proto_time(*timestamp), frame_id@, *pose, revolution@);
        assert(scan@.ranges =~= expected.ranges);
        assert(scan@.intensities =~= expected.intensities);
    }
    scan
}

} // verus!
