//! Projected points and their packed form.

use vstd::prelude::*;
use crate::descriptor::point_layout;
use crate::sample::RawSample;
use crate::wire::{
    le_bytes, le_word_at, lemma_le_bytes_of_word, lemma_le_word_of_bytes, word_from_le, word_to_le,
};

verus! {

/// Where a sample lies in the plane of the sensor, in metres; both
/// coordinates are binary32 bit patterns.
///
/// For a sample at `angle` and `distance` the coordinates are
/// `distance * cos(-angle)` and `distance * sin(-angle)`: the sensor counts
/// angles clockwise, the projected frame is right-handed.
#[derive(Clone, Copy, Debug, PartialEq, Eq, Structural)]
pub struct Cartesian {
    pub x: u32,
    pub y: u32,
}

/// A valid sample in the plane, with the reading it came from.
///
/// `x`, `y`, `distance` and `angle` are binary32 bit patterns.
#[derive(Clone, Copy, Debug, PartialEq, Eq, Structural)]
pub struct RpLidarProjectedPoint {
    pub x: u32,
    pub y: u32,
    pub distance: u32,
    pub angle: u32,
    pub quality: u8,
}

/// Bytes of one packed point.
pub const POINT_BYTES: usize = 17;

/// The point that a sample projects to, unless the driver marked the sample
/// invalid.
pub open spec fn projected(sample: RawSample, at: Cartesian) -> Option<RpLidarProjectedPoint> {
    if sample.valid {
        Some(
            RpLidarProjectedPoint {
                x: at.x,
                y: at.y,
                distance: sample.distance,
                angle: sample.angle,
                quality: sample.quality,
            },
        )
    } else {
        None
    }
}

/// The point stored in the 17 bytes of `data` that start at `at`.
pub open spec fn point_at(data: Seq<u8>, at: int) -> RpLidarProjectedPoint {
    RpLidarProjectedPoint {
        x: le_word_at(data, at),
        y: le_word_at(data, at + 4),
        distance: le_word_at(data, at + 8),
        angle: le_word_at(data, at + 12),
        quality: data[at + 16],
    }
}

impl RpLidarProjectedPoint {
    /// The packed form: the four words little-endian in declared order,
    /// then the quality byte, with nothing in between.
    pub open spec fn blob(self) -> Seq<u8> {
        le_bytes(self.x) + le_bytes(self.y) + le_bytes(self.distance) + le_bytes(self.angle)
            + seq![self.quality]
    }

    pub fn new(x: u32, y: u32, distance: u32, angle: u32, quality: u8) -> (point: Self)
        ensures
            point == (RpLidarProjectedPoint { x, y, distance, angle, quality }),
    {
        RpLidarProjectedPoint { x, y, distance, angle, quality }
    }

    /// Packs the point into its 17 bytes.
    pub fn to_foxglove_blob(&self) -> (bytes: [u8; 17])
        ensures
            bytes@ == self.blob(),
    {
        let x = word_to_le(self.x);
        let y = word_to_le(self.y);
        let d = word_to_le(self.distance);
        let a = word_to_le(self.angle);
        let bytes: [u8; 17] = [
            x[0],
            x[1],
            x[2],
            x[3],
            y[0],
            y[1],
            y[2],
            y[3],
            d[0],
            d[1],
            d[2],
            d[3],
            a[0],
            a[1],
            a[2],
            a[3],
            self.quality,
        ];
        assert(bytes@ =~= self.blob());
        bytes
    }

    /// Reads the point packed at `at` in `data`.
    pub(crate) fn read_at(data: &Vec<u8>, at: usize) -> (point: Self)
        requires
            at + POINT_BYTES <= data@.len(),
        ensures
            point == point_at(data@, at as int),
    {
        let len: usize = data.len();
        assert(at + POINT_BYTES <= len);
        RpLidarProjectedPoint {
            x: word_from_le(data[at], data[at + 1], data[at + 2], data[at + 3]),
            y: word_from_le(data[at + 4], data[at + 5], data[at + 6], data[at + 7]),
            distance: word_from_le(data[at + 8], data[at + 9], data[at + 10], data[at + 11]),
            angle: word_from_le(data[at + 12], data[at + 13], data[at + 14], data[at + 15]),
            quality: data[at + 16],
        }
    }
}

/// The bytes of the field of `point` that the layout lists at `index`.
pub open spec fn field_bytes(point: RpLidarProjectedPoint, index: int) -> Seq<u8> {
    if index == 0 {
        le_bytes(point.x)
    } else if index == 1 {
        le_bytes(point.y)
    } else if index == 2 {
        le_bytes(point.distance)
    } else if index == 3 {
        le_bytes(point.angle)
    } else {
        seq![point.quality]
    }
}

/// Every field of a packed point lies where the layout declares it, and
/// takes the bytes that its type is wide.
pub proof fn lemma_blob_follows_layout(point: RpLidarProjectedPoint, index: int)
    requires
        0 <= index < point_layout().len(),
    ensures
        point.blob().subrange(
            point_layout()[index].offset as int,
            point_layout()[index].offset + point_layout()[index].numeric_type.width(),
        ) == field_bytes(point, index),
{
    let field = point_layout()[index];
    assert(point.blob().subrange(
        field.offset as int,
        field.offset + field.numeric_type.width(),
    ) =~= field_bytes(point, index));
}

/// A packed point has exactly the bytes of one stride.
pub proof fn lemma_blob_len(point: RpLidarProjectedPoint)
    ensures
        point.blob().len() == POINT_BYTES,
{
}

/// Packing loses nothing: the point read from a blob is the point packed.
pub proof fn lemma_point_of_blob(point: RpLidarProjectedPoint)
    ensures
        point_at(point.blob(), 0) == point,
{
    let blob = point.blob();
    lemma_le_word_of_bytes(point.x);
    lemma_le_word_of_bytes(point.y);
    lemma_le_word_of_bytes(point.distance);
    lemma_le_word_of_bytes(point.angle);
    assert(blob.subrange(0, 4) =~= le_bytes(point.x));
    assert(blob.subrange(4, 8) =~= le_bytes(point.y));
    assert(blob.subrange(8, 12) =~= le_bytes(point.distance));
    assert(blob.subrange(12, 16) =~= le_bytes(point.angle));
    assert(le_word_at(blob, 0) == le_word_at(blob.subrange(0, 4), 0));
    assert(le_word_at(blob, 4) == le_word_at(blob.subrange(4, 8), 0));
    assert(le_word_at(blob, 8) == le_word_at(blob.subrange(8, 12), 0));
    assert(le_word_at(blob, 12) == le_word_at(blob.subrange(12, 16), 0));
}

/// Nothing is invented either: the blob of the point read from 17 bytes is
/// those bytes.
pub proof fn lemma_blob_of_point(data: Seq<u8>, at: int)
    requires
        0 <= at,
        at + POINT_BYTES <= data.len(),
    ensures
        point_at(data, at).blob() == data.subrange(at, at + POINT_BYTES),
{
    lemma_le_bytes_of_word(data[at], data[at + 1], data[at + 2], data[at + 3]);
    lemma_le_bytes_of_word(data[at + 4], data[at + 5], data[at + 6], data[at + 7]);
    lemma_le_bytes_of_word(data[at + 8], data[at + 9], data[at + 10], data[at + 11]);
    lemma_le_bytes_of_word(data[at + 12], data[at + 13], data[at + 14], data[at + 15]);
    assert(point_at(data, at).blob() =~= data.subrange(at, at + POINT_BYTES));
}

/// Projects one sample: a valid sample becomes a point at `at` that keeps
/// the sample's distance, angle and quality; an invalid one is excluded.
pub fn project(sample: &RawSample, at: &Cartesian) -> (point: Option<RpLidarProjectedPoint>)
    ensures
        point == projected(*sample, *at),
{
    if sample.valid {
        Some(RpLidarProjectedPoint::new(at.x, at.y, sample.distance, sample.angle, sample.quality))
    } else {
        None
    }
}

} // verus!
