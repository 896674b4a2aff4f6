//! The Cartesian telemetry record: packed points behind a fixed layout.

use vstd::prelude::*;
use crate::descriptor::{
    layout_of,
    point_layout,
    rp_lidar_projected_point_descriptor,
    FieldLayout,
    PackedElementField,
    POINT_STRIDE,
};
use crate::point::{
    lemma_blob_len,
    lemma_blob_of_point,
    lemma_point_of_blob,
    point_at,
    RpLidarProjectedPoint,
    POINT_BYTES,
};
use crate::pose::Pose;
use crate::time::{proto_time, system_time_to_proto_time, EpochTime, Timestamp};

verus! {

/// A point cloud frame: the valid samples of one revolution in the plane.
#[derive(Clone, Debug, PartialEq, Eq)]
pub struct PointCloud {
    pub timestamp: Timestamp,
    pub frame_id: String,
    pub pose: Pose,
    pub point_stride: u32,
    pub fields: Vec<PackedElementField>,
    pub data: Vec<u8>,
}

/// What a point cloud frame holds.
pub struct PointCloudView {
    pub timestamp: Timestamp,
    pub frame_id: Seq<char>,
    pub pose: Pose,
    pub point_stride: u32,
    pub fields: Seq<FieldLayout>,
    pub data: Seq<u8>,
}

impl View for PointCloud {
    type V = PointCloudView;

    open spec fn view(&self) -> PointCloudView {
        PointCloudView {
            timestamp: self.timestamp,
            frame_id: self.frame_id@,
            pose: self.pose,
            point_stride: self.point_stride,
            fields: layout_of(self.fields@),
            data: self.data@,
        }
    }
}

impl PointCloudView {
    /// The frame declares the layout of a projected point, and its buffer
    /// holds whole points only.
    pub open spec fn is_well_formed(self) -> bool {
        &&& self.point_stride == POINT_STRIDE
        &&& self.fields == point_layout()
        &&& self.data.len() % (POINT_STRIDE as nat) == 0
    }

    /// The number of points in the buffer.
    pub open spec fn point_count(self) -> nat {
        self.data.len() / (POINT_STRIDE as nat)
    }
}

/// The buffer of a point cloud: the packed points one after another.
pub open spec fn packed(points: Seq<RpLidarProjectedPoint>) -> Seq<u8>
    decreases points.len(),
{
    if points.len() == 0 {
        Seq::empty()
    } else {
        packed(points.drop_last()) + points.last().blob()
    }
}

/// The points that a buffer holds: one for every whole stride.
pub open spec fn unpacked(data: Seq<u8>) -> Seq<RpLidarProjectedPoint> {
    Seq::new(data.len() / (POINT_BYTES as nat), |i: int| point_at(data, POINT_BYTES * i))
}

/// The frame that carries `points`.
pub open spec fn point_cloud_of(
    timestamp: Timestamp,
    frame_id: Seq<char>,
    pose: Pose,
    points: Seq<RpLidarProjectedPoint>,
) -> PointCloudView {
    PointCloudView {
        timestamp,
        frame_id,
        pose,
        point_stride: POINT_STRIDE,
        fields: point_layout(),
        data: packed(points),
    }
}

/// A buffer is as long as its points are many, times the stride.
pub proof fn lemma_packed_len(points: Seq<RpLidarProjectedPoint>)
    ensures
        packed(points).len() == POINT_BYTES * points.len(),
    decreases points.len(),
{
    if points.len() > 0 {
        lemma_packed_len(points.drop_last());
        lemma_blob_len(points.last());
    }
}

/// The buffer of a frame is a whole number of strides, one for each point.
pub proof fn lemma_packed_is_whole(points: Seq<RpLidarProjectedPoint>)
    ensures
        packed(points).len() % (POINT_STRIDE as nat) == 0,
        packed(points).len() / (POINT_STRIDE as nat) == points.len(),
{
    lemma_packed_len(points);
    let n = points.len();
    assert((17 * n) % 17 == 0 && (17 * n) / 17 == n) by (nonlinear_arith);
}

/// Round trip: unpacking the buffer that points were packed into gives the
/// same points, bit for bit.
pub proof fn lemma_unpack_inverts_pack(points: Seq<RpLidarProjectedPoint>)
    ensures
        unpacked(packed(points)) == points,
    decreases points.len(),
{
    lemma_packed_len(points);
    lemma_packed_is_whole(points);
    if points.len() > 0 {
        let shorter = points.drop_last();
        let last = points.last();
        let data = packed(points);
        lemma_unpack_inverts_pack(shorter);
        lemma_packed_len(shorter);
        lemma_packed_is_whole(shorter);
        lemma_blob_len(last);
        lemma_point_of_blob(last);
        assert forall|i: int| 0 <= i < points.len() implies unpacked(data)[i] == points[i] by {
            if i < shorter.len() {
                assert(unpacked(packed(shorter))[i] == shorter[i]);
                assert(point_at(data, POINT_BYTES * i) == point_at(
                    packed(shorter),
                    POINT_BYTES * i,
                ));
            } else {
                assert(point_at(data, POINT_BYTES * i) == point_at(last.blob(), 0));
            }
        }
        assert(unpacked(data) =~= points);
    } else {
        assert(unpacked(packed(points)) =~= points);
    }
}

/// And back: packing the points of a buffer of whole strides gives the
/// buffer, byte for byte.
pub proof fn lemma_pack_inverts_unpack(data: Seq<u8>)
    requires
        data.len() % (POINT_BYTES as nat) == 0,
    ensures
        packed(unpacked(data)) == data,
    decreases data.len(),
{
    let points = unpacked(data);
    if data.len() == 0 {
        assert(packed(points) =~= data);
    } else {
        let count = data.len() / (POINT_BYTES as nat);
        assert(count >= 1 && POINT_BYTES * count == data.len()) by (nonlinear_arith)
            requires
                data.len() % 17 == 0,
                data.len() > 0,
                count == data.len() / 17,
                POINT_BYTES == 17,
        ;
        let shorter = data.subrange(0, data.len() - POINT_BYTES);
        assert(shorter.len() % (POINT_BYTES as nat) == 0 && shorter.len() / (POINT_BYTES as nat)
            == count - 1) by (nonlinear_arith)
            requires
                shorter.len() == data.len() - 17,
                17 * count == data.len(),
                count >= 1,
                POINT_BYTES == 17,
        ;
        lemma_pack_inverts_unpack(shorter);
        assert(points.drop_last() =~= unpacked(shorter));
        assert(points.last() == point_at(data, data.len() - POINT_BYTES)) by {
            assert(POINT_BYTES * (count - 1) == data.len() - POINT_BYTES) by (nonlinear_arith)
                requires
                    17 * count == data.len(),
                    POINT_BYTES == 17,
            ;
        }
        lemma_blob_of_point(data, data.len() - POINT_BYTES);
        assert(packed(points) =~= data);
    }
}

/// Builds the point cloud frame of one revolution from its projected
/// points: the fixed stride and layout, and the points packed in order.
pub fn rp_lidar_projected_points_to_foxglove_point_cloud(
    timestamp: &EpochTime,
    frame_id: &str,
    pose: &Pose,
    points: &[RpLidarProjectedPoint],
) -> (cloud: PointCloud)
    ensures
        cloud@ == point_cloud_of(proto_time(*timestamp), frame_id@, *pose, points@),
        cloud@.is_well_formed(),
        cloud@.point_count() == points@.len(),
{
    let (point_stride, fields) = rp_lidar_projected_point_descriptor();
    let mut data: Vec<u8> = Vec::new();
    let mut next: usize = 0;
    while next < points.len()
        invariant
            next <= points@.len(),
            data@ == packed(points@.subrange(0, next as int)),
        decreases points@.len() - next,
    {
        let blob = points[next].to_foxglove_blob();
        let ghost before = data@;
        let mut byte: usize = 0;
        while byte < POINT_BYTES
            invariant
                byte <= POINT_BYTES,
                blob@.len() == POINT_BYTES,
                data@ == before + blob@.subrange(0, byte as int),
            decreases POINT_BYTES - byte,
        {
            data.push(blob[byte]);
            assert(data@ =~= before + blob@.subrange(0, byte + 1));
            byte = byte + 1;
        }
        proof {
            let taken = points@.subrange(0, next + 1);
            assert(taken.drop_last() =~= points@.subrange(0, next as int));
            assert(taken.last() == points@[next as int]);
            assert(blob@.subrange(0, POINT_BYTES as int) =~= blob@);
        }
        next = next + 1;
    }
    proof {
        assert(points@.subrange(0, next as int) =~= points@);
        lemma_packed_is_whole(points@);
    }
    PointCloud {
        timestamp: system_time_to_proto_time(timestamp),
        frame_id: frame_id.to_owned(),
        pose: *pose,
        point_stride,
        fields,
        data,
    }
}

impl RpLidarProjectedPoint {
    /// Reads back the points of a point cloud frame: one for every whole
    /// stride of its buffer, in order. Bytes after the last whole stride
    /// are not read.
    ///
    /// The frame must declare the layout of a projected point.
    pub fn from_foxglove_point_cloud(point_cloud: &PointCloud) -> (points: Vec<Self>)
        requires
            point_cloud@.fields == point_layout(),
        ensures
            points@ == unpacked(point_cloud@.data),
    {
        let data = &point_cloud.data;
        let len: usize = data.len();
        let mut points: Vec<Self> = Vec::new();
        let mut at: usize = 0;
        while len - at >= POINT_BYTES
            invariant
                len == data@.len(),
                at <= len,
                at == POINT_BYTES * points@.len(),
                forall|i: int|
                    0 <= i < points@.len() ==> points@[i] == point_at(data@, POINT_BYTES * i),
            decreases len - at,
        {
            let point = RpLidarProjectedPoint::read_at(data, at);
            points.push(point);
            at = at + POINT_BYTES;
        }
        assert(points@.len() == data@.len() / (POINT_BYTES as nat)) by (nonlinear_arith)
            requires
                at == 17 * points@.len(),
                at <= data@.len(),
                data@.len() - at < 17,
                POINT_BYTES == 17,
        ;
        assert(points@ =~= unpacked(data@));
        points
    }
}

} // verus!
