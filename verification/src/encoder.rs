//! From one revolution to its two frames.

use vstd::prelude::*;
use crate::cloud::{
    lemma_packed_is_whole,
    lemma_packed_len,
    point_cloud_of,
    rp_lidar_projected_points_to_foxglove_point_cloud,
    PointCloud,
};
use crate::descriptor::POINT_STRIDE;
use crate::point::{project, projected, Cartesian, RpLidarProjectedPoint};
use crate::pose::Pose;
use crate::sample::RawSample;
use crate::scan::{laser_scan, laser_scan_of, LaserScan};
use crate::time::{proto_time, EpochTime, Timestamp};

verus! {

/// The number of samples in a revolution that the driver marked valid.
pub open spec fn valid_count(revolution: Seq<RawSample>) -> nat
    decreases revolution.len(),
{
    if revolution.len() == 0 {
        0
    } else if revolution.last().valid {
        valid_count(revolution.drop_last()) + 1
    } else {
        valid_count(revolution.drop_last())
    }
}

/// The points of a revolution: its valid samples in order, each at its own
/// place in the plane.
pub open spec fn projected_points(
    revolution: Seq<RawSample>,
    cartesian: Seq<Cartesian>,
) -> Seq<RpLidarProjectedPoint>
    decreases revolution.len(),
{
    if revolution.len() == 0 {
        Seq::empty()
    } else {
        let before = projected_points(revolution.drop_last(), cartesian.drop_last());
        match projected(revolution.last(), cartesian[revolution.len() - 1]) {
            Some(point) => before.push(point),
            None => before,
        }
    }
}

/// A revolution has one point for each valid sample.
pub proof fn lemma_one_point_per_valid_sample(
    revolution: Seq<RawSample>,
    cartesian: Seq<Cartesian>,
)
    ensures
        projected_points(revolution, cartesian).len() == valid_count(revolution),
    decreases revolution.len(),
{
    if revolution.len() > 0 {
        lemma_one_point_per_valid_sample(revolution.drop_last(), cartesian.drop_last());
    }
}

/// The buffer of a revolution's point cloud holds whole strides only, one
/// for each valid sample of the revolution.
pub proof fn lemma_cloud_holds_valid_samples(
    timestamp: Timestamp,
    frame_id: Seq<char>,
    pose: Pose,
    revolution: Seq<RawSample>,
    cartesian: Seq<Cartesian>,
)
    ensures
        ({
            let cloud = point_cloud_of(
                timestamp,
                frame_id,
                pose,
                projected_points(revolution, cartesian),
            );
            &&& cloud.is_well_formed()
            &&& cloud.data.len() % (cloud.point_stride as nat) == 0
            &&& cloud.data.len() / (cloud.point_stride as nat) == valid_count(revolution)
        }),
{
    lemma_one_point_per_valid_sample(revolution, cartesian);
    lemma_packed_is_whole(projected_points(revolution, cartesian));
}

/// Projects a revolution: every valid sample becomes a point at the place
/// that `cartesian` gives for it, and invalid samples are left out.
pub fn project_revolution(revolution: &Vec<RawSample>, cartesian: &Vec<Cartesian>) -> (points: Vec<
    RpLidarProjectedPoint,
>)
    requires
        cartesian@.len() == revolution@.len(),
    ensures
        points@ == projected_points(revolution@, cartesian@),
        points@.len() == valid_count(revolution@),
{
    let count: usize = revolution.len();
    let mut points: Vec<RpLidarProjectedPoint> = Vec::new();
    let mut next: usize = 0;
    while next < count
        invariant
            next <= count,
            count == revolution@.len(),
            count == cartesian@.len(),
            points@ == projected_points(
                revolution@.subrange(0, next as int),
                cartesian@.subrange(0, next as int),
            ),
        decreases count - next,
    {
        proof {
            let taken = revolution@.subrange(0, next + 1);
            let places = cartesian@.subrange(0, next + 1);
            assert(taken.drop_last() =~= revolution@.subrange(0, next as int));
            assert(places.drop_last() =~= cartesian@.subrange(0, next as int));
            assert(taken.last() == revolution@[next as int]);
            assert(places[taken.len() - 1] == cartesian@[next as int]);
        }
        match project(&revolution[next], &cartesian[next]) {
            Some(point) => {
                points.push(point);
            },
            None => {},
        }
        next = next + 1;
    }
    proof {
        assert(revolution@.subrange(0, next as int) =~= revolution@);
        assert(cartesian@.subrange(0, next as int) =~= cartesian@);
        lemma_one_point_per_valid_sample(revolution@, cartesian@);
    }
    points
}

/// Encodes one revolution into its laser scan frame and its point cloud
/// frame.
///
/// The laser scan keeps every sample; the point cloud keeps the valid ones,
/// packed without padding. `cartesian` gives the place in the plane of
/// each sample, valid or not, in the order of the revolution.
pub fn encode(
    revolution: &Vec<RawSample>,
    cartesian: &Vec<Cartesian>,
    capture_time: &EpochTime,
    frame_id: &str,
    pose: &Pose,
) -> (frames: (LaserScan, PointCloud))
    requires
        cartesian@.len() == revolution@.len(),
    ensures
        frames.0@ == laser_scan_of(proto_time(*capture_time), frame_id@, *pose, revolution@),
        frames.1@ == point_cloud_of(
            proto_time(*capture_time),
            frame_id@,
            *pose,
            projected_points(revolution@, cartesian@),
        ),
        frames.0@.is_well_formed(),
        frames.0@.ranges.len() == revolution@.len(),
        frames.0@.intensities.len() == revolution@.len(),
        frames.1@.is_well_formed(),
        frames.1@.data.len() == POINT_STRIDE * valid_count(revolution@),
{
    let scan = laser_scan(revolution, capture_time, frame_id, pose);
    let points = project_revolution(revolution, cartesian);
    let cloud = rp_lidar_projected_points_to_foxglove_point_cloud(
        capture_time,
        frame_id,
        pose,
        points.as_slice(),
    );
    proof {
        lemma_packed_len(points@);
    }
    (scan, cloud)
}

} // verus!
