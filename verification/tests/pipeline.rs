use rplidar_zenoh_driver::{
    encode, sort_by_angle, Cartesian, Pose, RawSample, RpLidarProjectedPoint,
};
use rplidar_zenoh_driver::time::EpochTime;

fn sample(angle: f32, distance: f32, valid: bool) -> RawSample {
    RawSample { angle: angle.to_bits(), distance: distance.to_bits(), quality: 47, valid }
}

fn place(sample: &RawSample) -> Cartesian {
    let angle = f32::from_bits(sample.angle);
    let distance = f32::from_bits(sample.distance);
    Cartesian {
        x: (distance * (-angle).cos()).to_bits(),
        y: (distance * (-angle).sin()).to_bits(),
    }
}

#[test]
fn three_sample_revolution_end_to_end() {
    let mut revolution =
        vec![sample(0.1, 1.0, true), sample(0.05, 2.0, false), sample(0.2, 0.5, true)];
    sort_by_angle(&mut revolution);
    let angles: Vec<f32> = revolution.iter().map(|s| f32::from_bits(s.angle)).collect();
    assert_eq!(angles, vec![0.05, 0.1, 0.2]);

    let cartesian: Vec<Cartesian> = revolution.iter().map(place).collect();
    let time = EpochTime { secs: 1_700_000_000, subsec_nanos: 0 };
    let (scan, cloud) = encode(&revolution, &cartesian, &time, "lidar", &Pose::origin());

    assert_eq!(f32::from_bits(scan.start_angle), 0.05);
    assert_eq!(f32::from_bits(scan.end_angle), 0.2);
    let ranges: Vec<f32> = scan.ranges.iter().map(|r| f32::from_bits(*r)).collect();
    assert_eq!(ranges, vec![2.0, 1.0, 0.5]);
    assert_eq!(scan.intensities, vec![47, 47, 47]);

    assert_eq!(cloud.point_stride, 17);
    assert_eq!(cloud.data.len(), 2 * 17);
    let points = RpLidarProjectedPoint::from_foxglove_point_cloud(&cloud);
    assert_eq!(points.len(), 2);
    assert_eq!(f32::from_bits(points[0].angle), 0.1);
    assert_eq!(f32::from_bits(points[0].distance), 1.0);
    assert_eq!(f32::from_bits(points[0].x), 1.0 * (-0.1f32).cos());
    assert_eq!(f32::from_bits(points[0].y), 1.0 * (-0.1f32).sin());
    assert_eq!(f32::from_bits(points[1].angle), 0.2);
    assert_eq!(f32::from_bits(points[1].distance), 0.5);
    assert_eq!(f32::from_bits(points[1].x), 0.5 * (-0.2f32).cos());
    assert_eq!(f32::from_bits(points[1].y), 0.5 * (-0.2f32).sin());
}
