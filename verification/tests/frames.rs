use rplidar_zenoh_driver::cloud::PointCloud;
use rplidar_zenoh_driver::descriptor::{has_point_layout, NumericType, PackedElementField};
use rplidar_zenoh_driver::time::{system_time_to_proto_time, EpochTime, Timestamp};
use rplidar_zenoh_driver::wire::{word_from_le, word_to_le};
use rplidar_zenoh_driver::{
    encode, laser_scan, project, project_revolution, rp_lidar_projected_point_descriptor,
    rp_lidar_projected_points_to_foxglove_point_cloud, Cartesian, Pose, Quaternion, RawSample,
    RpLidarProjectedPoint, Vector3,
};

fn sample(angle: f32, distance: f32, quality: u8, valid: bool) -> RawSample {
    RawSample { angle: angle.to_bits(), distance: distance.to_bits(), quality, valid }
}

fn place(sample: &RawSample) -> Cartesian {
    let angle = f32::from_bits(sample.angle);
    let distance = f32::from_bits(sample.distance);
    Cartesian {
        x: (distance * (-angle).cos()).to_bits(),
        y: (distance * (-angle).sin()).to_bits(),
    }
}

fn point(x: f32, y: f32, distance: f32, angle: f32, quality: u8) -> RpLidarProjectedPoint {
    RpLidarProjectedPoint::new(x.to_bits(), y.to_bits(), distance.to_bits(), angle.to_bits(), quality)
}

fn capture() -> EpochTime {
    EpochTime { secs: 1_700_000_000, subsec_nanos: 123_456_789 }
}

#[test]
fn descriptor_declares_five_packed_fields() {
    let (stride, fields) = rp_lidar_projected_point_descriptor();
    assert_eq!(stride, 17);
    let expected = vec![
        PackedElementField { name: "x".to_string(), offset: 0, numeric_type: NumericType::Float32 },
        PackedElementField { name: "y".to_string(), offset: 4, numeric_type: NumericType::Float32 },
        PackedElementField {
            name: "distance".to_string(),
            offset: 8,
            numeric_type: NumericType::Float32,
        },
        PackedElementField {
            name: "angle".to_string(),
            offset: 12,
            numeric_type: NumericType::Float32,
        },
        PackedElementField {
            name: "quality".to_string(),
            offset: 16,
            numeric_type: NumericType::Uint8,
        },
    ];
    assert_eq!(fields, expected);
}

#[test]
fn stride_is_the_sum_of_the_field_widths() {
    let (stride, fields) = rp_lidar_projected_point_descriptor();
    let mut offset = 0u32;
    for field in &fields {
        assert_eq!(field.offset, offset);
        offset += field.numeric_type.byte_width();
    }
    assert_eq!(stride, offset);
}

#[test]
fn numeric_types_have_their_wire_numbers_and_widths() {
    let all = [
        (NumericType::Unknown, 0, 0),
        (NumericType::Uint8, 1, 1),
        (NumericType::Int8, 2, 1),
        (NumericType::Uint16, 3, 2),
        (NumericType::Int16, 4, 2),
        (NumericType::Uint32, 5, 4),
        (NumericType::Int32, 6, 4),
        (NumericType::Float32, 7, 4),
        (NumericType::Float64, 8, 8),
    ];
    for (numeric_type, code, width) in all {
        assert_eq!(numeric_type.code(), code);
        assert_eq!(numeric_type.byte_width(), width);
    }
}

#[test]
fn layout_check_tells_the_point_layout_from_others() {
    let (_, fields) = rp_lidar_projected_point_descriptor();
    assert!(has_point_layout(&fields));

    let mut renamed = fields.clone();
    renamed[2].name = "range".to_string();
    assert!(!has_point_layout(&renamed));

    let mut moved = fields.clone();
    moved[4].offset = 20;
    assert!(!has_point_layout(&moved));

    let mut retyped = fields.clone();
    retyped[0].numeric_type = NumericType::Float64;
    assert!(!has_point_layout(&retyped));

    let mut shorter = fields.clone();
    shorter.pop();
    assert!(!has_point_layout(&shorter));
    assert!(!has_point_layout(&Vec::new()));
}

#[test]
fn words_are_little_endian() {
    assert_eq!(word_to_le(0x1234_5678), [0x78, 0x56, 0x34, 0x12]);
    assert_eq!(word_to_le(1.0f32.to_bits()), 1.0f32.to_le_bytes());
    assert_eq!(word_from_le(0x78, 0x56, 0x34, 0x12), 0x1234_5678);
    assert_eq!(word_from_le(0, 0, 0x80, 0x3f), 1.0f32.to_bits());
}

#[test]
fn blob_packs_fields_in_declared_order() {
    let p = point(1.0, -2.0, 2.5, 0.5, 200);
    let blob = p.to_foxglove_blob();
    assert_eq!(
        blob,
        [
            0x00, 0x00, 0x80, 0x3f, // x = 1.0
            0x00, 0x00, 0x00, 0xc0, // y = -2.0
            0x00, 0x00, 0x20, 0x40, // distance = 2.5
            0x00, 0x00, 0x00, 0x3f, // angle = 0.5
            200,
        ]
    );
    assert_eq!(&blob[0..4], &1.0f32.to_le_bytes());
    assert_eq!(&blob[4..8], &(-2.0f32).to_le_bytes());
    assert_eq!(&blob[8..12], &2.5f32.to_le_bytes());
    assert_eq!(&blob[12..16], &0.5f32.to_le_bytes());
}

#[test]
fn point_cloud_round_trip_is_exact() {
    let points = vec![
        point(1.0, 2.0, 3.0, 4.0, 5),
        point(-0.0, f32::MIN_POSITIVE, f32::MAX, f32::INFINITY, 0),
        point(f32::NAN, -f32::NAN, 1.0e-40, std::f32::consts::PI, 255),
        RpLidarProjectedPoint::new(0xdead_beef, 0x0102_0304, 0xffff_ffff, 0x7fc0_0001, 17),
    ];
    let cloud =
        rp_lidar_projected_points_to_foxglove_point_cloud(&capture(), "lidar", &Pose::origin(), &points);
    assert_eq!(cloud.data.len(), 4 * 17);
    let back = RpLidarProjectedPoint::from_foxglove_point_cloud(&cloud);
    assert_eq!(back, points);
}

#[test]
fn point_cloud_carries_stride_fields_and_metadata() {
    let pose = Pose {
        position: Vector3 { x: 1.0f64.to_bits(), y: 2.0f64.to_bits(), z: 3.0f64.to_bits() },
        orientation: Quaternion { x: 0, y: 0, z: 0, w: 1.0f64.to_bits() },
    };
    let points = vec![point(1.0, 0.0, 1.0, 0.0, 47)];
    let cloud = rp_lidar_projected_points_to_foxglove_point_cloud(&capture(), "base", &pose, &points);
    let (stride, fields) = rp_lidar_projected_point_descriptor();
    assert_eq!(cloud.point_stride, stride);
    assert_eq!(cloud.fields, fields);
    assert_eq!(cloud.frame_id, "base");
    assert_eq!(cloud.pose, pose);
    assert_eq!(cloud.timestamp, Timestamp { seconds: 1_700_000_000, nanos: 123_456_789 });
    assert_eq!(cloud.data, points[0].to_foxglove_blob().to_vec());
}

#[test]
fn empty_point_cloud_has_an_empty_buffer() {
    let cloud =
        rp_lidar_projected_points_to_foxglove_point_cloud(&capture(), "lidar", &Pose::origin(), &[]);
    assert!(cloud.data.is_empty());
    assert_eq!(cloud.point_stride, 17);
    assert!(RpLidarProjectedPoint::from_foxglove_point_cloud(&cloud).is_empty());
}

#[test]
fn unpacking_reads_whole_strides_only() {
    let points = vec![point(1.0, 2.0, 3.0, 4.0, 5), point(6.0, 7.0, 8.0, 9.0, 10)];
    let mut cloud: PointCloud =
        rp_lidar_projected_points_to_foxglove_point_cloud(&capture(), "lidar", &Pose::origin(), &points);
    cloud.data.extend_from_slice(&[1, 2, 3]);
    assert_eq!(RpLidarProjectedPoint::from_foxglove_point_cloud(&cloud), points);
    cloud.data.truncate(16);
    assert!(RpLidarProjectedPoint::from_foxglove_point_cloud(&cloud).is_empty());
}

#[test]
fn project_keeps_valid_samples_and_drops_invalid_ones() {
    let valid = sample(0.5, 2.0, 9, true);
    let at = place(&valid);
    assert_eq!(
        project(&valid, &at),
        Some(RpLidarProjectedPoint {
            x: at.x,
            y: at.y,
            distance: 2.0f32.to_bits(),
            angle: 0.5f32.to_bits(),
            quality: 9,
        })
    );
    let invalid = sample(0.5, 2.0, 9, false);
    assert_eq!(project(&invalid, &at), None);
}

#[test]
fn projection_of_a_revolution_skips_invalid_samples() {
    let revolution = vec![
        sample(0.0, 1.0, 1, false),
        sample(0.1, 2.0, 2, true),
        sample(0.2, 3.0, 3, false),
        sample(0.3, 4.0, 4, true),
        sample(0.4, 5.0, 5, true),
    ];
    let cartesian: Vec<Cartesian> = revolution.iter().map(place).collect();
    let points = project_revolution(&revolution, &cartesian);
    assert_eq!(points.iter().map(|p| p.quality).collect::<Vec<u8>>(), vec![2, 4, 5]);
    assert_eq!(points[1].x, cartesian[3].x);
    assert_eq!(points[1].y, cartesian[3].y);
    assert_eq!(points[1].distance, 4.0f32.to_bits());
    assert_eq!(points[1].angle, 0.3f32.to_bits());
}

#[test]
fn laser_scan_has_one_range_and_intensity_per_sample() {
    let revolution = vec![
        sample(0.1, 1.5, 10, true),
        sample(0.2, 0.0, 0, false),
        sample(0.3, 2.5, 30, true),
        sample(0.4, 3.5, 40, false),
    ];
    let scan = laser_scan(&revolution, &capture(), "lidar", &Pose::origin());
    assert_eq!(scan.ranges.len(), 4);
    assert_eq!(scan.intensities.len(), 4);
    assert_eq!(
        scan.ranges,
        vec![1.5f32.to_bits(), 0.0f32.to_bits(), 2.5f32.to_bits(), 3.5f32.to_bits()]
    );
    assert_eq!(scan.intensities, vec![10, 0, 30, 40]);
    assert_eq!(f32::from_bits(scan.start_angle), 0.1);
    assert_eq!(f32::from_bits(scan.end_angle), 0.4);
    assert_eq!(scan.frame_id, "lidar");
    assert_eq!(scan.pose, Pose::origin());
    assert_eq!(scan.timestamp, Timestamp { seconds: 1_700_000_000, nanos: 123_456_789 });
}

#[test]
fn empty_revolution_gives_empty_frames_with_zero_angles() {
    let revolution: Vec<RawSample> = Vec::new();
    let cartesian: Vec<Cartesian> = Vec::new();
    let (scan, cloud) = encode(&revolution, &cartesian, &capture(), "lidar", &Pose::origin());
    assert_eq!(scan.ranges.len(), 0);
    assert_eq!(scan.intensities.len(), 0);
    assert_eq!(f32::from_bits(scan.start_angle), 0.0);
    assert_eq!(f32::from_bits(scan.end_angle), 0.0);
    assert_eq!(cloud.data.len(), 0);
}

#[test]
fn cloud_buffer_is_one_stride_per_valid_sample() {
    for valid_every in 1..6usize {
        let revolution: Vec<RawSample> = (0..50usize)
            .map(|i| sample(i as f32 * 0.1, 1.0 + i as f32, i as u8, i % valid_every == 0))
            .collect();
        let cartesian: Vec<Cartesian> = revolution.iter().map(place).collect();
        let (scan, cloud) = encode(&revolution, &cartesian, &capture(), "lidar", &Pose::origin());
        let valid = revolution.iter().filter(|s| s.valid).count();
        assert_eq!(cloud.data.len() % cloud.point_stride as usize, 0);
        assert_eq!(cloud.data.len() / cloud.point_stride as usize, valid);
        assert_eq!(scan.ranges.len(), scan.intensities.len());
        assert_eq!(scan.ranges.len(), 50);
    }
}

#[test]
fn proto_time_keeps_seconds_and_nanoseconds() {
    let stamp = system_time_to_proto_time(&EpochTime { secs: 12, subsec_nanos: 345 });
    assert_eq!(stamp, Timestamp { seconds: 12, nanos: 345 });
    let epoch = system_time_to_proto_time(&EpochTime { secs: 0, subsec_nanos: 0 });
    assert_eq!(epoch, Timestamp { seconds: 0, nanos: 0 });
    let late = system_time_to_proto_time(&EpochTime { secs: i64::MAX as u64, subsec_nanos: 999_999_999 });
    assert_eq!(late, Timestamp { seconds: i64::MAX, nanos: 999_999_999 });
}

#[test]
fn proto_time_wraps_like_a_cast() {
    for secs in [1u64 << 63, (1u64 << 63) + 5, u64::MAX] {
        for nanos in [1u32 << 31, u32::MAX, 7] {
            let stamp = system_time_to_proto_time(&EpochTime { secs, subsec_nanos: nanos });
            assert_eq!(stamp.seconds, secs as i64);
            assert_eq!(stamp.nanos, nanos as i32);
        }
    }
}

#[test]
fn epoch_nanos_are_exact_or_absent() {
    assert_eq!(EpochTime { secs: 0, subsec_nanos: 0 }.nanos(), Some(0));
    assert_eq!(
        EpochTime { secs: 1_700_000_000, subsec_nanos: 123_456_789 }.nanos(),
        Some(1_700_000_000_123_456_789)
    );
    assert_eq!(
        EpochTime { secs: 18_446_744_073, subsec_nanos: 709_551_615 }.nanos(),
        Some(u64::MAX)
    );
    assert_eq!(EpochTime { secs: 18_446_744_073, subsec_nanos: 709_551_616 }.nanos(), None);
    assert_eq!(EpochTime { secs: u64::MAX, subsec_nanos: u32::MAX }.nanos(), None);
}
