use rplidar_zenoh_driver::sample::angle_key;
use rplidar_zenoh_driver::{sort_by_angle, RawSample};

fn sample(angle: f32, distance: f32, quality: u8, valid: bool) -> RawSample {
    RawSample { angle: angle.to_bits(), distance: distance.to_bits(), quality, valid }
}

fn angles(revolution: &[RawSample]) -> Vec<f32> {
    revolution.iter().map(|s| f32::from_bits(s.angle)).collect()
}

#[test]
fn sorts_by_ascending_angle() {
    let mut revolution = vec![
        sample(3.0, 1.0, 10, true),
        sample(0.5, 2.0, 11, true),
        sample(6.0, 3.0, 12, false),
        sample(1.5, 4.0, 13, true),
        sample(0.0, 5.0, 14, true),
    ];
    sort_by_angle(&mut revolution);
    assert_eq!(angles(&revolution), vec![0.0, 0.5, 1.5, 3.0, 6.0]);
    assert_eq!(
        revolution.iter().map(|s| s.quality).collect::<Vec<u8>>(),
        vec![14, 11, 13, 10, 12]
    );
}

#[test]
fn sorted_revolution_stays_as_it_is() {
    let sorted = vec![
        sample(0.1, 1.0, 1, true),
        sample(0.2, 2.0, 2, false),
        sample(0.2, 3.0, 3, true),
        sample(0.9, 4.0, 4, true),
    ];
    let mut revolution = sorted.clone();
    sort_by_angle(&mut revolution);
    assert_eq!(revolution, sorted);
}

#[test]
fn sorting_twice_is_sorting_once() {
    let mut once = vec![
        sample(2.0, 1.0, 1, true),
        sample(1.0, 2.0, 2, true),
        sample(2.0, 3.0, 3, false),
        sample(0.25, 4.0, 4, true),
        sample(1.0, 5.0, 5, true),
    ];
    sort_by_angle(&mut once);
    let mut twice = once.clone();
    sort_by_angle(&mut twice);
    assert_eq!(twice, once);
}

#[test]
fn samples_at_one_angle_keep_their_order() {
    let mut revolution = vec![
        sample(1.0, 10.0, 1, true),
        sample(0.5, 20.0, 2, true),
        sample(1.0, 30.0, 3, false),
        sample(0.5, 40.0, 4, true),
        sample(1.0, 50.0, 5, true),
    ];
    sort_by_angle(&mut revolution);
    assert_eq!(
        revolution.iter().map(|s| s.quality).collect::<Vec<u8>>(),
        vec![2, 4, 1, 3, 5]
    );
}

#[test]
fn sorts_empty_and_single_revolutions() {
    let mut empty: Vec<RawSample> = Vec::new();
    sort_by_angle(&mut empty);
    assert!(empty.is_empty());

    let mut single = vec![sample(1.25, 2.0, 7, true)];
    sort_by_angle(&mut single);
    assert_eq!(single, vec![sample(1.25, 2.0, 7, true)]);
}

#[test]
fn sorts_a_reversed_revolution() {
    let mut revolution: Vec<RawSample> =
        (0..200u32).rev().map(|i| sample(i as f32 * 0.03, 1.0, (i % 256) as u8, true)).collect();
    sort_by_angle(&mut revolution);
    for i in 0..200usize {
        assert_eq!(f32::from_bits(revolution[i].angle), i as f32 * 0.03);
        assert_eq!(revolution[i].quality, (i % 256) as u8);
    }
}

#[test]
fn negative_angles_come_before_positive_ones() {
    let mut revolution = vec![
        sample(0.5, 1.0, 1, true),
        sample(-0.5, 1.0, 2, true),
        sample(0.0, 1.0, 3, true),
        sample(-2.0, 1.0, 4, true),
        sample(-0.0, 1.0, 5, true),
    ];
    sort_by_angle(&mut revolution);
    assert_eq!(
        revolution.iter().map(|s| s.quality).collect::<Vec<u8>>(),
        vec![4, 2, 5, 3, 1]
    );
}

#[test]
fn angle_key_follows_the_total_order() {
    assert_eq!(angle_key(0.0f32.to_bits()), 0x8000_0000);
    assert_eq!(angle_key((-0.0f32).to_bits()), 0x7fff_ffff);
    assert_eq!(angle_key(1.0f32.to_bits()), 0x3f80_0000 + 0x8000_0000);
    assert_eq!(angle_key((-1.0f32).to_bits()), 0xffff_ffff - 0xbf80_0000);
    let values = [-3.5f32, -1.0, -0.0, 0.0, 0.05, 0.1, 0.2, 6.28];
    for pair in values.windows(2) {
        assert!(angle_key(pair[0].to_bits()) < angle_key(pair[1].to_bits()));
    }
}
