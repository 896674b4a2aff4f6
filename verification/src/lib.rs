//! Acquisition-and-distribution core of a spinning-lidar bridge.
//!
//! The crate holds the decisions of the pipeline and none of its devices:
//! the controller that drives the sensor, the normalisation and encoding of
//! a revolution into a laser scan and a point cloud, the interpretation of
//! remote commands, and the fan-out of frames to sinks. Hardware, clock and
//! network stay with the caller, who hands in plain values.
//!
//! Floating-point quantities (angles, distances, coordinates) are carried as
//! their IEEE 754 bit patterns, so that every byte this crate packs or
//! unpacks is accounted for exactly.

pub mod bridge;
pub mod cloud;
pub mod command;
pub mod controller;
pub mod descriptor;
pub mod encoder;
pub mod fanout;
pub mod point;
pub mod pose;
pub mod registration;
pub mod sample;
pub mod scan;
pub mod time;
pub mod wire;

pub use cloud::{rp_lidar_projected_points_to_foxglove_point_cloud, PointCloud};
pub use descriptor::{
    has_point_layout, rp_lidar_projected_point_descriptor, NumericType, PackedElementField,
    POINT_STRIDE,
};
pub use encoder::{encode, project_revolution};
pub use point::{project, Cartesian, RpLidarProjectedPoint};
pub use pose::{Pose, Quaternion, Vector3};
pub use sample::{sort_by_angle, RawSample};
pub use scan::{laser_scan, LaserScan};
pub use time::{system_time_to_proto_time, EpochTime, Timestamp};
