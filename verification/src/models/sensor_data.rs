//! Time-series telemetry captured during a run.

use vstd::prelude::*;

verus! {

/// One stored sample, tied to the score during which it was taken.
#[derive(Clone, Copy, Debug, PartialEq, Eq)]
pub struct SensorData {
    pub id: i32,
    pub score_id: i32,
    pub timestamp_offset_ms: i32,
    pub accel_x: Option<i64>,
    pub accel_y: Option<i64>,
    pub accel_z: Option<i64>,
    pub gyro_x: Option<i64>,
    pub gyro_y: Option<i64>,
    pub gyro_z: Option<i64>,
    pub orientation_azimuth: Option<i64>,
    pub orientation_pitch: Option<i64>,
    pub orientation_roll: Option<i64>,
    pub speed_kmh: Option<i64>,
    pub g_force: Option<i64>,
    pub inclination_degrees: Option<i64>,
    pub sound_db: Option<i64>,
    pub nearby_devices: Option<i32>,
    pub latitude: Option<i64>,
    pub longitude: Option<i64>,
    pub altitude: Option<i64>,
}

/// One sample as uploaded.
#[derive(Clone, Copy, Debug, PartialEq, Eq)]
pub struct CreateSensorData {
    pub timestamp_offset_ms: i32,
    pub accel_x: Option<i64>,
    pub accel_y: Option<i64>,
    pub accel_z: Option<i64>,
    pub gyro_x: Option<i64>,
    pub gyro_y: Option<i64>,
    pub gyro_z: Option<i64>,
    pub orientation_azimuth: Option<i64>,
    pub orientation_pitch: Option<i64>,
    pub orientation_roll: Option<i64>,
    pub speed_kmh: Option<i64>,
    pub g_force: Option<i64>,
    pub inclination_degrees: Option<i64>,
    pub sound_db: Option<i64>,
    pub nearby_devices: Option<i32>,
    pub latitude: Option<i64>,
    pub longitude: Option<i64>,
    pub altitude: Option<i64>,
}

/// A batch of samples for one score, stored together or not at all.
#[derive(Debug, PartialEq, Eq)]
pub struct BulkSensorData {
    pub score_id: i32,
    pub data: Vec<CreateSensorData>,
}

} // verus!
