//! Covers the scan service-UUID filter without needing a real adapter: a scan re-checks each
//! discovered device's advertised services against the requested filter, since a radio may replay
//! devices that it has cached.

use thingblock_link::service::ble::transport::matches_services;
use uuid::Uuid;

const THINGBOT_SERVICE: u128 = Uuid::from_u128(0xaa700001_8f6a_4e2c_b369_4060e0bb33aa).as_u128();
const UNRELATED_SERVICE: u128 = Uuid::from_u128(0x0000_2a00_0000_1000_8000_0080_5f9b_34fb).as_u128();

#[test]
fn empty_filter_matches_any_device() {
    assert!(matches_services(&[], &[]));
    assert!(matches_services(&[THINGBOT_SERVICE], &[]));
}

#[test]
fn matching_service_passes_the_filter() {
    assert!(matches_services(
        &[UNRELATED_SERVICE, THINGBOT_SERVICE],
        &[THINGBOT_SERVICE]
    ));
}

/// A device that doesn't advertise the requested service must not pass a non-empty filter.
#[test]
fn device_without_matching_service_is_rejected() {
    assert!(!matches_services(&[UNRELATED_SERVICE], &[THINGBOT_SERVICE]));
}

#[test]
fn one_common_service_of_many_is_enough() {
    assert!(matches_services(&[7, 8], &[1, 2, 8]));
    assert!(!matches_services(&[], &[1, 2, 8]));
}
