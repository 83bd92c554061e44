use rewinder::capture::{save_monitor_screen, should_capture_on, RawFrame, TriggerEvent};
use rewinder::crypto::CryptoSlot;
use rewinder::keys::{toggle_encryption, VaultReading};
use rewinder::settings::{get_config_path, toggle_periodic_capture, FeatureFlags};
use rewinder::store::{init_sqlite, retrieve_image, retrieve_raw_row, RetrieveError};
use rusqlite::Connection;

fn empty_entry() -> VaultReading {
    VaultReading::Entry(String::new())
}

fn small_frame() -> RawFrame {
    let mut rgba = Vec::new();
    for i in 0..(6 * 5) {
        rgba.push((i * 7 % 256) as u8);
        rgba.push((i * 11 % 256) as u8);
        rgba.push((i * 13 % 256) as u8);
        rgba.push(255);
    }
    RawFrame { width: 6, height: 5, rgba }
}

#[test]
fn config_path_sits_under_the_data_directory() {
    assert_eq!(get_config_path("/data/dir"), "/data/dir/config.json");
}

/// Periodic capture over a simulated clock: ticks arrive once a second
/// while the flag is on, records accumulate with non-decreasing timestamps
/// at least one second apart, and none appear after the flag goes off.
#[test]
fn periodic_capture_scenario() {
    let mut conn = Connection::open_in_memory().unwrap();
    init_sqlite(&mut conn).unwrap();
    let mut flags = FeatureFlags::new();
    let mut slot = CryptoSlot::empty();
    let unreachable = VaultReading::Unreachable;

    toggle_periodic_capture(&mut flags, true).unwrap();
    let mut stored: Vec<u64> = Vec::new();
    for now in 1000u64..1003 {
        if should_capture_on(&flags, &TriggerEvent::PeriodicTick) {
            save_monitor_screen(
                &mut conn,
                &mut flags,
                &mut slot,
                &small_frame(),
                now,
                &unreachable,
                &unreachable,
            )
            .unwrap();
            stored.push(now);
        }
    }
    assert!(stored.len() >= 2);
    for pair in stored.windows(2) {
        assert!(pair[1] >= pair[0] + 1);
    }
    for ts in &stored {
        assert!(retrieve_image(&conn, &slot, *ts).is_ok());
    }

    toggle_periodic_capture(&mut flags, false).unwrap();
    for now in 1003u64..1005 {
        if should_capture_on(&flags, &TriggerEvent::PeriodicTick) {
            panic!("a tick fired after the flag was disabled");
        }
        let _ = now;
    }
    assert!(matches!(retrieve_image(&conn, &slot, 1003), Err(RetrieveError::NotFound)));
    assert!(matches!(retrieve_image(&conn, &slot, 1004), Err(RetrieveError::NotFound)));
}

/// Click-driven capture: a left press captures while the flag is on, any
/// other input never does.
#[test]
fn click_capture_scenario() {
    let mut conn = Connection::open_in_memory().unwrap();
    init_sqlite(&mut conn).unwrap();
    let mut flags = FeatureFlags::new();
    let mut slot = CryptoSlot::empty();
    rewinder::settings::toggle_click_event(&mut flags, true).unwrap();

    assert!(!should_capture_on(&flags, &TriggerEvent::OtherInput));
    assert!(should_capture_on(&flags, &TriggerEvent::LeftClick));
    save_monitor_screen(
        &mut conn,
        &mut flags,
        &mut slot,
        &small_frame(),
        2000,
        &VaultReading::Unreachable,
        &VaultReading::Unreachable,
    )
    .unwrap();
    assert!(retrieve_image(&conn, &slot, 2000).is_ok());
}

/// Encryption end to end: enabling with an empty vault generates one
/// key+nonce pair; a capture then lands encrypted — the stored bytes are
/// not a decodable image, the unsealed bytes are.
#[test]
fn encryption_end_to_end_scenario() {
    let mut conn = Connection::open_in_memory().unwrap();
    init_sqlite(&mut conn).unwrap();
    let mut flags = FeatureFlags::new();
    let mut slot = CryptoSlot::empty();

    let outcome =
        toggle_encryption(&mut flags, &mut slot, &empty_entry(), &empty_entry(), true).unwrap();
    let pair = outcome.persist.expect("exactly one generated pair to persist");
    assert_eq!(pair.key_text.chars().count(), 32);
    assert_eq!(pair.nonce_text.chars().count(), 24);

    let saved = save_monitor_screen(
        &mut conn,
        &mut flags,
        &mut slot,
        &small_frame(),
        42,
        &VaultReading::Unreachable,
        &VaultReading::Unreachable,
    )
    .unwrap();
    assert!(saved.stored_encrypted);

    let raw = retrieve_raw_row(&conn, 42).unwrap().unwrap();
    assert!(raw.3);
    assert!(image::load_from_memory(&raw.1).is_err());

    let got = retrieve_image(&conn, &slot, 42).unwrap();
    let decoded = image::load_from_memory(&got.image_bytes).unwrap();
    assert_eq!(decoded.width(), 6);
    assert_eq!(decoded.height(), 5);
}
