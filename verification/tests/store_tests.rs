use rewinder::crypto::CryptoSlot;
use rewinder::keys::{fetch_or_generate_key_and_nonce, VaultReading};
use rewinder::settings::FeatureFlags;
use rewinder::store::{
    delete_db, get_image_base64_from_db, init_sqlite, insert_image, retrieve_image,
    retrieve_raw_row, ImageDTO, RetrieveError,
};
use rusqlite::Connection;

fn empty_entry() -> VaultReading {
    VaultReading::Entry(String::new())
}

fn loaded_slot() -> CryptoSlot {
    let mut slot = CryptoSlot::empty();
    fetch_or_generate_key_and_nonce(&mut slot, &empty_entry(), &empty_entry()).unwrap();
    slot
}

fn fresh_store() -> Connection {
    let mut conn = Connection::open_in_memory().unwrap();
    init_sqlite(&mut conn).unwrap();
    conn
}

fn dto(ts: u64, image: &[u8], thumb: &[u8]) -> ImageDTO {
    ImageDTO::new(ts, image.to_vec(), thumb.to_vec())
}

#[test]
fn init_is_idempotent_and_keeps_rows() {
    let mut conn = Connection::open_in_memory().unwrap();
    init_sqlite(&mut conn).unwrap();
    init_sqlite(&mut conn).unwrap();
    let mut flags = FeatureFlags::new();
    let mut slot = CryptoSlot::empty();
    insert_image(&mut conn, &mut flags, &mut slot, &dto(7, b"img", b"th"), &empty_entry(), &empty_entry())
        .unwrap();
    init_sqlite(&mut conn).unwrap();
    let got = retrieve_image(&conn, &slot, 7).unwrap();
    assert_eq!(got.image_bytes, b"img");
}

#[test]
fn insert_without_schema_fails_and_loses_nothing() {
    let mut conn = Connection::open_in_memory().unwrap();
    let mut flags = FeatureFlags::new();
    let mut slot = CryptoSlot::empty();
    let r = insert_image(&mut conn, &mut flags, &mut slot, &dto(1, b"a", b"b"), &empty_entry(), &empty_entry());
    assert!(r.is_err());
}

#[test]
fn reset_makes_every_lookup_fail_not_found() {
    let mut conn = fresh_store();
    let mut flags = FeatureFlags::new();
    let mut slot = CryptoSlot::empty();
    insert_image(&mut conn, &mut flags, &mut slot, &dto(11, b"x", b"y"), &empty_entry(), &empty_entry())
        .unwrap();
    delete_db(&mut conn).unwrap();
    assert!(matches!(retrieve_image(&conn, &slot, 11), Err(RetrieveError::NotFound)));
    assert!(matches!(retrieve_image(&conn, &slot, 999), Err(RetrieveError::NotFound)));
    // The store is as ready as after a fresh init.
    insert_image(&mut conn, &mut flags, &mut slot, &dto(12, b"z", b"w"), &empty_entry(), &empty_entry())
        .unwrap();
    assert_eq!(retrieve_image(&conn, &slot, 12).unwrap().image_bytes, b"z");
}

#[test]
fn encrypted_write_reads_back_original_bytes() {
    let mut conn = fresh_store();
    let mut flags = FeatureFlags::new();
    flags.encryption_enabled = true;
    let mut slot = loaded_slot();
    let image = b"full frame bytes".to_vec();
    let thumb = b"thumbnail bytes".to_vec();
    let outcome = insert_image(
        &mut conn,
        &mut flags,
        &mut slot,
        &dto(100, &image, &thumb),
        &empty_entry(),
        &empty_entry(),
    )
    .unwrap();
    assert!(outcome.stored_encrypted);
    assert!(flags.encryption_enabled);
    let raw = retrieve_raw_row(&conn, 100).unwrap().unwrap();
    assert!(raw.3);
    assert_ne!(raw.1, image);
    assert_ne!(raw.2, thumb);
    let got = retrieve_image(&conn, &slot, 100).unwrap();
    assert_eq!(got.timestamp, 100);
    assert_eq!(got.image_bytes, image);
    assert_eq!(got.thumbnail_bytes, thumb);
}

#[test]
fn plain_write_reads_back_unchanged_without_the_cipher() {
    let mut conn = fresh_store();
    let mut flags = FeatureFlags::new();
    let mut slot = CryptoSlot::empty();
    let image = b"plain image".to_vec();
    let outcome = insert_image(
        &mut conn,
        &mut flags,
        &mut slot,
        &dto(5, &image, b"plain thumb"),
        &VaultReading::Unreachable,
        &VaultReading::Unreachable,
    )
    .unwrap();
    assert!(!outcome.stored_encrypted);
    let raw = retrieve_raw_row(&conn, 5).unwrap().unwrap();
    assert!(!raw.3);
    assert_eq!(raw.1, image);
    // Retrieval succeeds with no key material loaded: the cipher is never
    // consulted for an unencrypted row.
    let got = retrieve_image(&conn, &CryptoSlot::empty(), 5).unwrap();
    assert_eq!(got.image_bytes, image);
    assert_eq!(got.thumbnail_bytes, b"plain thumb");
}

#[test]
fn duplicate_timestamps_return_most_recent_insert() {
    let mut conn = fresh_store();
    let mut flags = FeatureFlags::new();
    let mut slot = CryptoSlot::empty();
    insert_image(&mut conn, &mut flags, &mut slot, &dto(50, b"first", b"t1"), &empty_entry(), &empty_entry())
        .unwrap();
    insert_image(&mut conn, &mut flags, &mut slot, &dto(50, b"second", b"t2"), &empty_entry(), &empty_entry())
        .unwrap();
    let got = retrieve_image(&conn, &slot, 50).unwrap();
    assert_eq!(got.image_bytes, b"second");
}

#[test]
fn write_degrades_to_plaintext_when_no_key_can_be_had() {
    let mut conn = fresh_store();
    let mut flags = FeatureFlags::new();
    flags.encryption_enabled = true;
    let mut slot = CryptoSlot::empty();
    let image = b"must not be lost".to_vec();
    let outcome = insert_image(
        &mut conn,
        &mut flags,
        &mut slot,
        &dto(77, &image, b"thumb"),
        &VaultReading::Unreachable,
        &VaultReading::Unreachable,
    )
    .unwrap();
    assert!(!outcome.stored_encrypted);
    assert!(!flags.encryption_enabled);
    let raw = retrieve_raw_row(&conn, 77).unwrap().unwrap();
    assert!(!raw.3);
    assert_eq!(raw.1, image);
    let got = retrieve_image(&conn, &CryptoSlot::empty(), 77).unwrap();
    assert_eq!(got.image_bytes, image);
}

#[test]
fn write_recovers_by_reloading_the_vault() {
    let mut conn = fresh_store();
    let mut flags = FeatureFlags::new();
    flags.encryption_enabled = true;
    let mut slot = CryptoSlot::empty();
    let outcome = insert_image(
        &mut conn,
        &mut flags,
        &mut slot,
        &dto(78, b"image", b"thumb"),
        &empty_entry(),
        &empty_entry(),
    )
    .unwrap();
    assert!(outcome.stored_encrypted);
    assert!(outcome.persist.is_some());
    assert!(flags.encryption_enabled);
    let got = retrieve_image(&conn, &slot, 78).unwrap();
    assert_eq!(got.image_bytes, b"image");
}

#[test]
fn encrypted_row_without_key_material_fails_to_read() {
    let mut conn = fresh_store();
    let mut flags = FeatureFlags::new();
    flags.encryption_enabled = true;
    let mut slot = loaded_slot();
    insert_image(&mut conn, &mut flags, &mut slot, &dto(9, b"secret", b"s"), &empty_entry(), &empty_entry())
        .unwrap();
    let r = retrieve_image(&conn, &CryptoSlot::empty(), 9);
    assert!(matches!(r, Err(RetrieveError::NoKeyMaterial)));
}

#[test]
fn corrupted_encrypted_row_fails_whole_read() {
    let mut conn = fresh_store();
    let mut flags = FeatureFlags::new();
    flags.encryption_enabled = true;
    let mut slot = loaded_slot();
    insert_image(&mut conn, &mut flags, &mut slot, &dto(10, b"secret", b"s"), &empty_entry(), &empty_entry())
        .unwrap();
    conn.execute("UPDATE images SET base64 = x'00112233' WHERE timestamp = 10", ())
        .unwrap();
    let r = retrieve_image(&conn, &slot, 10);
    assert!(matches!(r, Err(RetrieveError::DecryptFailed)));
}

#[test]
fn query_on_missing_schema_reports_store_failure() {
    let conn = Connection::open_in_memory().unwrap();
    let r = retrieve_image(&conn, &CryptoSlot::empty(), 1);
    assert!(matches!(r, Err(RetrieveError::Store)));
}

#[test]
fn base64_retrieval_encodes_the_image_bytes() {
    let mut conn = fresh_store();
    let mut flags = FeatureFlags::new();
    let mut slot = CryptoSlot::empty();
    insert_image(&mut conn, &mut flags, &mut slot, &dto(3, &[1u8, 2, 3], b"t"), &empty_entry(), &empty_entry())
        .unwrap();
    assert_eq!(get_image_base64_from_db(&conn, &slot, 3).unwrap(), "AQID");
    let r = get_image_base64_from_db(&conn, &slot, 4);
    assert!(matches!(r, Err(RetrieveError::NotFound)));
}
