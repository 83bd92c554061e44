//! The persistent store: one row per capture (timestamp, encoded bytes,
//! thumbnail bytes, encryption flag) in an embedded relational `images`
//! table, with idempotent schema creation, append-only inserts, point
//! lookup by timestamp and whole-store reset.
//!
//! Retrieval policy for duplicate timestamps: the most recently inserted
//! row wins.
//!
//! The write path carries the graceful-degradation rule: a capture that
//! cannot be encrypted is stored unencrypted with the feature switched
//! off — never dropped, and never marked encrypted when it is not.

use vstd::prelude::*;
use base64::Engine;
use rusqlite::Connection;
use crate::crypto::{encrypt_text, open_of, seal_of, CryptoSlot, PT_LEN_MAX};
use crate::codec::widened_chars;
use crate::keys::{can_seal, try_encrypt_text, SecretPair, VaultReading};
use crate::settings::{is_encryption_enabled, FeatureFlags};

verus! {

#[verifier::external_type_specification]
#[verifier::external_body]
pub struct ExConnection(Connection);

/// The rows of the `images` table behind this connection, in insertion
/// order; empty while the table does not exist.  Each row is (timestamp,
/// image bytes, thumbnail bytes, encrypted flag).
pub uninterp spec fn db_rows(conn: Connection) -> Seq<(u64, Seq<u8>, Seq<u8>, bool)>;

/// Whether the `images` table exists behind this connection.
pub uninterp spec fn db_ready(conn: Connection) -> bool;

/// A store operation failed in the underlying database.
#[derive(Debug)]
pub enum StoreError {
    Init,
    Insert,
    Query,
    Reset,
}

/// The most recently inserted row carrying this timestamp, if any: the
/// store's retrieval policy.
pub open spec fn last_row_with(rows: Seq<(u64, Seq<u8>, Seq<u8>, bool)>, timestamp: u64) -> Option<
    (u64, Seq<u8>, Seq<u8>, bool),
>
    decreases rows.len(),
{
    if rows.len() == 0 {
        None
    } else if rows.last().0 == timestamp {
        Some(rows.last())
    } else {
        last_row_with(rows.drop_last(), timestamp)
    }
}

/// A lookup of the timestamp of the newest insert returns exactly the row
/// just written.
pub proof fn lemma_lookup_after_insert(
    rows: Seq<(u64, Seq<u8>, Seq<u8>, bool)>,
    row: (u64, Seq<u8>, Seq<u8>, bool),
)
    ensures
        last_row_with(rows.push(row), row.0) == Some(row),
{
    assert(rows.push(row).last() == row);
}

/// A lookup for any other timestamp is unaffected by an insert.
pub proof fn lemma_lookup_other_timestamp(
    rows: Seq<(u64, Seq<u8>, Seq<u8>, bool)>,
    row: (u64, Seq<u8>, Seq<u8>, bool),
    timestamp: u64,
)
    requires
        timestamp != row.0,
    ensures
        last_row_with(rows.push(row), timestamp) == last_row_with(rows, timestamp),
{
    assert(rows.push(row).last() == row);
    assert(rows.push(row).drop_last() =~= rows);
}

/// After a reset every lookup fails with "not found".
pub proof fn lemma_reset_finds_nothing(timestamp: u64)
    ensures
        last_row_with(Seq::empty(), timestamp) is None,
{
}

/// Write/read symmetry for an encrypted record: once a row sealed under
/// some key material is appended — and the seals open back to the
/// plaintexts, as the cipher guarantees of every seal it produces — a lookup
/// of its timestamp finds that row and unsealing it yields the original
/// blobs.
pub proof fn lemma_write_read_symmetry(
    rows: Seq<(u64, Seq<u8>, Seq<u8>, bool)>,
    timestamp: u64,
    key: Seq<u8>,
    nonce: Seq<u8>,
    image: Seq<u8>,
    thumbnail: Seq<u8>,
)
    requires
        open_of(key, nonce, seal_of(key, nonce, image)) == Some(image),
        open_of(key, nonce, seal_of(key, nonce, thumbnail)) == Some(thumbnail),
    ensures
        last_row_with(
            rows.push(
                (timestamp, seal_of(key, nonce, image), seal_of(key, nonce, thumbnail), true),
            ),
            timestamp,
        ) matches Some(row) && row.3 && open_of(key, nonce, row.1) == Some(image) && open_of(
            key,
            nonce,
            row.2,
        ) == Some(thumbnail),
{
    lemma_lookup_after_insert(
        rows,
        (timestamp, seal_of(key, nonce, image), seal_of(key, nonce, thumbnail), true),
    );
}

/// Relies on rusqlite's `Connection::execute` running `CREATE TABLE IF NOT
/// EXISTS`: creates the `images` table when it is absent and keeps every
/// existing row when it is not.
#[verifier::external_body]
fn raw_init(conn: &mut Connection) -> (r: Result<(), StoreError>)
    ensures
        db_rows(*final(conn)) == db_rows(*old(conn)),
        r is Ok ==> db_ready(*final(conn)),
        r is Err ==> db_ready(*final(conn)) == db_ready(*old(conn)),
{
    let sql = "CREATE TABLE IF NOT EXISTS images (
                  id INTEGER PRIMARY KEY,
                  timestamp INTEGER,
                  base64 BLOB,
                  thumbnail_base64 BLOB,
                  encrypted INTEGER
                  )";
    match conn.execute(sql, ()) {
        Ok(_) => Ok(()),
        Err(_) => Err(StoreError::Init),
    }
}

/// Relies on rusqlite's `Connection::execute` running `INSERT`: appends
/// one row to the `images` table; on failure the table is unchanged.
#[verifier::external_body]
fn raw_insert(
    conn: &mut Connection,
    timestamp: u64,
    image: &Vec<u8>,
    thumbnail: &Vec<u8>,
    encrypted: bool,
) -> (r: Result<(), StoreError>)
    ensures
        db_ready(*final(conn)) == db_ready(*old(conn)),
        r is Ok ==> db_rows(*final(conn)) == db_rows(*old(conn)).push(
            (timestamp, image@, thumbnail@, encrypted),
        ),
        r is Err ==> db_rows(*final(conn)) == db_rows(*old(conn)),
{
    let ts = match i64::try_from(timestamp) {
        Ok(t) => t,
        Err(_) => return Err(StoreError::Insert),
    };
    let res = conn.execute(
        "INSERT INTO images (timestamp, base64, thumbnail_base64, encrypted) VALUES (?1, ?2, ?3, ?4)",
        (ts, image.as_slice(), thumbnail.as_slice(), encrypted),
    );
    match res {
        Ok(_) => Ok(()),
        Err(_) => Err(StoreError::Insert),
    }
}

/// Relies on rusqlite's `Connection::query_row` running `SELECT ... WHERE
/// timestamp = ? ORDER BY id DESC LIMIT 1`: of the rows with this
/// timestamp it returns the one with the largest id, which is the most
/// recently inserted since rows are only ever appended; none means no row
/// matches.
#[verifier::external_body]
fn raw_query_last(conn: &Connection, timestamp: u64) -> (r: Result<
    Option<(u64, Vec<u8>, Vec<u8>, bool)>,
    StoreError,
>)
    ensures
        r matches Ok(found) ==> match last_row_with(db_rows(*conn), timestamp) {
            Option::None => found is None,
            Option::Some(row) => found matches Some(t) && t.0 == row.0 && t.1@ == row.1 && t.2@
                == row.2 && t.3 == row.3,
        },
{
    let ts = match i64::try_from(timestamp) {
        Ok(t) => t,
        Err(_) => return Err(StoreError::Query),
    };
    let res = conn.query_row(
        "SELECT timestamp, base64, thumbnail_base64, encrypted FROM images
         WHERE timestamp = ?1 ORDER BY id DESC LIMIT 1",
        (ts,),
        |row| Ok((row.get::<_, i64>(0)? as u64, row.get(1)?, row.get(2)?, row.get(3)?)),
    );
    match res {
        Ok(t) => Ok(Some(t)),
        Err(rusqlite::Error::QueryReturnedNoRows) => Ok(None),
        Err(_) => Err(StoreError::Query),
    }
}

/// Relies on rusqlite's `Connection::execute` running `DROP TABLE IF
/// EXISTS` and then `CREATE TABLE`: on success the `images` table exists
/// again and holds no rows.
#[verifier::external_body]
fn raw_reset(conn: &mut Connection) -> (r: Result<(), StoreError>)
    ensures
        r is Ok ==> db_rows(*final(conn)) == Seq::<(u64, Seq<u8>, Seq<u8>, bool)>::empty()
            && db_ready(*final(conn)),
{
    if conn.execute("DROP TABLE IF EXISTS images", ()).is_err() {
        return Err(StoreError::Reset);
    }
    let sql = "CREATE TABLE IF NOT EXISTS images (
                  id INTEGER PRIMARY KEY,
                  timestamp INTEGER,
                  base64 BLOB,
                  thumbnail_base64 BLOB,
                  encrypted INTEGER
                  )";
    match conn.execute(sql, ()) {
        Ok(_) => Ok(()),
        Err(_) => Err(StoreError::Reset),
    }
}

/// Idempotent schema creation, safe to run on every startup: existing rows
/// are kept whether or not the table already existed.
pub fn init_sqlite(conn: &mut Connection) -> (r: Result<(), StoreError>)
    ensures
        db_rows(*final(conn)) == db_rows(*old(conn)),
        r is Ok ==> db_ready(*final(conn)),
        r is Err ==> db_ready(*final(conn)) == db_ready(*old(conn)),
{
    raw_init(conn)
}

/// Clears the capture history: destroys and recreates the schema, leaving
/// the store as ready as a fresh [`init_sqlite`], with every lookup now
/// failing "not found".
pub fn delete_db(conn: &mut Connection) -> (r: Result<(), StoreError>)
    ensures
        r is Ok ==> {
            &&& db_rows(*final(conn)) == Seq::<(u64, Seq<u8>, Seq<u8>, bool)>::empty()
            &&& db_ready(*final(conn))
            &&& forall|ts: u64| last_row_with(db_rows(*final(conn)), ts) is None
        },
{
    raw_reset(conn)
}

/// One capture as handed to and from the store: the timestamp that
/// identifies it and the two encoded blobs.
pub struct ImageDTO {
    pub timestamp: u64,
    pub image_bytes: Vec<u8>,
    pub thumbnail_bytes: Vec<u8>,
}

impl ImageDTO {
    pub fn new(timestamp: u64, image_bytes: Vec<u8>, thumbnail_bytes: Vec<u8>) -> (r: ImageDTO)
        ensures
            r.timestamp == timestamp,
            r.image_bytes@ == image_bytes@,
            r.thumbnail_bytes@ == thumbnail_bytes@,
    {
        ImageDTO { timestamp, image_bytes, thumbnail_bytes }
    }
}

/// What a write left behind: whether the stored row is marked encrypted,
/// and any freshly generated key material the caller must persist.
pub struct InsertOutcome {
    pub stored_encrypted: bool,
    pub persist: Option<SecretPair>,
}

/// Appends one capture.  With encryption off the blobs go in as they are.
/// With encryption on, both blobs are sealed under the slot (reloading it
/// once from the vault readings if needed); if the cipher cannot come up,
/// the record is stored unencrypted and the encryption flag is switched
/// off — a capture is never dropped for an encryption failure, and a row
/// is never marked encrypted unless both blobs were sealed.
pub fn insert_image(
    conn: &mut Connection,
    flags: &mut FeatureFlags,
    slot: &mut CryptoSlot,
    img_dto: &ImageDTO,
    key_read: &VaultReading,
    nonce_read: &VaultReading,
) -> (r: Result<InsertOutcome, StoreError>)
    ensures
        final(flags).periodic_capture_enabled == old(flags).periodic_capture_enabled,
        final(flags).click_event_enabled == old(flags).click_event_enabled,
        db_ready(*final(conn)) == db_ready(*old(conn)),
        r is Err ==> db_rows(*final(conn)) == db_rows(*old(conn)),
        r matches Ok(o) ==> (o.persist matches Some(p) ==> p.key_text@ == widened_chars(
            final(slot).key@,
        ) && p.nonce_text@ == widened_chars(final(slot).nonce@)),
        !old(flags).encryption_enabled ==> {
            &&& *final(flags) == *old(flags)
            &&& *final(slot) == *old(slot)
            &&& (r matches Ok(o) ==> !o.stored_encrypted && o.persist is None && db_rows(
                *final(conn),
            ) == db_rows(*old(conn)).push(
                (img_dto.timestamp, img_dto.image_bytes@, img_dto.thumbnail_bytes@, false),
            ))
        },
        old(flags).encryption_enabled && can_seal(
            *old(slot),
            *key_read,
            *nonce_read,
            img_dto.image_bytes@.len(),
        ) && img_dto.thumbnail_bytes@.len() <= PT_LEN_MAX ==> {
            &&& final(flags).encryption_enabled
            &&& final(slot).loaded()
            &&& open_of(
                final(slot).key@,
                final(slot).nonce@,
                seal_of(final(slot).key@, final(slot).nonce@, img_dto.image_bytes@),
            ) == Some(img_dto.image_bytes@)
            &&& open_of(
                final(slot).key@,
                final(slot).nonce@,
                seal_of(final(slot).key@, final(slot).nonce@, img_dto.thumbnail_bytes@),
            ) == Some(img_dto.thumbnail_bytes@)
            &&& (r matches Ok(o) ==> o.stored_encrypted && db_rows(*final(conn)) == db_rows(
                *old(conn),
            ).push(
                (
                    img_dto.timestamp,
                    seal_of(final(slot).key@, final(slot).nonce@, img_dto.image_bytes@),
                    seal_of(final(slot).key@, final(slot).nonce@, img_dto.thumbnail_bytes@),
                    true,
                ),
            ))
        },
        old(flags).encryption_enabled && !(can_seal(
            *old(slot),
            *key_read,
            *nonce_read,
            img_dto.image_bytes@.len(),
        ) && img_dto.thumbnail_bytes@.len() <= PT_LEN_MAX) ==> {
            &&& !final(flags).encryption_enabled
            &&& (r matches Ok(o) ==> !o.stored_encrypted && db_rows(*final(conn)) == db_rows(
                *old(conn),
            ).push(
                (img_dto.timestamp, img_dto.image_bytes@, img_dto.thumbnail_bytes@, false),
            ))
        },
{
    let enc = is_encryption_enabled(flags);
    if enc {
        match try_encrypt_text(slot, &img_dto.image_bytes, key_read, nonce_read) {
            Ok(attempt) => {
                match encrypt_text(slot, &img_dto.thumbnail_bytes) {
                    Ok(sealed_thumbnail) => {
                        match raw_insert(
                            conn,
                            img_dto.timestamp,
                            &attempt.cipher_text,
                            &sealed_thumbnail,
                            true,
                        ) {
                            Ok(_) => Ok(
                                InsertOutcome {
                                    stored_encrypted: true,
                                    persist: attempt.persist,
                                },
                            ),
                            Err(e) => Err(e),
                        }
                    },
                    Err(_) => {
                        // The thumbnail alone was rejected (it exceeds the
                        // cipher's length bound): degrade rather than drop.
                        flags.encryption_enabled = false;
                        match raw_insert(
                            conn,
                            img_dto.timestamp,
                            &img_dto.image_bytes,
                            &img_dto.thumbnail_bytes,
                            false,
                        ) {
                            Ok(_) => Ok(
                                InsertOutcome {
                                    stored_encrypted: false,
                                    persist: attempt.persist,
                                },
                            ),
                            Err(e) => Err(e),
                        }
                    },
                }
            },
            Err(_) => {
                // No usable key material even after a reload: degrade.
                flags.encryption_enabled = false;
                match raw_insert(
                    conn,
                    img_dto.timestamp,
                    &img_dto.image_bytes,
                    &img_dto.thumbnail_bytes,
                    false,
                ) {
                    Ok(_) => Ok(InsertOutcome { stored_encrypted: false, persist: None }),
                    Err(e) => Err(e),
                }
            },
        }
    } else {
        match raw_insert(
            conn,
            img_dto.timestamp,
            &img_dto.image_bytes,
            &img_dto.thumbnail_bytes,
            false,
        ) {
            Ok(_) => Ok(InsertOutcome { stored_encrypted: false, persist: None }),
            Err(e) => Err(e),
        }
    }
}

/// Why a retrieval failed.
#[derive(Debug)]
pub enum RetrieveError {
    /// No row carries the requested timestamp.
    NotFound,
    /// The row is marked encrypted but no key material is loaded.
    NoKeyMaterial,
    /// The row is marked encrypted and did not decrypt; no partial or
    /// corrupted data is returned.
    DecryptFailed,
    /// The underlying database failed.
    Store,
    /// The decoded image is too large to re-encode for the caller.
    TooLarge,
}

/// Turns a stored row back into the capture it holds: an unencrypted row
/// is returned unchanged with the cipher never consulted; an encrypted row
/// is unsealed, and fails as a whole when either blob does not decrypt.
pub fn decode_retrieved_row(slot: &CryptoSlot, row: &(u64, Vec<u8>, Vec<u8>, bool)) -> (r: Result<
    ImageDTO,
    RetrieveError,
>)
    ensures
        !row.3 ==> (r matches Ok(dto) && dto.timestamp == row.0 && dto.image_bytes@ == row.1@
            && dto.thumbnail_bytes@ == row.2@),
        row.3 && !slot.loaded() ==> r == Err::<ImageDTO, RetrieveError>(
            RetrieveError::NoKeyMaterial,
        ),
        row.3 && slot.loaded() ==> match (
            open_of(slot.key@, slot.nonce@, row.1@),
            open_of(slot.key@, slot.nonce@, row.2@),
        ) {
            (Some(image), Some(thumbnail)) => r matches Ok(dto) && dto.timestamp == row.0
                && dto.image_bytes@ == image && dto.thumbnail_bytes@ == thumbnail,
            _ => r == Err::<ImageDTO, RetrieveError>(RetrieveError::DecryptFailed),
        },
{
    if !row.3 {
        return Ok(ImageDTO::new(row.0, clone_bytes(&row.1), clone_bytes(&row.2)));
    }
    if !slot.is_loaded() {
        return Err(RetrieveError::NoKeyMaterial);
    }
    let image = match crate::crypto::decrypt_text(slot, &row.1) {
        Ok(pt) => pt,
        Err(_) => {
            return Err(RetrieveError::DecryptFailed);
        },
    };
    let thumbnail = match crate::crypto::decrypt_text(slot, &row.2) {
        Ok(pt) => pt,
        Err(_) => {
            return Err(RetrieveError::DecryptFailed);
        },
    };
    Ok(ImageDTO::new(row.0, image, thumbnail))
}

fn clone_bytes(v: &Vec<u8>) -> (r: Vec<u8>)
    ensures
        r@ == v@,
{
    let mut out: Vec<u8> = Vec::new();
    let mut i: usize = 0;
    while i < v.len()
        invariant
            i <= v@.len(),
            out@ == v@.take(i as int),
        decreases v@.len() - i,
    {
        out.push(v[i]);
        i = i + 1;
        proof {
            assert(out@ =~= v@.take(i as int));
        }
    }
    proof {
        assert(out@ =~= v@);
    }
    out
}

/// Looks up the newest row with this timestamp and returns the capture it
/// holds, unsealing it when the row is marked encrypted.  Fails with
/// "not found" when no row matches; a decrypt failure fails the whole
/// read.
pub fn retrieve_image(conn: &Connection, slot: &CryptoSlot, timestamp: u64) -> (r: Result<
    ImageDTO,
    RetrieveError,
>)
    ensures
        r == Err::<ImageDTO, RetrieveError>(RetrieveError::NotFound) ==> last_row_with(
            db_rows(*conn),
            timestamp,
        ) is None,
        r matches Ok(dto) ==> (last_row_with(db_rows(*conn), timestamp) matches Some(row) && {
            &&& dto.timestamp == row.0
            &&& !row.3 ==> dto.image_bytes@ == row.1 && dto.thumbnail_bytes@ == row.2
            &&& row.3 ==> slot.loaded() && open_of(slot.key@, slot.nonce@, row.1) == Some(
                dto.image_bytes@,
            ) && open_of(slot.key@, slot.nonce@, row.2) == Some(dto.thumbnail_bytes@)
        }),
        r == Err::<ImageDTO, RetrieveError>(RetrieveError::NoKeyMaterial) ==> (last_row_with(
            db_rows(*conn),
            timestamp,
        ) matches Some(row) && row.3 && !slot.loaded()),
        r == Err::<ImageDTO, RetrieveError>(RetrieveError::DecryptFailed) ==> (last_row_with(
            db_rows(*conn),
            timestamp,
        ) matches Some(row) && row.3 && slot.loaded() && (open_of(slot.key@, slot.nonce@, row.1)
            is None || open_of(slot.key@, slot.nonce@, row.2) is None)),
        r != Err::<ImageDTO, RetrieveError>(RetrieveError::TooLarge),
{
    let found = match raw_query_last(conn, timestamp) {
        Ok(found) => found,
        Err(_) => {
            return Err(RetrieveError::Store);
        },
    };
    match found {
        None => Err(RetrieveError::NotFound),
        Some(row) => decode_retrieved_row(slot, &row),
    }
}

/// Looks up the newest row with this timestamp and returns it as stored,
/// without consulting the encryption cipher: the blobs come back exactly as
/// they sit in the table, with the row's encrypted flag.
pub fn retrieve_raw_row(conn: &Connection, timestamp: u64) -> (r: Result<
    Option<(u64, Vec<u8>, Vec<u8>, bool)>,
    StoreError,
>)
    ensures
        r matches Ok(found) ==> match last_row_with(db_rows(*conn), timestamp) {
            Option::None => found is None,
            Option::Some(row) => found matches Some(t) && t.0 == row.0 && t.1@ == row.1 && t.2@
                == row.2 && t.3 == row.3,
        },
{
    raw_query_last(conn, timestamp)
}

/// What base64's standard padded encoding returns for these bytes: a
/// function of the bytes alone.
pub uninterp spec fn b64_of(bytes: Seq<u8>) -> Seq<char>;

/// The encoder can size its output — four characters for every three
/// bytes, rounded up — without the computation leaving `usize`.
pub open spec fn base64_encodable(n: nat) -> bool {
    n / 3 < usize::MAX / 4
}

/// Relies on base64's `Engine::encode` with the standard alphabet and
/// padding: four output characters for every three input bytes (rounded
/// up), a function of the bytes alone.  The bound keeps the encoder's
/// output-size computation within `usize`, its only failure.
#[verifier::external_body]
fn base64_encode(bytes: &Vec<u8>) -> (r: String)
    requires
        base64_encodable(bytes@.len()),
    ensures
        r@ == b64_of(bytes@),
        r@.len() == 4 * ((bytes@.len() + 2) / 3),
{
    base64::engine::general_purpose::STANDARD.encode(bytes.as_slice())
}

/// Retrieves a capture as [`retrieve_image`] does and hands the image
/// bytes back in base64, the form the display layer asks for.  An image
/// too large for the encoder is reported rather than re-encoded; every
/// other failure is the retrieval's own, under its conditions.
pub fn get_image_base64_from_db(conn: &Connection, slot: &CryptoSlot, timestamp: u64) -> (r:
    Result<String, RetrieveError>)
    ensures
        r == Err::<String, RetrieveError>(RetrieveError::NotFound) ==> last_row_with(
            db_rows(*conn),
            timestamp,
        ) is None,
        r matches Ok(s) ==> (last_row_with(db_rows(*conn), timestamp) matches Some(row) && {
            &&& !row.3 ==> s@ == b64_of(row.1)
            &&& row.3 ==> slot.loaded() && (open_of(slot.key@, slot.nonce@, row.1) matches Some(
                image,
            ) && s@ == b64_of(image))
        }),
        r == Err::<String, RetrieveError>(RetrieveError::NoKeyMaterial) ==> (last_row_with(
            db_rows(*conn),
            timestamp,
        ) matches Some(row) && row.3 && !slot.loaded()),
        r == Err::<String, RetrieveError>(RetrieveError::DecryptFailed) ==> (last_row_with(
            db_rows(*conn),
            timestamp,
        ) matches Some(row) && row.3 && slot.loaded() && (open_of(slot.key@, slot.nonce@, row.1)
            is None || open_of(slot.key@, slot.nonce@, row.2) is None)),
        r == Err::<String, RetrieveError>(RetrieveError::TooLarge) ==> (last_row_with(
            db_rows(*conn),
            timestamp,
        ) matches Some(row) && {
            &&& !row.3 ==> !base64_encodable(row.1.len())
            &&& row.3 ==> (open_of(slot.key@, slot.nonce@, row.1) matches Some(image)
                && !base64_encodable(image.len()))
        }),
{
    let dto = match retrieve_image(conn, slot, timestamp) {
        Ok(dto) => dto,
        Err(e) => {
            return Err(e);
        },
    };
    if dto.image_bytes.len() / 3 >= usize::MAX / 4 {
        return Err(RetrieveError::TooLarge);
    }
    Ok(base64_encode(&dto.image_bytes))
}

} // verus!
