//! The capture pipeline: a raw RGBA frame of the monitor under the pointer
//! is converted to RGB (captures are opaque, alpha is discarded), encoded
//! as JPEG at fixed quality together with an aspect-preserving thumbnail,
//! and appended to the store through the write path's encryption policy.
//!
//! Frame acquisition itself is the surrounding application's job; it hands
//! a [`RawFrame`] and the capture's timestamp in.  Both trigger sources —
//! the fixed-interval timer and the input listener — dispatch through
//! [`should_capture_on`], which re-checks the flags per event.

use vstd::prelude::*;
use rusqlite::Connection;
use crate::crypto::CryptoSlot;
use crate::keys::VaultReading;
use crate::settings::{is_click_event_enabled, is_periodic_capture_enabled, FeatureFlags};
use crate::store::{insert_image, ImageDTO, InsertOutcome, StoreError};

verus! {

/// JPEG quality used for the full frame and the thumbnail alike.
pub const JPEG_QUALITY: u8 = 95;

/// The thumbnail fits within this many pixels on each side.
pub const THUMBNAIL_BOUND: u32 = 200;

/// Gatekeeper consulted by both trigger sources before a capture is taken.
pub fn should_capture_screen() -> (r: bool)
    ensures
        r,
{
    true
}

/// A "capture now" event from one of the trigger sources.
pub enum TriggerEvent {
    /// The fixed-interval timer fired.
    PeriodicTick,
    /// The system-wide input listener saw a left mouse button press.
    LeftClick,
    /// Any other input event; never captures.
    OtherInput,
}

/// Whether an event fires a capture: each trigger source is controlled by its
/// own flag, re-checked on every event, behind the global gatekeeper.
pub fn should_capture_on(flags: &FeatureFlags, event: &TriggerEvent) -> (r: bool)
    ensures
        r == match *event {
            TriggerEvent::PeriodicTick => flags.periodic_capture_enabled,
            TriggerEvent::LeftClick => flags.click_event_enabled,
            TriggerEvent::OtherInput => false,
        },
{
    if !should_capture_screen() {
        return false;
    }
    match event {
        TriggerEvent::PeriodicTick => is_periodic_capture_enabled(flags),
        TriggerEvent::LeftClick => is_click_event_enabled(flags),
        TriggerEvent::OtherInput => false,
    }
}

/// One raster frame as acquired from a monitor: tightly packed 8-bit RGBA
/// rows, top to bottom.
pub struct RawFrame {
    pub width: u32,
    pub height: u32,
    pub rgba: Vec<u8>,
}

impl RawFrame {
    /// A usable frame: both dimensions at least one pixel and exactly four
    /// bytes per pixel.
    pub open spec fn wf(self) -> bool {
        &&& self.width >= 1
        &&& self.height >= 1
        &&& self.rgba@.len() == 4 * self.width * self.height
    }

    /// Runtime view of [`RawFrame::wf`].
    pub fn is_wf(&self) -> (r: bool)
        ensures
            r == self.wf(),
    {
        let w = self.width as u128;
        let h = self.height as u128;
        proof {
            assert(4 * w * h <= 0x4_0000_0000_0000_0000u128) by (nonlinear_arith)
                requires
                    w < 0x1_0000_0000,
                    h < 0x1_0000_0000,
            ;
        }
        self.width >= 1 && self.height >= 1 && (self.rgba.len() as u128) == 4 * w * h
    }
}

/// The encoded outputs of one capture.
pub struct EncodedFrame {
    pub image_bytes: Vec<u8>,
    pub thumbnail_bytes: Vec<u8>,
}

/// The capture failed; the caller logs and skips it, the scheduler goes on.
#[derive(Debug)]
pub enum CaptureError {
    /// The frame is not a tightly packed RGBA raster.
    BadFrame,
    /// The encoder rejected the frame (for JPEG: a side over 65535 pixels).
    Encode,
}

/// The RGB bytes left after dropping every fourth (alpha) byte.
pub open spec fn rgb_of(rgba: Seq<u8>) -> Seq<u8> {
    Seq::new((rgba.len() / 4) * 3, |i: int| rgba[(i / 3) * 4 + (i % 3)])
}

/// Drops the alpha channel: captures are opaque.
pub fn rgba_to_rgb(rgba: &Vec<u8>) -> (r: Vec<u8>)
    ensures
        r@ == rgb_of(rgba@),
{
    let pixels = rgba.len() / 4;
    let mut out: Vec<u8> = Vec::new();
    let mut p: usize = 0;
    while p < pixels
        invariant
            rgba@.len() <= usize::MAX,
            pixels == rgba@.len() / 4,
            p <= pixels,
            out@.len() == 3 * p,
            forall|i: int| 0 <= i < out@.len() ==> out@[i] == rgba@[(i / 3) * 4 + (i % 3)],
        decreases pixels - p,
    {
        proof {
            assert(4 * (rgba@.len() / 4) <= rgba@.len());
            assert(4 * p + 3 <= rgba@.len());
        }
        out.push(rgba[4 * p]);
        out.push(rgba[4 * p + 1]);
        out.push(rgba[4 * p + 2]);
        p = p + 1;
        proof {
            assert forall|i: int| 0 <= i < out@.len() implies out@[i] == rgba@[
                (i / 3) * 4 + (i % 3)
            ] by {
                if i >= 3 * (p - 1) {
                    assert(i / 3 == p - 1) by (nonlinear_arith)
                        requires
                            3 * (p - 1) <= i < 3 * p,
                    ;
                }
            }
        }
    }
    proof {
        assert(out@ =~= rgb_of(rgba@));
    }
    out
}

/// What the JPEG encoder produces for these pixels at this quality: a
/// function of its arguments alone.
pub uninterp spec fn jpeg_of(rgb: Seq<u8>, width: u32, height: u32, quality: u8) -> Seq<u8>;

/// What the aspect-preserving thumbnail resampler produces for these
/// pixels within the given bound: the thumbnail's width, height and RGB
/// bytes, a function of its arguments alone.
pub uninterp spec fn thumb_of(rgb: Seq<u8>, width: u32, height: u32, bound: u32) -> (
    u32,
    u32,
    Seq<u8>,
);

/// Relies on image's `JpegEncoder::new_with_quality` and
/// `ImageBuffer::write_with_encoder`: the JPEG stream for these RGB
/// pixels at this quality, a function of its arguments alone.  Given the
/// exactly sized buffer the `requires` fixes, the encoder's only failure
/// is a side outside 1..=65535; it writes to an in-memory cursor, which
/// cannot fail.
#[verifier::external_body]
fn raw_jpeg_encode(rgb: &Vec<u8>, width: u32, height: u32, quality: u8) -> (r: Result<
    Vec<u8>,
    CaptureError,
>)
    requires
        rgb@.len() == 3 * width * height,
        width >= 1,
        height >= 1,
        1 <= quality <= 100,
    ensures
        r is Ok == (width <= 65535 && height <= 65535),
        r matches Err(e) ==> e is Encode,
        r matches Ok(bytes) ==> bytes@ == jpeg_of(rgb@, width, height, quality),
{
    let buf: image::RgbImage = match image::RgbImage::from_raw(width, height, rgb.clone()) {
        Some(b) => b,
        None => return Err(CaptureError::BadFrame),
    };
    let mut cursor = std::io::Cursor::new(Vec::new());
    let encoder = image::codecs::jpeg::JpegEncoder::new_with_quality(&mut cursor, quality);
    match buf.write_with_encoder(encoder) {
        Ok(()) => Ok(cursor.into_inner()),
        Err(_) => Err(CaptureError::Encode),
    }
}

/// Relies on image's `DynamicImage::thumbnail`: an aspect-preserving
/// resize to the largest size that fits within the bound on each side, at
/// least one pixel each way, a function of its arguments alone.  It always
/// succeeds: under the `requires` the exactly sized buffer makes the
/// builder's size check pass, and the resample itself has no failure path.
#[verifier::external_body]
fn raw_thumbnail(rgb: &Vec<u8>, width: u32, height: u32, bound: u32) -> (r: Result<
    (u32, u32, Vec<u8>),
    CaptureError,
>)
    requires
        rgb@.len() == 3 * width * height,
        width >= 1,
        height >= 1,
        bound >= 1,
    ensures
        r is Ok,
        r matches Ok(t) ==> {
            &&& (t.0, t.1, t.2@) == thumb_of(rgb@, width, height, bound)
            &&& 1 <= t.0 <= bound
            &&& 1 <= t.1 <= bound
            &&& t.2@.len() == 3 * t.0 * t.1
        },
{
    let buf: image::RgbImage = match image::RgbImage::from_raw(width, height, rgb.clone()) {
        Some(b) => b,
        None => return Err(CaptureError::BadFrame),
    };
    let out = image::DynamicImage::ImageRgb8(buf).thumbnail(bound, bound).into_rgb8();
    let (tw, th) = out.dimensions();
    Ok((tw, th, out.into_raw()))
}

/// The full frame's JPEG bytes.
pub open spec fn encoded_image(frame: RawFrame) -> Seq<u8> {
    jpeg_of(rgb_of(frame.rgba@), frame.width, frame.height, JPEG_QUALITY)
}

/// The thumbnail's JPEG bytes.
pub open spec fn encoded_thumbnail(frame: RawFrame) -> Seq<u8> {
    jpeg_of(
        thumb_of(rgb_of(frame.rgba@), frame.width, frame.height, THUMBNAIL_BOUND).2,
        thumb_of(rgb_of(frame.rgba@), frame.width, frame.height, THUMBNAIL_BOUND).0,
        thumb_of(rgb_of(frame.rgba@), frame.width, frame.height, THUMBNAIL_BOUND).1,
        JPEG_QUALITY,
    )
}

/// Encodes a frame: full-size JPEG plus aspect-preserving thumbnail, both
/// at [`JPEG_QUALITY`].  A malformed frame or an encoder failure is a
/// single "capture failed" condition.
pub fn encode_frame(frame: &RawFrame) -> (r: Result<EncodedFrame, CaptureError>)
    ensures
        !frame.wf() ==> r == Err::<EncodedFrame, CaptureError>(CaptureError::BadFrame),
        frame.wf() && frame.width <= 65535 && frame.height <= 65535 ==> r is Ok,
        frame.wf() && (frame.width > 65535 || frame.height > 65535) ==> r == Err::<
            EncodedFrame,
            CaptureError,
        >(CaptureError::Encode),
        r matches Ok(f) ==> {
            &&& frame.wf()
            &&& f.image_bytes@ == encoded_image(*frame)
            &&& f.thumbnail_bytes@ == encoded_thumbnail(*frame)
        },
{
    if !frame.is_wf() {
        return Err(CaptureError::BadFrame);
    }
    let rgb = rgba_to_rgb(&frame.rgba);
    proof {
        assert(rgb@.len() == 3 * frame.width * frame.height) by (nonlinear_arith)
            requires
                rgb@.len() == (frame.rgba@.len() / 4) * 3,
                frame.rgba@.len() == 4 * frame.width * frame.height,
        ;
    }
    let image_bytes = match raw_jpeg_encode(&rgb, frame.width, frame.height, JPEG_QUALITY) {
        Ok(bytes) => bytes,
        Err(e) => {
            return Err(e);
        },
    };
    let (tw, th, tpix) = match raw_thumbnail(&rgb, frame.width, frame.height, THUMBNAIL_BOUND) {
        Ok(t) => t,
        Err(e) => {
            return Err(e);
        },
    };
    let thumbnail_bytes = match raw_jpeg_encode(&tpix, tw, th, JPEG_QUALITY) {
        Ok(bytes) => bytes,
        Err(e) => {
            return Err(e);
        },
    };
    Ok(EncodedFrame { image_bytes, thumbnail_bytes })
}

/// A capture could not be taken or could not be stored.
#[derive(Debug)]
pub enum SaveError {
    Capture(CaptureError),
    Store(StoreError),
}

/// Encodes a frame and appends it to the store under the write path's
/// encryption policy: the row is sealed exactly when the outcome says so,
/// a degraded write switches the encryption flag off and stores the
/// encodes unchanged, and a capture is never dropped for an encryption
/// failure.
pub fn save_monitor_screen(
    conn: &mut Connection,
    flags: &mut FeatureFlags,
    slot: &mut CryptoSlot,
    frame: &RawFrame,
    timestamp: u64,
    key_read: &VaultReading,
    nonce_read: &VaultReading,
) -> (r: Result<InsertOutcome, SaveError>)
    ensures
        final(flags).periodic_capture_enabled == old(flags).periodic_capture_enabled,
        final(flags).click_event_enabled == old(flags).click_event_enabled,
        !frame.wf() ==> r == Err::<InsertOutcome, SaveError>(
            SaveError::Capture(CaptureError::BadFrame),
        ) && *final(conn) == *old(conn) && *final(flags) == *old(flags) && *final(slot) == *old(slot),
        frame.wf() && frame.width <= 65535 && frame.height <= 65535 ==> !(r matches Err(
            SaveError::Capture(_),
        )),
        frame.wf() && (frame.width > 65535 || frame.height > 65535) ==> r == Err::<
            InsertOutcome,
            SaveError,
        >(SaveError::Capture(CaptureError::Encode)),
        r is Err ==> crate::store::db_rows(*final(conn)) == crate::store::db_rows(*old(conn)),
        r matches Ok(o) ==> {
            &&& frame.wf()
            &&& o.stored_encrypted ==> final(slot).loaded() && final(flags).encryption_enabled
                && crate::store::db_rows(*final(conn)) == crate::store::db_rows(*old(conn)).push(
                (
                    timestamp,
                    crate::crypto::seal_of(
                        final(slot).key@,
                        final(slot).nonce@,
                        encoded_image(*frame),
                    ),
                    crate::crypto::seal_of(
                        final(slot).key@,
                        final(slot).nonce@,
                        encoded_thumbnail(*frame),
                    ),
                    true,
                ),
            ) && crate::crypto::open_of(
                final(slot).key@,
                final(slot).nonce@,
                crate::crypto::seal_of(final(slot).key@, final(slot).nonce@, encoded_image(*frame)),
            ) == Some(encoded_image(*frame)) && crate::crypto::open_of(
                final(slot).key@,
                final(slot).nonce@,
                crate::crypto::seal_of(
                    final(slot).key@,
                    final(slot).nonce@,
                    encoded_thumbnail(*frame),
                ),
            ) == Some(encoded_thumbnail(*frame))
            &&& !o.stored_encrypted ==> crate::store::db_rows(*final(conn))
                == crate::store::db_rows(*old(conn)).push(
                (timestamp, encoded_image(*frame), encoded_thumbnail(*frame), false),
            )
            &&& !old(flags).encryption_enabled ==> !o.stored_encrypted && *final(flags) == *old(flags)
            &&& old(flags).encryption_enabled ==> o.stored_encrypted == final(flags).encryption_enabled
            &&& (o.persist matches Some(p) ==> p.key_text@ == crate::codec::widened_chars(
                final(slot).key@,
            ) && p.nonce_text@ == crate::codec::widened_chars(final(slot).nonce@))
        },
{
    let encoded = match encode_frame(frame) {
        Ok(f) => f,
        Err(e) => {
            return Err(SaveError::Capture(e));
        },
    };
    let dto = ImageDTO::new(timestamp, encoded.image_bytes, encoded.thumbnail_bytes);
    match insert_image(conn, flags, slot, &dto, key_read, nonce_read) {
        Ok(outcome) => Ok(outcome),
        Err(e) => Err(SaveError::Store(e)),
    }
}

} // verus!
