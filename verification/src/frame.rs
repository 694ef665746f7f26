use vstd::prelude::*;

use crate::config::VideoMeta;
use crate::error::Error;

verus! {

/// Size in bytes of one element of the depth encoded in the low three bits
/// of a type code (the usual imaging convention: 8-bit, 16-bit, 32-bit and
/// 64-bit depths).
pub open spec fn spec_depth_size(typ: u32) -> nat {
    let depth = typ % 8;
    if depth <= 1 {
        1
    } else if depth == 2 || depth == 3 || depth == 7 {
        2
    } else if depth == 4 || depth == 5 {
        4
    } else {
        8
    }
}

/// Channel count encoded in the high bits of a type code.
pub open spec fn spec_channels(typ: u32) -> nat {
    (typ / 8 + 1) as nat
}

/// Size in bytes of one pixel: element size times channel count.
pub open spec fn spec_elem_size(typ: u32) -> nat {
    spec_depth_size(typ) * spec_channels(typ)
}

/// Executable twin of [`spec_depth_size`].
pub fn depth_size(typ: u32) -> (n: u32)
    ensures
        n == spec_depth_size(typ),
{
    let depth = typ % 8;
    if depth <= 1 {
        1
    } else if depth == 2 || depth == 3 || depth == 7 {
        2
    } else if depth == 4 || depth == 5 {
        4
    } else {
        8
    }
}

/// Executable twin of [`spec_channels`].
pub fn channels(typ: u32) -> (n: u32)
    ensures
        n == spec_channels(typ),
{
    typ / 8 + 1
}

/// Executable twin of [`spec_elem_size`]. The result fits in a `u64`
/// because the depth size is at most 8 and the channel count below 2^30.
pub fn elem_size(typ: u32) -> (n: u64)
    ensures
        n == spec_elem_size(typ),
        n <= 0x8_0000_0000,
{
    let d = depth_size(typ);
    let c = channels(typ);
    proof {
        assert(d <= 8 && c <= 0x2000_0000);
        assert((d as u64) * (c as u64) <= 0x8_0000_0000) by (nonlinear_arith)
            requires
                d <= 8 && c <= 0x2000_0000,
        ;
    }
    (d as u64) * (c as u64)
}

/// The pixel-buffer length `rows * cols * elem` of any representable
/// geometry stays far below `u128::MAX`.
pub proof fn lemma_image_len_bound(r: int, c: int, e: int)
    requires
        0 <= r < 0x1_0000_0000,
        0 <= c < 0x1_0000_0000,
        0 <= e <= 0x8_0000_0000,
    ensures
        0 <= r * c < 0x1_0000_0000_0000_0000,
        0 <= r * c * e < 0x10_0000_0000_0000_0000_0000_0000,
{
    assert(0 <= r * c < 0x1_0000_0000_0000_0000 && 0 <= r * c * e
        < 0x10_0000_0000_0000_0000_0000_0000) by (nonlinear_arith)
        requires
            0 <= r < 0x1_0000_0000,
            0 <= c < 0x1_0000_0000,
            0 <= e <= 0x8_0000_0000,
    ;
}

/// Mathematical shape of an [`Image`]: its geometry and its pixel bytes.
pub struct ImageView {
    pub rows: u32,
    pub cols: u32,
    pub typ: u32,
    pub data: Seq<u8>,
}

impl ImageView {
    /// The pixel buffer holds exactly `rows * cols` pixels of the size the
    /// type code prescribes.
    pub open spec fn wf(self) -> bool {
        self.data.len() == (self.rows as int) * (self.cols as int) * (spec_elem_size(
            self.typ,
        ) as int)
    }
}

/// An owning pixel matrix: geometry, a type code encoding depth and channel
/// count, and a contiguous byte buffer of `rows * cols * elem_size` bytes.
#[derive(Debug, PartialEq, Eq)]
pub struct Image {
    pub rows: u32,
    pub cols: u32,
    pub typ: u32,
    pub data: Vec<u8>,
}

impl View for Image {
    type V = ImageView;

    open spec fn view(&self) -> ImageView {
        ImageView { rows: self.rows, cols: self.cols, typ: self.typ, data: self.data@ }
    }
}

impl Image {
    /// An empty, owning image: zero geometry, no pixel bytes.
    pub fn try_default() -> (img: Image)
        ensures
            img@.rows == 0,
            img@.cols == 0,
            img@.typ == 0,
            img@.data == Seq::<u8>::empty(),
            img@.wf(),
    {
        let img = Image { rows: 0, cols: 0, typ: 0, data: Vec::new() };
        proof {
            assert(img@.data =~= Seq::<u8>::empty());
            assert((0 as int) * (0 as int) * (spec_elem_size(0) as int) == 0) by (nonlinear_arith);
        }
        img
    }

    /// Builds an owning image over a byte buffer. Accepts the buffer exactly
    /// when its length matches the geometry; rejects it with `Decode`
    /// otherwise.
    pub fn from_bytes(rows: u32, cols: u32, typ: u32, data: Vec<u8>) -> (r: Result<Image, Error>)
        ensures
            r matches Ok(img) ==> img@ == (ImageView {
                rows,
                cols,
                typ,
                data: data@,
            }) && img@.wf(),
            r is Err <==> data@.len() != (rows as int) * (cols as int) * (spec_elem_size(
                typ,
            ) as int),
            r is Err ==> r == Err::<Image, _>(Error::Decode),
    {
        let elem = elem_size(typ);
        proof {
            lemma_image_len_bound(rows as int, cols as int, elem as int);
        }
        let expected = (rows as u128) * (cols as u128) * (elem as u128);
        if (data.len() as u128) == expected {
            Ok(Image { rows, cols, typ, data })
        } else {
            Err(Error::Decode)
        }
    }

    /// A byte-for-byte copy of this image.
    pub fn duplicate(&self) -> (r: Image)
        ensures
            r@ == self@,
    {
        let mut data: Vec<u8> = Vec::new();
        data.extend_from_slice(self.data.as_slice());
        assert(data@ =~= self.data@);
        Image { rows: self.rows, cols: self.cols, typ: self.typ, data }
    }
}

/// Mathematical shape of a [`Frame`].
pub struct FrameView {
    pub image: ImageView,
    pub meta: VideoMeta,
    pub timestamp: i64,
    pub count: u64,
}

/// The frame envelope handed to consumers: pixel matrix, source metadata,
/// wall-clock timestamp in microseconds since the Unix epoch, and the
/// monotonic count assigned by the ring at push time. Consumers pass their
/// last-seen `count` back to request the next frame.
#[derive(Debug)]
pub struct Frame {
    pub image: Image,
    pub meta: VideoMeta,
    pub timestamp: i64,
    pub count: u64,
}

impl View for Frame {
    type V = FrameView;

    open spec fn view(&self) -> FrameView {
        FrameView {
            image: self.image@,
            meta: self.meta,
            timestamp: self.timestamp,
            count: self.count,
        }
    }
}

/// Reads the wall clock.
///
/// Relies on `chrono::Utc::now` and `chrono::DateTime::timestamp_micros`:
/// the current UTC time in microseconds since the Unix epoch. Nothing can be
/// promised of a clock reading.
#[verifier::external_body]
pub fn now_micros() -> i64 {
    chrono::Utc::now().timestamp_micros()
}

impl Frame {
    /// A fresh frame for a source described by `meta`: empty image, the
    /// clock's current time, and count zero, so that the first `get`
    /// requests the oldest available push.
    pub fn new(meta: VideoMeta) -> (r: Result<Frame, Error>)
        ensures
            r matches Ok(f) ==> f.count == 0 && f.meta == meta && f.image@.wf()
                && f.image@.data.len() == 0,
            r is Ok,
    {
        Ok(Frame { image: Image::try_default(), meta, timestamp: now_micros(), count: 0 })
    }
}

} // verus!
