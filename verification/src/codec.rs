use vstd::prelude::*;

use vstd::bytes::{
    lemma_auto_spec_u32_to_from_le_bytes, lemma_auto_spec_u64_to_from_le_bytes,
    spec_u32_from_le_bytes, spec_u32_to_le_bytes, spec_u64_from_le_bytes, spec_u64_to_le_bytes,
    u32_from_le_bytes, u32_to_le_bytes, u64_from_le_bytes, u64_to_le_bytes,
};
use vstd::slice::{slice_index_get, slice_subrange, slice_to_vec};

use crate::config::{VideoColor, VideoMeta};
use crate::error::Error;
use crate::frame::{Frame, FrameView, Image, ImageView};

verus! {

// The wire records, all little-endian with fixed-width fields:
//
//   image  :=  rows:u32  cols:u32  typ:u32  len:u64  data:[u8; len]
//   meta   :=  codec:opt_u32  color:opt_color  width:u32  height:u32  fps:u32
//   frame  :=  image  meta  timestamp:u64  count:u64
//
// where an optional field is a one-byte tag (0 absent, 1 present) followed
// by a fixed-width payload (zeroed when absent), so every record but the
// pixel data itself sits at a fixed offset.
/// Byte encoding of an optional FourCC code: tag, then four payload bytes.
pub open spec fn spec_encode_opt_u32(o: Option<u32>) -> Seq<u8> {
    match o {
        Some(x) => seq![1u8] + spec_u32_to_le_bytes(x),
        None => seq![0u8, 0u8, 0u8, 0u8, 0u8],
    }
}

/// Byte code of a color mode.
pub open spec fn spec_color_code(c: VideoColor) -> u8 {
    match c {
        VideoColor::Grayscale => 0,
        VideoColor::Color => 1,
    }
}

/// Byte encoding of an optional color mode: tag, then one payload byte.
pub open spec fn spec_encode_opt_color(o: Option<VideoColor>) -> Seq<u8> {
    match o {
        Some(c) => seq![1u8, spec_color_code(c)],
        None => seq![0u8, 0u8],
    }
}

/// Byte encoding of a source description: 19 bytes.
pub open spec fn spec_encode_meta(m: VideoMeta) -> Seq<u8> {
    spec_encode_opt_u32(m.codec) + spec_encode_opt_color(m.color) + spec_u32_to_le_bytes(m.width)
        + spec_u32_to_le_bytes(m.height) + spec_u32_to_le_bytes(m.fps)
}

/// Byte encoding of an image: a 20-byte header — geometry, type code and
/// pixel-buffer length — followed by the pixel bytes.
pub open spec fn spec_encode_image(v: ImageView) -> Seq<u8> {
    spec_u32_to_le_bytes(v.rows) + spec_u32_to_le_bytes(v.cols) + spec_u32_to_le_bytes(v.typ)
        + spec_u64_to_le_bytes(v.data.len() as u64) + v.data
}

/// Byte encoding of a frame: its image, its source description, and the
/// timestamp and count as 8-byte fields.
pub open spec fn spec_encode_frame(f: FrameView) -> Seq<u8> {
    spec_encode_image(f.image) + spec_encode_meta(f.meta) + spec_u64_to_le_bytes(
        f.timestamp as u64,
    ) + spec_u64_to_le_bytes(f.count)
}

/// What an optional-FourCC field decodes to; `None` is a malformed field.
pub open spec fn spec_decode_opt_u32(s: Seq<u8>) -> Option<Option<u32>>
    recommends
        s.len() == 5,
{
    if s[0] == 0u8 {
        Some(None)
    } else if s[0] == 1u8 {
        Some(Some(spec_u32_from_le_bytes(s.subrange(1, 5))))
    } else {
        None
    }
}

/// What a color byte decodes to.
pub open spec fn spec_decode_color(b: u8) -> Option<VideoColor> {
    if b == 0u8 {
        Some(VideoColor::Grayscale)
    } else if b == 1u8 {
        Some(VideoColor::Color)
    } else {
        None
    }
}

/// What an optional-color field decodes to; `None` is a malformed field.
pub open spec fn spec_decode_opt_color(s: Seq<u8>) -> Option<Option<VideoColor>>
    recommends
        s.len() == 2,
{
    if s[0] == 0u8 {
        Some(None)
    } else if s[0] == 1u8 {
        match spec_decode_color(s[1]) {
            Some(c) => Some(Some(c)),
            None => None,
        }
    } else {
        None
    }
}

/// What a 19-byte source description decodes to.
pub open spec fn spec_decode_meta(s: Seq<u8>) -> Option<VideoMeta>
    recommends
        s.len() == 19,
{
    match spec_decode_opt_u32(s.subrange(0, 5)) {
        None => None,
        Some(codec) => match spec_decode_opt_color(s.subrange(5, 7)) {
            None => None,
            Some(color) => Some(
                VideoMeta {
                    codec,
                    color,
                    width: spec_u32_from_le_bytes(s.subrange(7, 11)),
                    height: spec_u32_from_le_bytes(s.subrange(11, 15)),
                    fps: spec_u32_from_le_bytes(s.subrange(15, 19)),
                },
            ),
        },
    }
}

/// What a whole byte string decodes to as an image: the header must account
/// for every remaining byte and the geometry must match the pixel-buffer
/// length.
pub open spec fn spec_decode_image(s: Seq<u8>) -> Option<ImageView> {
    if s.len() < 20 {
        None
    } else {
        let v = ImageView {
            rows: spec_u32_from_le_bytes(s.subrange(0, 4)),
            cols: spec_u32_from_le_bytes(s.subrange(4, 8)),
            typ: spec_u32_from_le_bytes(s.subrange(8, 12)),
            data: s.subrange(20, s.len() as int),
        };
        if spec_u64_from_le_bytes(s.subrange(12, 20)) == s.len() - 20 && v.wf() {
            Some(v)
        } else {
            None
        }
    }
}

/// What a whole byte string decodes to as a frame.
pub open spec fn spec_decode_frame(s: Seq<u8>) -> Option<FrameView> {
    if s.len() < 55 {
        None
    } else {
        let n = s.len() - 35;  // end of the image record
        match spec_decode_image(s.subrange(0, n)) {
            None => None,
            Some(image) => match spec_decode_meta(s.subrange(n, n + 19)) {
                None => None,
                Some(meta) => Some(
                    FrameView {
                        image,
                        meta,
                        timestamp: spec_u64_from_le_bytes(s.subrange(n + 19, n + 27)) as i64,
                        count: spec_u64_from_le_bytes(s.subrange(n + 27, n + 35)),
                    },
                ),
            },
        }
    }
}

/// Reads a `u32` field at `start`.
fn read_u32(bytes: &[u8], start: usize) -> (x: u32)
    requires
        start + 4 <= bytes@.len(),
    ensures
        x == spec_u32_from_le_bytes(bytes@.subrange(start as int, start + 4)),
{
    let l = bytes.len();
    proof {
        assert(start + 4 <= l);
    }
    u32_from_le_bytes(slice_subrange(bytes, start, start + 4))
}

/// Reads a `u64` field at `start`.
fn read_u64(bytes: &[u8], start: usize) -> (x: u64)
    requires
        start + 8 <= bytes@.len(),
    ensures
        x == spec_u64_from_le_bytes(bytes@.subrange(start as int, start + 8)),
{
    let l = bytes.len();
    proof {
        assert(start + 8 <= l);
    }
    u64_from_le_bytes(slice_subrange(bytes, start, start + 8))
}

/// Serializes an image into its wire record.
pub fn encode_image(img: &Image) -> (out: Vec<u8>)
    ensures
        out@ == spec_encode_image(img@),
{
    let mut out = u32_to_le_bytes(img.rows);
    let mut cols = u32_to_le_bytes(img.cols);
    let mut typ = u32_to_le_bytes(img.typ);
    let mut len = u64_to_le_bytes(img.data.len() as u64);
    out.append(&mut cols);
    out.append(&mut typ);
    out.append(&mut len);
    out.extend_from_slice(img.data.as_slice());
    proof {
        assert(out@ =~= spec_encode_image(img@));
    }
    out
}

/// Deserializes an image from its wire record, accepting exactly the byte
/// strings [`spec_decode_image`] accepts.
pub fn decode_image(bytes: &[u8]) -> (r: Result<Image, Error>)
    ensures
        r matches Ok(img) ==> spec_decode_image(bytes@) == Some(img@) && img@.wf(),
        r is Err <==> spec_decode_image(bytes@) is None,
        r is Err ==> r == Err::<Image, Error>(Error::Decode),
{
    if bytes.len() < 20 {
        return Err(Error::Decode);
    }
    let rows = read_u32(bytes, 0);
    let cols = read_u32(bytes, 4);
    let typ = read_u32(bytes, 8);
    let n = read_u64(bytes, 12);
    if n != (bytes.len() - 20) as u64 {
        return Err(Error::Decode);
    }
    let data = slice_to_vec(slice_subrange(bytes, 20, bytes.len()));
    match Image::from_bytes(rows, cols, typ, data) {
        Ok(img) => Ok(img),
        Err(_) => Err(Error::Decode),
    }
}

/// Serializes a source description into its 19-byte wire record.
pub fn encode_meta(m: &VideoMeta) -> (out: Vec<u8>)
    ensures
        out@ == spec_encode_meta(*m),
        out@.len() == 19,
{
    let mut out: Vec<u8> = Vec::new();
    match m.codec {
        Some(x) => {
            out.push(1u8);
            let mut payload = u32_to_le_bytes(x);
            out.append(&mut payload);
        },
        None => {
            out.push(0u8);
            out.push(0u8);
            out.push(0u8);
            out.push(0u8);
            out.push(0u8);
        },
    }
    match m.color {
        Some(c) => {
            out.push(1u8);
            out.push(
                match c {
                    VideoColor::Grayscale => 0u8,
                    VideoColor::Color => 1u8,
                },
            );
        },
        None => {
            out.push(0u8);
            out.push(0u8);
        },
    }
    let mut width = u32_to_le_bytes(m.width);
    let mut height = u32_to_le_bytes(m.height);
    let mut fps = u32_to_le_bytes(m.fps);
    out.append(&mut width);
    out.append(&mut height);
    out.append(&mut fps);
    proof {
        lemma_auto_spec_u32_to_from_le_bytes();
        assert(out@ =~= spec_encode_meta(*m));
    }
    out
}

/// Deserializes a 19-byte source description.
pub fn decode_meta(bytes: &[u8]) -> (r: Result<VideoMeta, Error>)
    requires
        bytes@.len() == 19,
    ensures
        r matches Ok(m) ==> spec_decode_meta(bytes@) == Some(m),
        r is Err <==> spec_decode_meta(bytes@) is None,
        r is Err ==> r == Err::<VideoMeta, Error>(Error::Decode),
{
    let codec_tag = *slice_index_get(bytes, 0);
    let codec: Option<u32> = if codec_tag == 0u8 {
        None
    } else if codec_tag == 1u8 {
        Some(read_u32(bytes, 1))
    } else {
        return Err(Error::Decode);
    };
    let color_tag = *slice_index_get(bytes, 5);
    let color: Option<VideoColor> = if color_tag == 0u8 {
        None
    } else if color_tag == 1u8 {
        let b = *slice_index_get(bytes, 6);
        if b == 0u8 {
            Some(VideoColor::Grayscale)
        } else if b == 1u8 {
            Some(VideoColor::Color)
        } else {
            return Err(Error::Decode);
        }
    } else {
        return Err(Error::Decode);
    };
    let width = read_u32(bytes, 7);
    let height = read_u32(bytes, 11);
    let fps = read_u32(bytes, 15);
    proof {
        assert(bytes@.subrange(0, 5).subrange(1, 5) =~= bytes@.subrange(1, 5));
        assert(bytes@.subrange(0, 5)[0] == bytes@[0]);
        assert(bytes@.subrange(5, 7)[0] == bytes@[5]);
        assert(bytes@.subrange(5, 7)[1] == bytes@[6]);
    }
    Ok(VideoMeta { codec, color, width, height, fps })
}

/// Serializes a frame into its wire record.
pub fn encode_frame(f: &Frame) -> (out: Vec<u8>)
    ensures
        out@ == spec_encode_frame(f@),
{
    let mut out = encode_image(&f.image);
    let mut meta = encode_meta(&f.meta);
    let mut ts = u64_to_le_bytes(f.timestamp as u64);
    let mut count = u64_to_le_bytes(f.count);
    out.append(&mut meta);
    out.append(&mut ts);
    out.append(&mut count);
    proof {
        assert(out@ =~= spec_encode_frame(f@));
    }
    out
}

/// Deserializes a frame from its wire record, accepting exactly the byte
/// strings [`spec_decode_frame`] accepts.
pub fn decode_frame(bytes: &[u8]) -> (r: Result<Frame, Error>)
    ensures
        r matches Ok(f) ==> spec_decode_frame(bytes@) == Some(f@) && f.image@.wf(),
        r is Err <==> spec_decode_frame(bytes@) is None,
        r is Err ==> r == Err::<Frame, Error>(Error::Decode),
{
    if bytes.len() < 55 {
        return Err(Error::Decode);
    }
    let n = bytes.len() - 35;
    let image = match decode_image(slice_subrange(bytes, 0, n)) {
        Ok(img) => img,
        Err(_) => { return Err(Error::Decode) },
    };
    let meta = match decode_meta(slice_subrange(bytes, n, n + 19)) {
        Ok(m) => m,
        Err(_) => { return Err(Error::Decode) },
    };
    let timestamp = read_u64(bytes, n + 19) as i64;
    let count = read_u64(bytes, n + 27);
    Ok(Frame { image, meta, timestamp, count })
}

/// Round trip for optional FourCC fields.
proof fn lemma_opt_u32_round_trip(o: Option<u32>)
    ensures
        spec_encode_opt_u32(o).len() == 5,
        spec_decode_opt_u32(spec_encode_opt_u32(o)) == Some(o),
{
    lemma_auto_spec_u32_to_from_le_bytes();
    match o {
        Some(x) => {
            assert(spec_encode_opt_u32(o).subrange(1, 5) =~= spec_u32_to_le_bytes(x));
        },
        None => {},
    }
}

/// Round trip for optional color fields.
proof fn lemma_opt_color_round_trip(o: Option<VideoColor>)
    ensures
        spec_encode_opt_color(o).len() == 2,
        spec_decode_opt_color(spec_encode_opt_color(o)) == Some(o),
{
}

/// Round-trip serialization of a source description: decoding the encoding
/// of any `VideoMeta` gives it back.
pub proof fn lemma_meta_round_trip(m: VideoMeta)
    ensures
        spec_encode_meta(m).len() == 19,
        spec_decode_meta(spec_encode_meta(m)) == Some(m),
{
    lemma_auto_spec_u32_to_from_le_bytes();
    lemma_opt_u32_round_trip(m.codec);
    lemma_opt_color_round_trip(m.color);
    let s = spec_encode_meta(m);
    assert(s.subrange(0, 5) =~= spec_encode_opt_u32(m.codec));
    assert(s.subrange(5, 7) =~= spec_encode_opt_color(m.color));
    assert(s.subrange(7, 11) =~= spec_u32_to_le_bytes(m.width));
    assert(s.subrange(11, 15) =~= spec_u32_to_le_bytes(m.height));
    assert(s.subrange(15, 19) =~= spec_u32_to_le_bytes(m.fps));
}

/// Round-trip serialization of an image: decoding the encoding of any
/// well-formed image whose pixel buffer a machine can hold gives it back,
/// field for field and byte for byte.
pub proof fn lemma_image_round_trip(v: ImageView)
    requires
        v.wf(),
        v.data.len() < 0x1_0000_0000_0000_0000,
    ensures
        spec_encode_image(v).len() == 20 + v.data.len(),
        spec_decode_image(spec_encode_image(v)) == Some(v),
{
    lemma_auto_spec_u32_to_from_le_bytes();
    lemma_auto_spec_u64_to_from_le_bytes();
    let s = spec_encode_image(v);
    assert(s.subrange(0, 4) =~= spec_u32_to_le_bytes(v.rows));
    assert(s.subrange(4, 8) =~= spec_u32_to_le_bytes(v.cols));
    assert(s.subrange(8, 12) =~= spec_u32_to_le_bytes(v.typ));
    assert(s.subrange(12, 20) =~= spec_u64_to_le_bytes(v.data.len() as u64));
    assert(s.subrange(20, s.len() as int) =~= v.data);
    let d = spec_decode_image(s);
    assert(d matches Some(w) && w =~= v);
}

/// Round-trip serialization of a frame: decoding the encoding of any frame
/// with a well-formed, machine-sized image gives it back.
pub proof fn lemma_frame_round_trip(f: FrameView)
    requires
        f.image.wf(),
        f.image.data.len() < 0x1_0000_0000_0000_0000,
    ensures
        spec_decode_frame(spec_encode_frame(f)) == Some(f),
{
    lemma_auto_spec_u32_to_from_le_bytes();
    lemma_auto_spec_u64_to_from_le_bytes();
    lemma_image_round_trip(f.image);
    lemma_meta_round_trip(f.meta);
    let s = spec_encode_frame(f);
    let n = s.len() - 35;
    assert(n == 20 + f.image.data.len());
    assert(s.subrange(0, n as int) =~= spec_encode_image(f.image));
    assert(s.subrange(n as int, n + 19) =~= spec_encode_meta(f.meta));
    assert(s.subrange(n + 19, n + 27) =~= spec_u64_to_le_bytes(f.timestamp as u64));
    assert(s.subrange(n + 27, n + 35) =~= spec_u64_to_le_bytes(f.count));
    let t = f.timestamp;
    assert(((t as u64) as i64) == t) by (bit_vector);
}

} // verus!
