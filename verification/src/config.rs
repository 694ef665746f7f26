use vstd::prelude::*;

use crate::error::Error;

verus! {

/// Requested color mode of a video source.
#[derive(Copy, Clone, Debug, PartialEq, Eq, Structural)]
pub enum VideoColor {
    Grayscale,
    /// Three channels, BGR order.
    Color,
}

/// What has to happen to a captured image so that it matches a requested
/// [`VideoColor`], given the number of channels the image actually has.
#[derive(Copy, Clone, Debug, PartialEq, Eq, Structural)]
pub enum ColorConversion {
    /// The image already has the requested layout.
    Keep,
    /// Collapse three BGR channels into one gray channel.
    BgrToGray,
    /// Expand one gray channel into three BGR channels.
    GrayToBgr,
}

impl Default for VideoColor {
    /// The default color mode is three-channel BGR.
    fn default() -> (c: Self)
        ensures
            c == VideoColor::Color,
    {
        VideoColor::Color
    }
}

impl VideoColor {
    /// Decides the conversion that brings an image with `channels` channels
    /// into this color mode. Only one- and three-channel images are
    /// convertible; anything else is `Unimplemented`.
    pub fn convert(&self, channels: u32) -> (r: Result<ColorConversion, Error>)
        ensures
            *self is Grayscale && channels == 1 ==> r == Ok::<_, Error>(ColorConversion::Keep),
            *self is Grayscale && channels == 3 ==> r == Ok::<_, Error>(
                ColorConversion::BgrToGray,
            ),
            *self is Color && channels == 1 ==> r == Ok::<_, Error>(ColorConversion::GrayToBgr),
            *self is Color && channels == 3 ==> r == Ok::<_, Error>(ColorConversion::Keep),
            channels != 1 && channels != 3 ==> r == Err::<ColorConversion, _>(
                Error::Unimplemented,
            ),
    {
        match self {
            VideoColor::Grayscale => match channels {
                1 => Ok(ColorConversion::Keep),
                3 => Ok(ColorConversion::BgrToGray),
                _ => Err(Error::Unimplemented),
            },
            VideoColor::Color => match channels {
                1 => Ok(ColorConversion::GrayToBgr),
                3 => Ok(ColorConversion::Keep),
                _ => Err(Error::Unimplemented),
            },
        }
    }
}

/// Packs four codec identifier bytes into a 32-bit FourCC code, least
/// significant byte first.
pub fn fourcc(c1: u8, c2: u8, c3: u8, c4: u8) -> (code: u32)
    ensures
        code == c1 + (c2 as u32) * 0x100 + (c3 as u32) * 0x10000 + (c4 as u32) * 0x1000000,
{
    let a = c1 as u32;
    let b = c2 as u32;
    let c = c3 as u32;
    let d = c4 as u32;
    let code = a | (b << 8u32) | (c << 16u32) | (d << 24u32);
    assert(code == a + b * 0x100 + c * 0x10000 + d * 0x1000000) by (bit_vector)
        requires
            a < 256,
            b < 256,
            c < 256,
            d < 256,
            code == a | (b << 8u32) | (c << 16u32) | (d << 24u32),
    ;
    code
}

/// Reads a codec identifier. A codec is accepted exactly when it is four
/// bytes long; it then packs into its FourCC code.
pub fn codec_fourcc(codec: &[u8]) -> (r: Option<u32>)
    ensures
        codec@.len() == 4 ==> r == Some(
            (codec@[0] + codec@[1] * 0x100 + codec@[2] * 0x10000 + codec@[3] * 0x1000000) as u32,
        ),
        codec@.len() != 4 ==> r is None,
{
    if codec.len() == 4 {
        let c1 = *vstd::slice::slice_index_get(codec, 0);
        let c2 = *vstd::slice::slice_index_get(codec, 1);
        let c3 = *vstd::slice::slice_index_get(codec, 2);
        let c4 = *vstd::slice::slice_index_get(codec, 3);
        Some(fourcc(c1, c2, c3, c4))
    } else {
        None
    }
}

/// Immutable description of a video source: an optional FourCC codec code,
/// an optional color mode (defaulting to [`VideoColor::Color`]), the frame
/// geometry and the target frame rate. `fps == 0` means free-run: no pacing.
#[derive(Copy, Clone, Debug, PartialEq, Eq)]
pub struct VideoMeta {
    pub codec: Option<u32>,
    pub color: Option<VideoColor>,
    pub width: u32,
    pub height: u32,
    pub fps: u32,
}

impl VideoMeta {
    /// The color mode, falling back to the default when none is configured.
    pub fn effective_color(&self) -> (c: VideoColor)
        ensures
            self.color is Some ==> c == self.color->0,
            self.color is None ==> c == VideoColor::Color,
    {
        match self.color {
            Some(c) => c,
            None => VideoColor::Color,
        }
    }
}

/// The ASCII decimal digits of a number, most significant first.
pub open spec fn spec_decimal(n: int) -> Seq<u8>
    recommends
        n >= 0,
    decreases n,
{
    if n < 10 {
        seq![(0x30 + n) as u8]
    } else {
        spec_decimal(n / 10) + seq![(0x30 + n % 10) as u8]
    }
}

/// The device path of a local camera: the bytes of `/dev/video` followed by
/// the device number in decimal.
pub open spec fn spec_cam_device_path(device: u16) -> Seq<u8> {
    seq![0x2fu8, 0x64u8, 0x65u8, 0x76u8, 0x2fu8, 0x76u8, 0x69u8, 0x64u8, 0x65u8, 0x6fu8]
        + spec_decimal(device as int)
}

/// Renders a camera's device path, `/dev/video` plus the device number in
/// decimal, as ASCII bytes.
pub fn cam_device_path(device: u16) -> (path: Vec<u8>)
    ensures
        path@ == spec_cam_device_path(device),
{
    let mut path: Vec<u8> = Vec::new();
    path.push(0x2f);  // '/'
    path.push(0x64);  // 'd'
    path.push(0x65);  // 'e'
    path.push(0x76);  // 'v'
    path.push(0x2f);  // '/'
    path.push(0x76);  // 'v'
    path.push(0x69);  // 'i'
    path.push(0x64);  // 'd'
    path.push(0x65);  // 'e'
    path.push(0x6f);  // 'o'
    proof {
        assert(forall|i: int|
            0 <= i < 10 ==> path@[i] == spec_cam_device_path(device)[i]);
    }
    // Low digits first, then reversed into place.
    let mut digits: Vec<u8> = Vec::new();
    let mut x = device;
    proof {
        assert(digits@.reverse() =~= Seq::<u8>::empty());
    }
    loop
        invariant_except_break
            spec_decimal(device as int) == spec_decimal(x as int) + digits@.reverse(),
        ensures
            spec_decimal(device as int) == digits@.reverse(),
        decreases x,
    {
        let d: u8 = 0x30 + (x % 10) as u8;
        let ghost prev = digits@;
        digits.push(d);
        proof {
            assert(digits@.reverse() =~= seq![d] + prev.reverse());
        }
        if x < 10 {
            proof {
                assert(spec_decimal(x as int) =~= seq![d]);
                assert(spec_decimal(device as int) =~= digits@.reverse());
            }
            break ;
        }
        proof {
            assert(spec_decimal(x as int) =~= spec_decimal(x as int / 10) + seq![d]);
            assert(spec_decimal(device as int) =~= spec_decimal((x / 10) as int)
                + digits@.reverse());
        }
        x = x / 10;
    }
    let m = digits.len();
    let mut k: usize = 0;
    while k < m
        invariant
            k <= m,
            m == digits@.len(),
            spec_decimal(device as int) == digits@.reverse(),
            path@.len() == 10 + k,
            forall|i: int| 0 <= i < 10 ==> path@[i] == spec_cam_device_path(device)[i],
            forall|i: int| 0 <= i < k ==> path@[10 + i] == digits@.reverse()[i],
        decreases m - k,
    {
        path.push(digits[m - 1 - k]);
        k += 1;
    }
    proof {
        assert(path@ =~= spec_cam_device_path(device));
    }
    path
}

/// A local camera device, `/dev/video{device}`. The only reader kind that
/// may opt into being served by the export server.
#[derive(Debug)]
pub struct CamConfig {
    pub device: u16,
    pub export: Option<bool>,
    pub meta: VideoMeta,
}

impl CamConfig {
    pub fn is_export(&self) -> (b: bool)
        ensures
            b == (self.export == Some(true)),
    {
        match self.export {
            Some(b) => b,
            None => false,
        }
    }

    pub fn meta(&self) -> (m: &VideoMeta)
        ensures
            m == self.meta,
    {
        &self.meta
    }
}

/// A video file, resolved against the configuration's base path.
#[derive(Debug)]
pub struct VideoConfig {
    pub path: String,
    pub meta: VideoMeta,
}

impl VideoConfig {
    pub fn is_export(&self) -> (b: bool)
        ensures
            !b,
    {
        false
    }

    pub fn meta(&self) -> (m: &VideoMeta)
        ensures
            m == self.meta,
    {
        &self.meta
    }
}

/// An RTSP stream, addressed by its URL verbatim.
#[derive(Debug)]
pub struct RtspConfig {
    pub url: String,
    pub meta: VideoMeta,
}

impl RtspConfig {
    pub fn is_export(&self) -> (b: bool)
        ensures
            !b,
    {
        false
    }

    pub fn meta(&self) -> (m: &VideoMeta)
        ensures
            m == self.meta,
    {
        &self.meta
    }
}

/// A remote reader: the producer is a network client against another
/// process's export server at `ip`.
#[derive(Debug)]
pub struct ClientConfig {
    pub ip: String,
}

/// One reader's configuration, keyed by the reader's name in the outer map.
#[derive(Debug)]
pub enum OneConfig {
    Cam(CamConfig),
    Video(VideoConfig),
    Rtsp(RtspConfig),
    Client(ClientConfig),
}

impl OneConfig {
    /// Whether this reader opts into the export server. Only cameras may.
    pub fn is_export(&self) -> (b: bool)
        ensures
            b <==> (self matches OneConfig::Cam(c) && c.export == Some(true)),
    {
        match self {
            OneConfig::Cam(c) => c.is_export(),
            OneConfig::Video(c) => c.is_export(),
            OneConfig::Rtsp(c) => c.is_export(),
            OneConfig::Client(_) => false,
        }
    }
}

} // verus!
