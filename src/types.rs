//! Video format and control types shared by sources and streams.
use vstd::prelude::*;
use crate::text::str_eq;

verus! {

/// Encoding of a video stream.
#[derive(Clone, Debug, PartialEq, Eq, PartialOrd, Ord)]
pub enum VideoEncodeType {
    Unknown(String),
    H265,
    H264,
    Mjpg,
    Yuyv,
}

/// Mathematical form of an encoding, with its unknown name as characters.
pub ghost enum EncodeView {
    Unknown(Seq<char>),
    H265,
    H264,
    Mjpg,
    Yuyv,
}

impl View for VideoEncodeType {
    type V = EncodeView;

    open spec fn view(&self) -> EncodeView {
        match self {
            VideoEncodeType::Unknown(s) => EncodeView::Unknown(s@),
            VideoEncodeType::H265 => EncodeView::H265,
            VideoEncodeType::H264 => EncodeView::H264,
            VideoEncodeType::Mjpg => EncodeView::Mjpg,
            VideoEncodeType::Yuyv => EncodeView::Yuyv,
        }
    }
}

/// The media-framework caps name of an encoding, if it has one.
pub open spec fn codec_of(e: EncodeView) -> Option<Seq<char>> {
    match e {
        EncodeView::H264 => Some("video/x-h264"@),
        EncodeView::H265 => Some("video/x-h265"@),
        EncodeView::Mjpg => Some("video/mpeg"@),
        EncodeView::Yuyv => Some("video/x-raw,format=I420"@),
        EncodeView::Unknown(_) => None,
    }
}

/// The encoding named by a media-framework caps name.
pub open spec fn encode_of_codec(codec: Seq<char>) -> EncodeView {
    if codec == "video/x-h264"@ {
        EncodeView::H264
    } else if codec == "video/x-h265"@ {
        EncodeView::H265
    } else if codec == "video/mpeg"@ {
        EncodeView::Mjpg
    } else if codec == "video/x-raw,format=I420"@ {
        EncodeView::Yuyv
    } else {
        EncodeView::Unknown(codec)
    }
}

/// The encoding named by a lower-case fourcc.
pub open spec fn encode_of_fourcc(lower: Seq<char>) -> EncodeView {
    if lower == "h264"@ {
        EncodeView::H264
    } else if lower == "h265"@ {
        EncodeView::H265
    } else if lower == "mjpg"@ {
        EncodeView::Mjpg
    } else if lower == "yuyv"@ {
        EncodeView::Yuyv
    } else {
        EncodeView::Unknown(lower)
    }
}

/// What `str::to_lowercase` returns for a text.
pub uninterp spec fn lower_of(s: Seq<char>) -> Seq<char>;

/// The printable name of an encoding: its caps name, or else its unknown
/// name in lower case.
pub open spec fn encode_name(e: EncodeView) -> Seq<char> {
    match codec_of(e) {
        Some(c) => c,
        None => match e {
            EncodeView::Unknown(s) => lower_of(s),
            _ => Seq::empty(),
        },
    }
}

/// Relies on str::to_lowercase: the lower-case form of a text, which depends
/// on its characters alone.
#[verifier::external_body]
fn lowercase(s: &str) -> (r: String)
    ensures
        r@ == lower_of(s@),
{
    s.to_lowercase()
}

/// An encoding could not be mapped to a media-framework caps name.
#[derive(Clone, Debug, PartialEq, Eq)]
pub struct UnsupportedCodec {
    pub codec: String,
}

impl VideoEncodeType {
    /// A copy of this encoding.
    pub fn copy(&self) -> (r: VideoEncodeType)
        ensures
            r == *self,
    {
        match self {
            VideoEncodeType::Unknown(s) => VideoEncodeType::Unknown(s.clone()),
            VideoEncodeType::H265 => VideoEncodeType::H265,
            VideoEncodeType::H264 => VideoEncodeType::H264,
            VideoEncodeType::Mjpg => VideoEncodeType::Mjpg,
            VideoEncodeType::Yuyv => VideoEncodeType::Yuyv,
        }
    }

    /// Whether this is H.264.
    pub fn is_h264(&self) -> (r: bool)
        ensures
            r == (self@ == EncodeView::H264),
    {
        match self {
            VideoEncodeType::H264 => true,
            _ => false,
        }
    }

    /// Whether this is H.265.
    pub fn is_h265(&self) -> (r: bool)
        ensures
            r == (self@ == EncodeView::H265),
    {
        match self {
            VideoEncodeType::H265 => true,
            _ => false,
        }
    }

    /// The media-framework caps name of this encoding; an unknown encoding
    /// has none.
    pub fn to_codec(&self) -> (r: Result<String, UnsupportedCodec>)
        ensures
            match r {
                Ok(c) => codec_of(self@) == Some(c@),
                Err(e) => self@ == EncodeView::Unknown(e.codec@),
            },
    {
        match self {
            VideoEncodeType::Unknown(codec) => Err(UnsupportedCodec { codec: codec.clone() }),
            VideoEncodeType::H264 => {
                proof { reveal_strlit("video/x-h264"); }
                Ok("video/x-h264".to_owned())
            },
            VideoEncodeType::H265 => {
                proof { reveal_strlit("video/x-h265"); }
                Ok("video/x-h265".to_owned())
            },
            VideoEncodeType::Mjpg => {
                proof { reveal_strlit("video/mpeg"); }
                Ok("video/mpeg".to_owned())
            },
            VideoEncodeType::Yuyv => {
                proof { reveal_strlit("video/x-raw,format=I420"); }
                Ok("video/x-raw,format=I420".to_owned())
            },
        }
    }

    /// The encoding named by a media-framework caps name; any other name is
    /// kept as an unknown encoding.
    pub fn from_codec(codec: &str) -> (r: VideoEncodeType)
        ensures
            r@ == encode_of_codec(codec@),
    {
        if str_eq(codec, "video/x-h264") {
            VideoEncodeType::H264
        } else if str_eq(codec, "video/x-h265") {
            VideoEncodeType::H265
        } else if str_eq(codec, "video/mpeg") {
            VideoEncodeType::Mjpg
        } else if str_eq(codec, "video/x-raw,format=I420") {
            VideoEncodeType::Yuyv
        } else {
            VideoEncodeType::Unknown(codec.to_owned())
        }
    }

    /// The encoding named by a fourcc, in any letter case; any other fourcc
    /// is kept, in lower case, as an unknown encoding.
    pub fn from_fourcc(fourcc: &str) -> (r: VideoEncodeType)
        ensures
            r@ == encode_of_fourcc(lower_of(fourcc@)),
    {
        let lower = lowercase(fourcc);
        if str_eq(lower.as_str(), "h264") {
            VideoEncodeType::H264
        } else if str_eq(lower.as_str(), "h265") {
            VideoEncodeType::H265
        } else if str_eq(lower.as_str(), "mjpg") {
            VideoEncodeType::Mjpg
        } else if str_eq(lower.as_str(), "yuyv") {
            VideoEncodeType::Yuyv
        } else {
            VideoEncodeType::Unknown(lower)
        }
    }

    /// The printable name of this encoding.
    pub fn name(&self) -> (r: String)
        ensures
            r@ == encode_name(self@),
    {
        match self.to_codec() {
            Ok(codec) => codec,
            Err(_) => match self {
                VideoEncodeType::Unknown(s) => lowercase(s.as_str()),
                _ => String::new(),
            },
        }
    }
}

impl core::str::FromStr for VideoEncodeType {
    type Err = ();

    fn from_str(fourcc: &str) -> Result<Self, Self::Err> {
        Ok(VideoEncodeType::from_fourcc(fourcc))
    }
}

/// Time between two frames, in seconds, as a fraction.
#[derive(Clone, Copy, Debug, PartialEq, Eq, PartialOrd, Ord, Structural)]
pub struct FrameInterval {
    pub numerator: u32,
    pub denominator: u32,
}

impl FrameInterval {
    /// The interval a media-framework fraction gives, its parts taken as
    /// unsigned.
    pub fn from_fraction(numer: i32, denom: i32) -> (r: FrameInterval)
        ensures
            r.numerator == numer as u32,
            r.denominator == denom as u32,
    {
        FrameInterval { numerator: numer as u32, denominator: denom as u32 }
    }
}

/// One frame size of a format, with the frame intervals it offers.
#[derive(Clone, Debug, PartialEq, Eq, PartialOrd, Ord)]
pub struct Size {
    pub width: u32,
    pub height: u32,
    pub intervals: Vec<FrameInterval>,
}

/// One encoding a source offers, with its frame sizes.
#[derive(Clone, Debug, PartialEq, Eq, PartialOrd, Ord)]
pub struct Format {
    pub encode: VideoEncodeType,
    pub sizes: Vec<Size>,
}

/// A control of a capture device.
#[derive(Clone, Debug, Default)]
pub struct Control {
    pub name: String,
    pub cpp_type: String,
    pub id: u64,
    pub state: ControlState,
    pub configuration: ControlType,
}

/// The kind of a control, with its values.
#[derive(Clone, Debug)]
pub enum ControlType {
    Bool(ControlBool),
    Slider(ControlSlider),
    Menu(ControlMenu),
}

#[derive(Clone, Debug, Default)]
pub struct ControlState {
    pub is_disabled: bool,
    pub is_inactive: bool,
}

#[derive(Clone, Debug)]
pub struct ControlBool {
    pub default: i64,
    pub value: i64,
}

#[derive(Clone, Debug)]
pub struct ControlSlider {
    pub default: i64,
    pub value: i64,
    pub step: u64,
    pub max: i64,
    pub min: i64,
}

#[derive(Clone, Debug)]
pub struct ControlMenu {
    pub default: i64,
    pub value: i64,
    pub options: Vec<ControlOption>,
}

#[derive(Clone, Debug)]
pub struct ControlOption {
    pub name: String,
    pub value: i64,
}

impl Default for ControlType {
    /// A boolean control that is off, by default and in value.
    fn default() -> (r: ControlType)
        ensures
            r matches ControlType::Bool(b) && b.default == 0 && b.value == 0,
    {
        ControlType::Bool(ControlBool { default: 0, value: 0 })
    }
}

} // verus!
