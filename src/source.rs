//! Video sources: local devices, synthetic generators, files and redirects,
//! and the registry queries over them.
use vstd::prelude::*;
use crate::text::str_eq;
use crate::types::{Control, Format, FrameInterval, Size, VideoEncodeType, encode_of_codec};

verus! {

/// Frame layout and rate a source captures with.
#[derive(Clone, Debug, PartialEq, Eq)]
pub struct VideoCaptureConfiguration {
    pub encode: VideoEncodeType,
    pub height: u32,
    pub width: u32,
    pub frame_interval: FrameInterval,
}

impl VideoCaptureConfiguration {
    /// A copy of this configuration.
    pub fn copy(&self) -> (r: VideoCaptureConfiguration)
        ensures
            r == *self,
    {
        VideoCaptureConfiguration {
            encode: self.encode.copy(),
            height: self.height,
            width: self.width,
            frame_interval: self.frame_interval,
        }
    }
}

/// The kind of a local capture device.
#[derive(Clone, Debug, PartialEq, Eq)]
pub enum VideoSourceLocalType {
    Unknown(String),
    Usb(String),
    LegacyRpiCam(String),
}

/// A local capture device.
#[derive(Clone, Debug, PartialEq, Eq)]
pub struct VideoSourceLocal {
    pub name: String,
    pub device_path: String,
    pub typ: VideoSourceLocalType,
}

/// What a synthetic source generates.
#[derive(Clone, Debug, PartialEq, Eq)]
pub enum VideoSourceGstType {
    Local(VideoSourceLocal),
    Fake(String),
}

/// A source made by the media framework itself.
#[derive(Clone, Debug, PartialEq, Eq)]
pub struct VideoSourceGst {
    pub name: String,
    pub source: VideoSourceGstType,
}

/// A video file, with the configuration its probe found.
#[derive(Clone, Debug, PartialEq, Eq)]
pub struct VideoSourceFile {
    pub name: String,
    pub source: String,
    pub configuration: VideoCaptureConfiguration,
}

/// Where a redirect source points.
#[derive(Clone, Debug, PartialEq, Eq)]
pub enum VideoSourceRedirectType {
    Redirect(String),
    Onvif(String),
}

/// A source served elsewhere, advertised by its URL.
#[derive(Clone, Debug, PartialEq, Eq)]
pub struct VideoSourceRedirect {
    pub name: String,
    pub source: VideoSourceRedirectType,
}

/// Any video source.
#[derive(Clone, Debug, PartialEq, Eq)]
pub enum VideoSourceType {
    Gst(VideoSourceGst),
    Local(VideoSourceLocal),
    File(VideoSourceFile),
    Redirect(VideoSourceRedirect),
}

/// A control request on a source that has no controls.
#[derive(Clone, Copy, Debug, PartialEq, Eq, Structural)]
pub enum ControlError {
    UnsupportedControl,
}

impl VideoSourceLocal {
    /// A copy of this device.
    pub fn copy(&self) -> (r: VideoSourceLocal)
        ensures
            r == *self,
    {
        let typ = match &self.typ {
            VideoSourceLocalType::Unknown(s) => VideoSourceLocalType::Unknown(s.clone()),
            VideoSourceLocalType::Usb(s) => VideoSourceLocalType::Usb(s.clone()),
            VideoSourceLocalType::LegacyRpiCam(s) => VideoSourceLocalType::LegacyRpiCam(s.clone()),
        };
        VideoSourceLocal { name: self.name.clone(), device_path: self.device_path.clone(), typ }
    }
}

/// The source text of a source: what it is looked up by.
pub open spec fn source_text(s: VideoSourceType) -> Seq<char> {
    match s {
        VideoSourceType::Gst(g) => match g.source {
            VideoSourceGstType::Local(l) => l.device_path@,
            VideoSourceGstType::Fake(p) => p@,
        },
        VideoSourceType::Local(l) => l.device_path@,
        VideoSourceType::File(f) => f.source@,
        VideoSourceType::Redirect(r) => match r.source {
            VideoSourceRedirectType::Redirect(u) => u@,
            VideoSourceRedirectType::Onvif(u) => u@,
        },
    }
}

/// The name of a source.
pub open spec fn source_name(s: VideoSourceType) -> Seq<char> {
    match s {
        VideoSourceType::Gst(g) => g.name@,
        VideoSourceType::Local(l) => l.name@,
        VideoSourceType::File(f) => f.name@,
        VideoSourceType::Redirect(r) => r.name@,
    }
}

impl VideoSourceType {
    /// A copy of this source.
    pub fn copy(&self) -> (r: VideoSourceType)
        ensures
            r == *self,
    {
        match self {
            VideoSourceType::Gst(g) => {
                let source = match &g.source {
                    VideoSourceGstType::Local(l) => VideoSourceGstType::Local(l.copy()),
                    VideoSourceGstType::Fake(p) => VideoSourceGstType::Fake(p.clone()),
                };
                VideoSourceType::Gst(VideoSourceGst { name: g.name.clone(), source })
            },
            VideoSourceType::Local(l) => VideoSourceType::Local(l.copy()),
            VideoSourceType::File(f) => VideoSourceType::File(VideoSourceFile {
                name: f.name.clone(),
                source: f.source.clone(),
                configuration: f.configuration.copy(),
            }),
            VideoSourceType::Redirect(r) => {
                let source = match &r.source {
                    VideoSourceRedirectType::Redirect(u) => VideoSourceRedirectType::Redirect(u.clone()),
                    VideoSourceRedirectType::Onvif(u) => VideoSourceRedirectType::Onvif(u.clone()),
                };
                VideoSourceType::Redirect(VideoSourceRedirect { name: r.name.clone(), source })
            },
        }
    }

    /// The name of this source.
    pub fn name(&self) -> (r: &String)
        ensures
            r@ == source_name(*self),
    {
        match self {
            VideoSourceType::Gst(g) => &g.name,
            VideoSourceType::Local(l) => &l.name,
            VideoSourceType::File(f) => &f.name,
            VideoSourceType::Redirect(r) => &r.name,
        }
    }

    /// The text this source is looked up by: a device path, a pattern, a
    /// file path or a URL.
    pub fn source_string(&self) -> (r: &str)
        ensures
            r@ == source_text(*self),
    {
        match self {
            VideoSourceType::Gst(g) => match &g.source {
                VideoSourceGstType::Local(l) => l.device_path.as_str(),
                VideoSourceGstType::Fake(p) => p.as_str(),
            },
            VideoSourceType::Local(l) => l.device_path.as_str(),
            VideoSourceType::File(f) => f.source.as_str(),
            VideoSourceType::Redirect(r) => r.source_string(),
        }
    }

    /// Whether a control can be set on this source: only local devices
    /// have controls.
    pub fn check_control(&self) -> (r: Result<(), ControlError>)
        ensures
            r is Ok <==> *self is Local,
    {
        match self {
            VideoSourceType::Local(_) => Ok(()),
            _ => Err(ControlError::UnsupportedControl),
        }
    }
}

impl VideoSourceFile {
    /// The file source a media probe describes: named after the file, or
    /// `no-name` when the path has no file name.
    pub fn from_probe(path: &str, file_name: Option<&str>, codec: &str, width: u32, height: u32, frame_interval: FrameInterval) -> (r: VideoSourceFile)
        ensures
            r.source@ == path@,
            r.name@ == (match file_name {
                Some(n) => n@,
                None => "no-name"@,
            }),
            r.configuration.encode@ == encode_of_codec(codec@),
            r.configuration.width == width,
            r.configuration.height == height,
            r.configuration.frame_interval == frame_interval,
    {
        let name = match file_name {
            Some(n) => n.to_owned(),
            None => "no-name".to_owned(),
        };
        VideoSourceFile {
            name,
            source: path.to_owned(),
            configuration: VideoCaptureConfiguration {
                encode: VideoEncodeType::from_codec(codec),
                height,
                width,
                frame_interval,
            },
        }
    }

    pub fn name(&self) -> (r: &String)
        ensures
            r == self.name,
    {
        &self.name
    }

    pub fn source_string(&self) -> (r: &str)
        ensures
            r@ == self.source@,
    {
        self.source.as_str()
    }

    /// The one format of the file: its encoding, size and frame interval.
    pub fn formats(&self) -> (r: Vec<Format>)
        ensures
            r@.len() == 1,
            r@[0].encode == self.configuration.encode,
            r@[0].sizes@.len() == 1,
            r@[0].sizes@[0].width == self.configuration.width,
            r@[0].sizes@[0].height == self.configuration.height,
            r@[0].sizes@[0].intervals@ == seq![self.configuration.frame_interval],
    {
        let intervals = vec![self.configuration.frame_interval];
        let sizes = vec![Size { width: self.configuration.width, height: self.configuration.height, intervals }];
        vec![Format { encode: self.configuration.encode.copy(), sizes }]
    }

    pub fn set_control_by_name(&self, _control_name: &str, _value: i64) -> (r: Result<(), ControlError>)
        ensures
            r == Err::<(), ControlError>(ControlError::UnsupportedControl),
    {
        Err(ControlError::UnsupportedControl)
    }

    pub fn set_control_by_id(&self, _control_id: u64, _value: i64) -> (r: Result<(), ControlError>)
        ensures
            r == Err::<(), ControlError>(ControlError::UnsupportedControl),
    {
        Err(ControlError::UnsupportedControl)
    }

    pub fn control_value_by_name(&self, _control_name: &str) -> (r: Result<i64, ControlError>)
        ensures
            r == Err::<i64, ControlError>(ControlError::UnsupportedControl),
    {
        Err(ControlError::UnsupportedControl)
    }

    pub fn control_value_by_id(&self, _control_id: u64) -> (r: Result<i64, ControlError>)
        ensures
            r == Err::<i64, ControlError>(ControlError::UnsupportedControl),
    {
        Err(ControlError::UnsupportedControl)
    }

    pub fn controls(&self) -> (r: Vec<Control>)
        ensures
            r@.len() == 0,
    {
        Vec::new()
    }

    pub fn is_valid(&self) -> (r: bool)
        ensures
            r,
    {
        true
    }

    pub fn is_shareable(&self) -> (r: bool)
        ensures
            r,
    {
        true
    }
}

impl VideoSourceRedirect {
    pub fn name(&self) -> (r: &String)
        ensures
            r == self.name,
    {
        &self.name
    }

    /// The URL this source redirects to.
    pub fn source_string(&self) -> (r: &str)
        ensures
            r@ == source_text(VideoSourceType::Redirect(*self)),
    {
        match &self.source {
            VideoSourceRedirectType::Redirect(u) => u.as_str(),
            VideoSourceRedirectType::Onvif(u) => u.as_str(),
        }
    }

    /// A redirect offers no formats of its own.
    pub fn formats(&self) -> (r: Vec<Format>)
        ensures
            r@.len() == 0,
    {
        Vec::new()
    }

    pub fn set_control_by_name(&self, _control_name: &str, _value: i64) -> (r: Result<(), ControlError>)
        ensures
            r == Err::<(), ControlError>(ControlError::UnsupportedControl),
    {
        Err(ControlError::UnsupportedControl)
    }

    pub fn set_control_by_id(&self, _control_id: u64, _value: i64) -> (r: Result<(), ControlError>)
        ensures
            r == Err::<(), ControlError>(ControlError::UnsupportedControl),
    {
        Err(ControlError::UnsupportedControl)
    }

    pub fn control_value_by_name(&self, _control_name: &str) -> (r: Result<i64, ControlError>)
        ensures
            r == Err::<i64, ControlError>(ControlError::UnsupportedControl),
    {
        Err(ControlError::UnsupportedControl)
    }

    pub fn control_value_by_id(&self, _control_id: u64) -> (r: Result<i64, ControlError>)
        ensures
            r == Err::<i64, ControlError>(ControlError::UnsupportedControl),
    {
        Err(ControlError::UnsupportedControl)
    }

    pub fn controls(&self) -> (r: Vec<Control>)
        ensures
            r@.len() == 0,
    {
        Vec::new()
    }

    pub fn is_valid(&self) -> (r: bool)
        ensures
            r,
    {
        true
    }

    pub fn is_shareable(&self) -> (r: bool)
        ensures
            r,
    {
        true
    }

    /// The redirect sources a discovered device offers: one per URL, named
    /// after the device, or `Unnamed`.
    pub fn from_discovered(device_name: Option<&str>, urls: &Vec<String>) -> (r: Vec<VideoSourceType>)
        ensures
            r@.len() == urls@.len(),
            forall|i: int| 0 <= i < r@.len() ==> (#[trigger] r@[i] matches VideoSourceType::Redirect(s)
                && s.name@ == (match device_name {
                    Some(n) => n@,
                    None => "Unnamed"@,
                })
                && (s.source matches VideoSourceRedirectType::Onvif(u) && u == urls@[i])),
    {
        let mut r: Vec<VideoSourceType> = Vec::new();
        let mut i: usize = 0;
        while i < urls.len()
            invariant
                i <= urls@.len(),
                r@.len() == i,
                forall|k: int| 0 <= k < i ==> (#[trigger] r@[k] matches VideoSourceType::Redirect(s)
                    && s.name@ == (match device_name {
                        Some(n) => n@,
                        None => "Unnamed"@,
                    })
                    && (s.source matches VideoSourceRedirectType::Onvif(u) && u == urls@[k])),
            decreases urls@.len() - i,
        {
            let name = match device_name {
                Some(n) => n.to_owned(),
                None => "Unnamed".to_owned(),
            };
            r.push(VideoSourceType::Redirect(VideoSourceRedirect { name, source: VideoSourceRedirectType::Onvif(urls[i].clone()) }));
            i = i + 1;
        }
        r
    }

    /// The redirect sources always on offer: one generic redirect.
    pub fn cameras_available() -> (r: Vec<VideoSourceType>)
        ensures
            r@.len() == 1,
            r@[0] matches VideoSourceType::Redirect(s) && (s.name@ == "Redirect source"@
                && (s.source matches VideoSourceRedirectType::Redirect(u) && u@ == "Redirect"@)),
    {
        vec![VideoSourceType::Redirect(VideoSourceRedirect {
            name: "Redirect source".to_owned(),
            source: VideoSourceRedirectType::Redirect("Redirect".to_owned()),
        })]
    }
}

/// Looks up a source by its source text among the available ones: the first
/// that matches.
pub fn get_video_source(available: &Vec<VideoSourceType>, source: &str) -> (r: Option<VideoSourceType>)
    ensures
        match r {
            Some(s) => exists|i: int| 0 <= i < available@.len() && available@[i] == s
                && source_text(available@[i]) == source@
                && forall|j: int| 0 <= j < i ==> source_text(#[trigger] available@[j]) != source@,
            None => forall|j: int| 0 <= j < available@.len() ==> source_text(#[trigger] available@[j]) != source@,
        },
{
    let mut i: usize = 0;
    while i < available.len()
        invariant
            i <= available.len(),
            forall|j: int| 0 <= j < i ==> source_text(#[trigger] available@[j]) != source@,
        decreases available.len() - i,
    {
        if str_eq(available[i].source_string(), source) {
            return Some(available[i].copy());
        }
        i = i + 1;
    }
    None
}

} // verus!
