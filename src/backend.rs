//! Stream validation and pipeline description building.
use vstd::prelude::*;
use crate::endpoint::Endpoint;
use crate::info::{InfoView, VideoAndStreamInformation};
use crate::source::{VideoSourceGstType, VideoSourceType};
use crate::text::{contains_seq, contains_str, decimal, push_decimal, push_str};
use crate::types::{encode_name, EncodeView};

verus! {

/// Why a stream description is refused before anything is built.
#[derive(Clone, Copy, Debug, PartialEq, Eq, Structural)]
pub enum ValidationError {
    EmptyEndpoints,
    MixedSchemes,
    UnsupportedEncode,
    UnsupportedScheme,
    MultipleRtspEndpoints,
    EncodeSchemeMismatch,
    MissingHostOrPort,
    InvalidDimensions,
}

/// Why no pipeline could be built for a stream description.
#[derive(Clone, Copy, Debug, PartialEq, Eq, Structural)]
pub enum BuildError {
    NoEndpoints,
    UnsupportedScheme,
    UnsupportedSource,
    UnsupportedEncode,
    UnsupportedFormat,
    MissingHostOrPort,
}

/// A refused stream description.
#[derive(Clone, Copy, Debug, PartialEq, Eq, Structural)]
pub enum BackendError {
    Validation(ValidationError),
    Build(BuildError),
}

/// Every endpoint uses the scheme of the first.
pub open spec fn same_scheme(eps: Seq<Endpoint>) -> bool {
    forall|i: int| 0 <= i < eps.len() ==> (#[trigger] eps[i]).scheme@ == eps[0].scheme@
}

/// Every endpoint names a host and a port.
pub open spec fn all_host_port(eps: Seq<Endpoint>) -> bool {
    forall|i: int| 0 <= i < eps.len() ==> (#[trigger] eps[i]).host is Some && eps[i].port is Some
}

/// What the scheme of the first endpoint demands of the endpoints and the
/// encoding.
pub open spec fn scheme_error(i: InfoView) -> Option<ValidationError> {
    let s = i.endpoints[0].scheme@;
    let enc = i.configuration.encode@;
    if s == "rtsp"@ {
        if i.endpoints.len() > 1 {
            Some(ValidationError::MultipleRtspEndpoints)
        } else if enc != EncodeView::H264 {
            Some(ValidationError::EncodeSchemeMismatch)
        } else {
            None
        }
    } else if s == "udp"@ {
        if enc != EncodeView::H264 {
            Some(ValidationError::EncodeSchemeMismatch)
        } else if !all_host_port(i.endpoints) {
            Some(ValidationError::MissingHostOrPort)
        } else {
            None
        }
    } else if s == "udp265"@ {
        if enc != EncodeView::H265 {
            Some(ValidationError::EncodeSchemeMismatch)
        } else if !all_host_port(i.endpoints) {
            Some(ValidationError::MissingHostOrPort)
        } else {
            None
        }
    } else if s == "webrtc"@ {
        if enc != EncodeView::H264 {
            Some(ValidationError::EncodeSchemeMismatch)
        } else {
            None
        }
    } else {
        Some(ValidationError::UnsupportedScheme)
    }
}

/// Frame sizes must be positive and even.
pub open spec fn dimensions_ok(width: u32, height: u32) -> bool {
    width > 0 && height > 0 && width % 2 == 0 && height % 2 == 0
}

/// The first rule a stream description breaks, if any.
pub open spec fn validation_error(i: InfoView) -> Option<ValidationError> {
    if i.endpoints.len() == 0 {
        Some(ValidationError::EmptyEndpoints)
    } else if !same_scheme(i.endpoints) {
        Some(ValidationError::MixedSchemes)
    } else if i.configuration.encode@ is Unknown {
        Some(ValidationError::UnsupportedEncode)
    } else if scheme_error(i) is Some {
        scheme_error(i)
    } else if !dimensions_ok(i.configuration.width, i.configuration.height) {
        Some(ValidationError::InvalidDimensions)
    } else {
        None
    }
}

/// Checks that there are endpoints and that they share one scheme.
pub fn check_endpoints(info: &VideoAndStreamInformation) -> (r: Result<(), ValidationError>)
    ensures
        r == (if info@.endpoints.len() == 0 {
            Err(ValidationError::EmptyEndpoints)
        } else if !same_scheme(info@.endpoints) {
            Err(ValidationError::MixedSchemes)
        } else {
            Ok(())
        }),
{
    let eps = &info.stream_information.endpoints;
    if eps.len() == 0 {
        return Err(ValidationError::EmptyEndpoints);
    }
    let mut i: usize = 1;
    while i < eps.len()
        invariant
            1 <= i <= eps.len(),
            eps@ == info@.endpoints,
            forall|k: int| 0 <= k < i ==> (#[trigger] eps@[k]).scheme@ == eps@[0].scheme@,
        decreases eps.len() - i,
    {
        if !(eps[i].scheme == eps[0].scheme) {
            assert(info@.endpoints[i as int].scheme@ != info@.endpoints[0].scheme@);
            return Err(ValidationError::MixedSchemes);
        }
        i = i + 1;
    }
    Ok(())
}

/// Checks that the encoding is a known one.
pub fn check_encode(info: &VideoAndStreamInformation) -> (r: Result<(), ValidationError>)
    ensures
        r == (if info@.configuration.encode@ is Unknown {
            Err(ValidationError::UnsupportedEncode)
        } else {
            Ok(())
        }),
{
    match &info.stream_information.configuration.encode {
        crate::types::VideoEncodeType::Unknown(_) => Err(ValidationError::UnsupportedEncode),
        _ => Ok(()),
    }
}

fn check_host_port(eps: &Vec<Endpoint>) -> (r: bool)
    ensures
        r == all_host_port(eps@),
{
    let mut i: usize = 0;
    while i < eps.len()
        invariant
            i <= eps.len(),
            forall|k: int| 0 <= k < i ==> (#[trigger] eps@[k]).host is Some && eps@[k].port is Some,
        decreases eps.len() - i,
    {
        if eps[i].host.is_none() || eps[i].port.is_none() {
            return false;
        }
        i = i + 1;
    }
    true
}

/// Checks what the scheme of the first endpoint demands.
pub fn check_scheme(info: &VideoAndStreamInformation) -> (r: Result<(), ValidationError>)
    requires
        info@.endpoints.len() > 0,
    ensures
        r == (match scheme_error(info@) {
            Some(e) => Err(e),
            None => Ok(()),
        }),
{
    let eps = &info.stream_information.endpoints;
    let encode = &info.stream_information.configuration.encode;
    let scheme = eps[0].scheme.as_str();
    if crate::text::str_eq(scheme, "rtsp") {
        if eps.len() > 1 {
            return Err(ValidationError::MultipleRtspEndpoints);
        }
        if !encode.is_h264() {
            return Err(ValidationError::EncodeSchemeMismatch);
        }
        Ok(())
    } else if crate::text::str_eq(scheme, "udp") {
        if !encode.is_h264() {
            return Err(ValidationError::EncodeSchemeMismatch);
        }
        if !check_host_port(eps) {
            return Err(ValidationError::MissingHostOrPort);
        }
        Ok(())
    } else if crate::text::str_eq(scheme, "udp265") {
        if !encode.is_h265() {
            return Err(ValidationError::EncodeSchemeMismatch);
        }
        if !check_host_port(eps) {
            return Err(ValidationError::MissingHostOrPort);
        }
        Ok(())
    } else if crate::text::str_eq(scheme, "webrtc") {
        if !encode.is_h264() {
            return Err(ValidationError::EncodeSchemeMismatch);
        }
        Ok(())
    } else {
        Err(ValidationError::UnsupportedScheme)
    }
}

/// Checks that the frame size is positive and even.
pub fn check_dimensions(info: &VideoAndStreamInformation) -> (r: Result<(), ValidationError>)
    ensures
        r == (if dimensions_ok(info@.configuration.width, info@.configuration.height) {
            Ok(())
        } else {
            Err(ValidationError::InvalidDimensions)
        }),
{
    let w = info.stream_information.configuration.width;
    let h = info.stream_information.configuration.height;
    if w == 0 || h == 0 || w % 2 != 0 || h % 2 != 0 {
        Err(ValidationError::InvalidDimensions)
    } else {
        Ok(())
    }
}

/// Checks a stream description against every rule, in order.
pub fn validate(info: &VideoAndStreamInformation) -> (r: Result<(), ValidationError>)
    ensures
        r == (match validation_error(info@) {
            Some(e) => Err(e),
            None => Ok(()),
        }),
{
    check_endpoints(info)?;
    check_encode(info)?;
    check_scheme(info)?;
    check_dimensions(info)
}

/// The frame caps that follow a source: size and rate.
pub open spec fn frame_caps(i: InfoView) -> Seq<char> {
    "width="@ + decimal(i.configuration.width as nat) + ",height="@ + decimal(i.configuration.height as nat)
        + ",framerate="@ + decimal(i.configuration.frame_interval.denominator as nat) + "/"@
        + decimal(i.configuration.frame_interval.numerator as nat)
}

/// The stream asks for an image encoding: its encoding's name mentions
/// `image`.
pub open spec fn is_image_stream(i: InfoView) -> bool {
    contains_seq(encode_name(i.configuration.encode@), "image"@)
}

/// The part of a pipeline that streams the image file at `source`: decoded,
/// frozen, scaled and encoded to H.264.
pub open spec fn file_segment(source: Seq<char>, i: InfoView) -> Seq<char> {
    "multifilesrc location="@ + source
        + " ! decodebin ! videoconvert ! imagefreeze ! videobox ! video/x-raw,format=I420,width="@
        + decimal(i.configuration.width as nat) + ",height="@ + decimal(i.configuration.height as nat)
        + ",framerate=30/1 ! x264enc"@
}

/// Writes the image-file segment for the file at `source`.
pub(crate) fn build_file_segment(source: &str, info: &VideoAndStreamInformation) -> (r: String)
    ensures
        r@ == file_segment(source@, info@),
{
    let c = &info.stream_information.configuration;
    let mut d = String::new();
    push_str(&mut d, "multifilesrc location=");
    push_str(&mut d, source);
    push_str(&mut d, " ! decodebin ! videoconvert ! imagefreeze ! videobox ! video/x-raw,format=I420,width=");
    push_decimal(&mut d, c.width);
    push_str(&mut d, ",height=");
    push_decimal(&mut d, c.height);
    push_str(&mut d, ",framerate=30/1 ! x264enc");
    assert(d@ =~= file_segment(source@, info@));
    d
}

/// Whether the stream asks for an image encoding.
pub(crate) fn check_image_stream(info: &VideoAndStreamInformation) -> (r: bool)
    ensures
        r == is_image_stream(info@),
{
    let name = info.stream_information.configuration.encode.name();
    contains_str(name.as_str(), "image")
}

/// The part of a pipeline that captures and encodes to H.264, by source.
pub open spec fn source_segment(i: InfoView) -> Result<Seq<char>, BuildError> {
    match i.video_source {
        VideoSourceType::Local(l) => Ok("v4l2src device="@ + l.device_path@ + " ! video/x-h264,"@ + frame_caps(i)),
        VideoSourceType::Gst(g) => match g.source {
            VideoSourceGstType::Fake(p) => Ok("videotestsrc pattern="@ + p@ + " ! video/x-raw,"@ + frame_caps(i)
                + " ! videoconvert !  x264enc bitrate=5000 ! video/x-h264, profile=baseline"@),
            VideoSourceGstType::Local(_) => Err(BuildError::UnsupportedSource),
        },
        VideoSourceType::File(f) => if is_image_stream(i) {
            Ok(file_segment(f.source@, i))
        } else {
            Err(BuildError::UnsupportedFormat)
        },
        VideoSourceType::Redirect(_) => Err(BuildError::UnsupportedSource),
    }
}

/// `host:port` of an endpoint.
pub open spec fn client_text(e: Endpoint) -> Seq<char> {
    match (e.host, e.port) {
        (Some(h), Some(p)) => h@ + ":"@ + decimal(p as nat),
        _ => Seq::empty(),
    }
}

/// The clients of a multi-client UDP sink: `host:port` of each endpoint,
/// joined by commas.
pub open spec fn clients_text(eps: Seq<Endpoint>) -> Seq<char>
    decreases eps.len(),
{
    if eps.len() == 0 {
        Seq::empty()
    } else if eps.len() == 1 {
        client_text(eps[0])
    } else {
        clients_text(eps.drop_last()) + ","@ + client_text(eps.last())
    }
}

/// The H.264 payload and UDP fan-out that follow the source.
pub open spec fn udp_tail(eps: Seq<Endpoint>) -> Seq<char> {
    " ! h264parse ! queue ! rtph264pay config-interval=10 pt=96 ! multiudpsink clients="@ + clients_text(eps)
}

/// The pipeline description of a stream served over UDP.
pub open spec fn udp_description(i: InfoView) -> Result<Seq<char>, BuildError> {
    match source_segment(i) {
        Err(e) => Err(e),
        Ok(seg) => if i.configuration.encode@ != EncodeView::H264 {
            Err(BuildError::UnsupportedEncode)
        } else if !all_host_port(i.endpoints) {
            Err(BuildError::MissingHostOrPort)
        } else {
            Ok(seg + udp_tail(i.endpoints))
        },
    }
}

/// The pipeline description of a stream, by the scheme of its first
/// endpoint: only UDP is built.
pub open spec fn stream_description(i: InfoView) -> Result<Seq<char>, BuildError> {
    if i.endpoints.len() == 0 {
        Err(BuildError::NoEndpoints)
    } else if i.endpoints[0].scheme@ == "udp"@ {
        udp_description(i)
    } else {
        Err(BuildError::UnsupportedScheme)
    }
}

fn push_frame_caps(d: &mut String, info: &VideoAndStreamInformation)
    ensures
        final(d)@ == old(d)@ + frame_caps(info@),
{
    let c = &info.stream_information.configuration;
    push_str(d, "width=");
    push_decimal(d, c.width);
    push_str(d, ",height=");
    push_decimal(d, c.height);
    push_str(d, ",framerate=");
    push_decimal(d, c.frame_interval.denominator);
    push_str(d, "/");
    push_decimal(d, c.frame_interval.numerator);
    assert(final(d)@ =~= old(d)@ + frame_caps(info@));
}

fn build_source_segment(info: &VideoAndStreamInformation) -> (r: Result<String, BuildError>)
    ensures
        match r {
            Ok(s) => source_segment(info@) == Ok::<Seq<char>, BuildError>(s@),
            Err(e) => source_segment(info@) == Err::<Seq<char>, BuildError>(e),
        },
{
    let mut d = String::new();
    match &info.video_source {
        VideoSourceType::Local(l) => {
            push_str(&mut d, "v4l2src device=");
            push_str(&mut d, l.device_path.as_str());
            push_str(&mut d, " ! video/x-h264,");
            push_frame_caps(&mut d, info);
            assert(d@ =~= "v4l2src device="@ + l.device_path@ + " ! video/x-h264,"@ + frame_caps(info@));
            Ok(d)
        },
        VideoSourceType::Gst(g) => match &g.source {
            VideoSourceGstType::Fake(p) => {
                push_str(&mut d, "videotestsrc pattern=");
                push_str(&mut d, p.as_str());
                push_str(&mut d, " ! video/x-raw,");
                push_frame_caps(&mut d, info);
                push_str(&mut d, " ! videoconvert !  x264enc bitrate=5000 ! video/x-h264, profile=baseline");
                assert(d@ =~= "videotestsrc pattern="@ + p@ + " ! video/x-raw,"@ + frame_caps(info@)
                    + " ! videoconvert !  x264enc bitrate=5000 ! video/x-h264, profile=baseline"@);
                Ok(d)
            },
            VideoSourceGstType::Local(_) => Err(BuildError::UnsupportedSource),
        },
        VideoSourceType::File(f) => {
            if check_image_stream(info) {
                Ok(build_file_segment(f.source.as_str(), info))
            } else {
                Err(BuildError::UnsupportedFormat)
            }
        },
        VideoSourceType::Redirect(_) => Err(BuildError::UnsupportedSource),
    }
}

pub(crate) fn push_clients(d: &mut String, eps: &Vec<Endpoint>)
    requires
        all_host_port(eps@),
    ensures
        final(d)@ == old(d)@ + clients_text(eps@),
{
    let ghost start = d@;
    let mut i: usize = 0;
    while i < eps.len()
        invariant
            i <= eps.len(),
            all_host_port(eps@),
            d@ == start + clients_text(eps@.subrange(0, i as int)),
        decreases eps.len() - i,
    {
        let e = &eps[i];
        assert(e.host is Some && e.port is Some);
        let ghost before = d@;
        if i > 0 {
            push_str(d, ",");
        }
        match (&e.host, e.port) {
            (Some(h), Some(p)) => {
                push_str(d, h.as_str());
                push_str(d, ":");
                push_decimal(d, p as u32);
            },
            _ => {},
        }
        proof {
            let pre = eps@.subrange(0, i as int);
            let post = eps@.subrange(0, i + 1);
            assert(post.drop_last() =~= pre);
            assert(post.last() == eps@[i as int]);
            if i == 0 {
                assert(d@ =~= before + client_text(eps@[i as int]));
            } else {
                assert(d@ =~= before + ","@ + client_text(eps@[i as int]));
            }
        }
        i = i + 1;
    }
    assert(eps@.subrange(0, eps.len() as int) =~= eps@);
}

/// Builds the pipeline description of a stream served over UDP.
pub fn create_udp_stream(info: &VideoAndStreamInformation) -> (r: Result<StreamType, BuildError>)
    ensures
        match r {
            Ok(StreamType::UDP(s)) => udp_description(info@) == Ok::<Seq<char>, BuildError>(s.pipeline_description@) && !s.running,
            Err(e) => udp_description(info@) == Err::<Seq<char>, BuildError>(e),
        },
{
    let mut d = build_source_segment(info)?;
    if !info.stream_information.configuration.encode.is_h264() {
        return Err(BuildError::UnsupportedEncode);
    }
    let eps = &info.stream_information.endpoints;
    if !check_host_port(eps) {
        return Err(BuildError::MissingHostOrPort);
    }
    let ghost seg = d@;
    push_str(&mut d, " ! h264parse ! queue ! rtph264pay config-interval=10 pt=96 ! multiudpsink clients=");
    push_clients(&mut d, eps);
    assert(d@ =~= seg + udp_tail(info@.endpoints));
    Ok(StreamType::UDP(VideoStreamUdp { pipeline_description: d, running: false }))
}

/// Builds the pipeline description of a stream by the scheme of its first
/// endpoint.
pub fn create_stream(info: &VideoAndStreamInformation) -> (r: Result<StreamType, BuildError>)
    ensures
        match r {
            Ok(StreamType::UDP(s)) => stream_description(info@) == Ok::<Seq<char>, BuildError>(s.pipeline_description@) && !s.running,
            Err(e) => stream_description(info@) == Err::<Seq<char>, BuildError>(e),
        },
{
    let eps = &info.stream_information.endpoints;
    if eps.len() == 0 {
        return Err(BuildError::NoEndpoints);
    }
    if crate::text::str_eq(eps[0].scheme.as_str(), "udp") {
        create_udp_stream(info)
    } else {
        Err(BuildError::UnsupportedScheme)
    }
}

/// What building a stream description gives: a validation error, a build
/// error, or the pipeline description.
pub open spec fn backend_result(i: InfoView) -> Result<Seq<char>, BackendError> {
    match validation_error(i) {
        Some(e) => Err(BackendError::Validation(e)),
        None => match stream_description(i) {
            Ok(d) => Ok(d),
            Err(e) => Err(BackendError::Build(e)),
        },
    }
}

/// Validates a stream description and builds its stream.
pub fn new(info: &VideoAndStreamInformation) -> (r: Result<StreamType, BackendError>)
    ensures
        match r {
            Ok(StreamType::UDP(s)) => backend_result(info@) == Ok::<Seq<char>, BackendError>(s.pipeline_description@) && !s.running,
            Err(e) => backend_result(info@) == Err::<Seq<char>, BackendError>(e),
        },
{
    match validate(info) {
        Err(e) => Err(BackendError::Validation(e)),
        Ok(()) => match create_stream(info) {
            Ok(s) => Ok(s),
            Err(e) => Err(BackendError::Build(e)),
        },
    }
}

/// A built stream, by transport.
#[derive(Debug)]
pub enum StreamType {
    UDP(VideoStreamUdp),
}

/// A stream whose pipeline ends in a multi-client UDP sink.
#[derive(Debug)]
pub struct VideoStreamUdp {
    pub pipeline_description: String,
    pub running: bool,
}

/// Life cycle of a stream's pipeline.
pub trait StreamBackend {
    spec fn running_spec(&self) -> bool;

    spec fn description_spec(&self) -> Seq<char>;

    /// Starts the pipeline; true when it was not running before.
    fn start(&mut self) -> (r: bool)
        ensures
            r == !old(self).running_spec(),
            final(self).running_spec(),
            final(self).description_spec() == old(self).description_spec();

    /// Stops the pipeline; true when it was running before.
    fn stop(&mut self) -> (r: bool)
        ensures
            r == old(self).running_spec(),
            !final(self).running_spec(),
            final(self).description_spec() == old(self).description_spec();

    fn is_running(&self) -> (r: bool)
        ensures
            r == self.running_spec();

    /// Stops and starts the pipeline again.
    fn restart(&mut self)
        ensures
            final(self).running_spec(),
            final(self).description_spec() == old(self).description_spec();

    /// Replaces the pipeline description; a running pipeline keeps running.
    fn set_pipeline_description(&mut self, description: &str)
        ensures
            final(self).description_spec() == description@,
            final(self).running_spec() == old(self).running_spec();

    fn pipeline(&self) -> (r: String)
        ensures
            r@ == self.description_spec();
}

impl StreamBackend for VideoStreamUdp {
    open spec fn running_spec(&self) -> bool {
        self.running
    }

    open spec fn description_spec(&self) -> Seq<char> {
        self.pipeline_description@
    }

    fn start(&mut self) -> (r: bool) {
        let was = self.running;
        self.running = true;
        !was
    }

    fn stop(&mut self) -> (r: bool) {
        let was = self.running;
        self.running = false;
        was
    }

    fn is_running(&self) -> (r: bool) {
        self.running
    }

    fn restart(&mut self) {
        self.stop();
        self.start();
    }

    fn set_pipeline_description(&mut self, description: &str) {
        self.pipeline_description = description.to_owned();
    }

    fn pipeline(&self) -> (r: String) {
        self.pipeline_description.clone()
    }
}

} // verus!
