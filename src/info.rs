//! What a stream is made of: its name, source, endpoints and capture
//! configuration, and the rules by which two streams conflict.
use vstd::prelude::*;
use crate::endpoint::{Endpoint, copy_endpoints, opt_view};
use crate::source::VideoSourceType;
use crate::types::{FrameInterval, VideoEncodeType};

verus! {

/// Encoding, frame size and rate a stream is captured with.
#[derive(Clone, Debug, PartialEq, Eq)]
pub struct CaptureConfiguration {
    pub encode: VideoEncodeType,
    pub height: u32,
    pub width: u32,
    pub frame_interval: FrameInterval,
}

impl CaptureConfiguration {
    /// A copy of this configuration.
    pub fn copy(&self) -> (r: CaptureConfiguration)
        ensures
            r == *self,
    {
        CaptureConfiguration {
            encode: self.encode.copy(),
            height: self.height,
            width: self.width,
            frame_interval: self.frame_interval,
        }
    }
}

/// Where and how a stream is served.
#[derive(Clone, Debug, PartialEq, Eq)]
pub struct StreamInformation {
    pub endpoints: Vec<Endpoint>,
    pub configuration: CaptureConfiguration,
}

/// A stream's full description.
#[derive(Clone, Debug, PartialEq, Eq)]
pub struct VideoAndStreamInformation {
    pub name: String,
    pub stream_information: StreamInformation,
    pub video_source: VideoSourceType,
}

/// Mathematical form of a stream's description.
pub ghost struct InfoView {
    pub name: Seq<char>,
    pub endpoints: Seq<Endpoint>,
    pub configuration: CaptureConfiguration,
    pub video_source: VideoSourceType,
}

impl View for VideoAndStreamInformation {
    type V = InfoView;

    open spec fn view(&self) -> InfoView {
        InfoView {
            name: self.name@,
            endpoints: self.stream_information.endpoints@,
            configuration: self.stream_information.configuration,
            video_source: self.video_source,
        }
    }
}

/// Why two streams cannot coexist.
#[derive(Clone, Copy, Debug, PartialEq, Eq, Structural)]
pub enum ConflictError {
    Name,
    Endpoint,
}

/// Two endpoints name the same host and port.
pub open spec fn same_host_port(a: Endpoint, b: Endpoint) -> bool {
    &&& a.host is Some
    &&& a.port is Some
    &&& opt_view(a.host) == opt_view(b.host)
    &&& a.port == b.port
}

/// Some endpoint of `a` shares its host and port with some endpoint of `b`.
pub open spec fn endpoints_overlap(a: Seq<Endpoint>, b: Seq<Endpoint>) -> bool {
    exists|i: int, j: int| 0 <= i < a.len() && 0 <= j < b.len() && same_host_port(#[trigger] a[i], #[trigger] b[j])
}

/// How a new stream `b` conflicts with an existing stream `a`, if it does:
/// a shared name comes first, then a shared host and port.
pub open spec fn conflict_of(a: InfoView, b: InfoView) -> Option<ConflictError> {
    if a.name == b.name {
        Some(ConflictError::Name)
    } else if endpoints_overlap(a.endpoints, b.endpoints) {
        Some(ConflictError::Endpoint)
    } else {
        None
    }
}

fn same_endpoint(a: &Endpoint, b: &Endpoint) -> (r: bool)
    ensures
        r == same_host_port(*a, *b),
{
    match (&a.host, &b.host, a.port, b.port) {
        (Some(ha), Some(hb), Some(pa), Some(pb)) => *ha == *hb && pa == pb,
        _ => false,
    }
}

fn overlap(a: &Vec<Endpoint>, b: &Vec<Endpoint>) -> (r: bool)
    ensures
        r == endpoints_overlap(a@, b@),
{
    let mut i: usize = 0;
    while i < a.len()
        invariant
            i <= a.len(),
            forall|x: int, y: int| 0 <= x < i && 0 <= y < b@.len() ==> !same_host_port(#[trigger] a@[x], #[trigger] b@[y]),
        decreases a.len() - i,
    {
        let mut j: usize = 0;
        while j < b.len()
            invariant
                i < a.len(),
                j <= b.len(),
                forall|x: int, y: int| 0 <= x < i && 0 <= y < b@.len() ==> !same_host_port(#[trigger] a@[x], #[trigger] b@[y]),
                forall|y: int| 0 <= y < j ==> !same_host_port(a@[i as int], #[trigger] b@[y]),
            decreases b.len() - j,
        {
            if same_endpoint(&a[i], &b[j]) {
                return true;
            }
            j = j + 1;
        }
        i = i + 1;
    }
    false
}

impl VideoAndStreamInformation {
    /// A copy of this description.
    pub fn copy(&self) -> (r: VideoAndStreamInformation)
        ensures
            r@ == self@,
    {
        VideoAndStreamInformation {
            name: self.name.clone(),
            stream_information: StreamInformation {
                endpoints: copy_endpoints(&self.stream_information.endpoints),
                configuration: self.stream_information.configuration.copy(),
            },
            video_source: self.video_source.copy(),
        }
    }

    /// Whether `other` may be added beside this stream: not under the same
    /// name, and on no host and port this stream already serves.
    pub fn conflicts_with(&self, other: &VideoAndStreamInformation) -> (r: Result<(), ConflictError>)
        ensures
            match conflict_of(self@, other@) {
                Some(e) => r == Err::<(), ConflictError>(e),
                None => r is Ok,
            },
    {
        if self.name == other.name {
            return Err(ConflictError::Name);
        }
        if overlap(&self.stream_information.endpoints, &other.stream_information.endpoints) {
            return Err(ConflictError::Endpoint);
        }
        Ok(())
    }
}

} // verus!
