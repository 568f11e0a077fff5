//! Request bodies of the control API and the decisions behind its routes.
use vstd::prelude::*;
use crate::info::{StreamInformation, VideoAndStreamInformation};
use crate::manager::{Manager, ManagerError, add_result};
use crate::source::{ControlError, VideoSourceType, get_video_source, source_text};

verus! {

/// Body of a request to set a device control.
#[derive(Debug)]
pub struct V4lControl {
    pub device: String,
    pub v4l_id: u64,
    pub value: i64,
}

/// Body of a request to create a stream.
#[derive(Debug)]
pub struct PostStream {
    pub name: String,
    pub source: String,
    pub stream_information: StreamInformation,
}

/// Query of a request to remove a stream.
#[derive(Debug)]
pub struct RemoveStream {
    pub name: String,
}

/// Query of a request for a device descriptor.
#[derive(Debug)]
pub struct XmlFileRequest {
    pub file: String,
}

/// Why a stream request was refused.
#[derive(Clone, Copy, Debug, PartialEq, Eq, Structural)]
pub enum PostError {
    SourceNotFound,
    Rejected(ManagerError),
}

/// Why a control request was refused.
#[derive(Clone, Copy, Debug, PartialEq, Eq, Structural)]
pub enum ControlRequestError {
    SourceNotFound,
    Unsupported(ControlError),
}

/// Whether some available source has this source text.
pub open spec fn source_listed(available: Seq<VideoSourceType>, source: Seq<char>) -> bool {
    exists|i: int| 0 <= i < available.len() && source_text(#[trigger] available[i]) == source
}

/// Creates the stream a request describes, on the first available source
/// with the requested source text, under `id`.
pub fn streams_post(manager: &mut Manager, available: &Vec<VideoSourceType>, post: PostStream, id: u128) -> (r: Result<u128, PostError>)
    requires
        old(manager).wf(),
    ensures
        final(manager).wf(),
        !source_listed(available@, post.source@) ==> r == Err::<u128, PostError>(PostError::SourceNotFound)
            && final(manager).streams@ == old(manager).streams@,
        source_listed(available@, post.source@) ==> exists|i: int| 0 <= i < available@.len()
            && source_text(#[trigger] available@[i]) == post.source@
            && ({
                let info = crate::info::InfoView {
                    name: post.name@,
                    endpoints: post.stream_information.endpoints@,
                    configuration: post.stream_information.configuration,
                    video_source: available@[i],
                };
                match add_result(old(manager).streams@, info, id) {
                    Ok(_) => r == Ok::<u128, PostError>(id) && final(manager).streams@.len() == old(manager).streams@.len() + 1
                        && final(manager).streams@.drop_last() == old(manager).streams@
                        && final(manager).streams@.last().id == id
                        && final(manager).streams@.last().video_and_stream_information@ == info,
                    Err(e) => r == Err::<u128, PostError>(PostError::Rejected(e)) && final(manager).streams@ == old(manager).streams@,
                }
            }),
{
    let video_source = match get_video_source(available, post.source.as_str()) {
        None => {
            return Err(PostError::SourceNotFound);
        },
        Some(s) => s,
    };
    let info = VideoAndStreamInformation {
        name: post.name,
        stream_information: post.stream_information,
        video_source,
    };
    match manager.add_stream(info, id) {
        Ok(id) => Ok(id),
        Err(e) => Err(PostError::Rejected(e)),
    }
}

/// Whether a control may be set on the device a request names: it must be
/// an available local device.
pub fn v4l_post(available: &Vec<VideoSourceType>, control: &V4lControl) -> (r: Result<(), ControlRequestError>)
    ensures
        !source_listed(available@, control.device@) ==> r == Err::<(), ControlRequestError>(ControlRequestError::SourceNotFound),
        source_listed(available@, control.device@) ==> exists|i: int| 0 <= i < available@.len()
            && source_text(#[trigger] available@[i]) == control.device@
            && (forall|j: int| 0 <= j < i ==> source_text(#[trigger] available@[j]) != control.device@)
            && (r is Ok <==> available@[i] is Local)
            && (r is Err ==> r == Err::<(), ControlRequestError>(ControlRequestError::Unsupported(ControlError::UnsupportedControl))),
{
    match get_video_source(available, control.device.as_str()) {
        None => Err(ControlRequestError::SourceNotFound),
        Some(s) => match s.check_control() {
            Ok(()) => Ok(()),
            Err(e) => Err(ControlRequestError::Unsupported(e)),
        },
    }
}

} // verus!
