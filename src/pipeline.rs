//! Pipeline descriptions with named fan-out points, and the runner's
//! description holder.
use vstd::prelude::*;
use crate::backend::{build_file_segment, check_image_stream, dimensions_ok, file_segment, is_image_stream};
use crate::info::{InfoView, VideoAndStreamInformation};
use crate::source::VideoSourceType;
use crate::text::{decimal, digit_char, push_decimal, push_str};
use vstd::arithmetic::power::pow;

verus! {

/// The lower-case hexadecimal digit of `d`, for `d` below 16.
pub open spec fn hex_char(d: int) -> char {
    if d < 10 {
        digit_char(d as nat)
    } else if d == 10 {
        'a'
    } else if d == 11 {
        'b'
    } else if d == 12 {
        'c'
    } else if d == 13 {
        'd'
    } else if d == 14 {
        'e'
    } else {
        'f'
    }
}

/// Hexadecimal digit `j` of an id, the most significant first.
pub open spec fn id_nibble(id: u128, j: int) -> int {
    (id as int / pow(16, (31 - j) as nat)) % 16
}

/// Which hexadecimal digit stands at character `k` of the hyphenated form.
pub open spec fn hex_position(k: int) -> int {
    if k < 8 {
        k
    } else if k < 13 {
        k - 1
    } else if k < 18 {
        k - 2
    } else if k < 23 {
        k - 3
    } else {
        k - 4
    }
}

/// The hyphenated form of an id: its 32 lower-case hexadecimal digits,
/// most significant first, with a hyphen after the 8th, 12th, 16th and
/// 20th.
pub open spec fn uuid_text(id: u128) -> Seq<char> {
    Seq::new(36, |k: int| if k == 8 || k == 13 || k == 18 || k == 23 {
        '-'
    } else {
        hex_char(id_nibble(id, hex_position(k)))
    })
}

/// Relies on uuid::Uuid::from_u128, which takes the id's bytes most
/// significant first, and on its Display, which writes them as hyphenated
/// lower-case hexadecimal.
#[verifier::external_body]
fn uuid_string(id: u128) -> (r: String)
    ensures
        r@ == uuid_text(id),
{
    uuid::Uuid::from_u128(id).to_string()
}

/// Why a file pipeline could not be described.
#[derive(Clone, Copy, Debug, PartialEq, Eq, Structural)]
pub enum FilePipelineError {
    UnsupportedSource,
    InvalidDimensions,
    UnsupportedFormat,
}

/// Name of the caps filter of pipeline `id`.
pub open spec fn filter_name(id: u128) -> Seq<char> {
    "Filter-"@ + uuid_text(id)
}

/// Name of the tee after the encoder of pipeline `id`.
pub open spec fn video_tee_name(id: u128) -> Seq<char> {
    "VideoTee-"@ + uuid_text(id)
}

/// Name of the tee after the payloader of pipeline `id`, where sinks are
/// attached.
pub open spec fn rtp_tee_name(id: u128) -> Seq<char> {
    "RTPTee-"@ + uuid_text(id)
}

/// The description of the pipeline that streams an image file: the file is
/// decoded, frozen, scaled and encoded to H.264, then fanned out twice, by
/// two named tees, before and after the RTP payloader.
pub open spec fn file_description(id: u128, i: InfoView, segment: Seq<char>) -> Seq<char> {
    segment + " ! capsfilter name="@ + filter_name(id) + " caps=video/x-h264,width="@
        + decimal(i.configuration.width as nat) + ",height="@ + decimal(i.configuration.height as nat)
        + ",framerate=30/1 ! tee name="@ + video_tee_name(id)
        + " allow-not-linked=true ! rtph264pay config-interval=1 pt=96 ! tee name="@ + rtp_tee_name(id)
        + " allow-not-linked=true"@
}

/// What describing the file pipeline `id` for a stream gives: the source
/// must be a file, the frame size even, and the stream's own encoding an
/// image one, whatever encoding the file itself was probed with.
pub open spec fn file_pipeline_result(id: u128, i: InfoView) -> Result<Seq<char>, FilePipelineError> {
    match i.video_source {
        VideoSourceType::File(f) => if !dimensions_ok(i.configuration.width, i.configuration.height) {
            Err(FilePipelineError::InvalidDimensions)
        } else if !is_image_stream(i) {
            Err(FilePipelineError::UnsupportedFormat)
        } else {
            Ok(file_description(id, i, file_segment(f.source@, i)))
        },
        _ => Err(FilePipelineError::UnsupportedSource),
    }
}

/// The pipeline of a stream whose source is an image file.
#[derive(Debug)]
pub struct FilePipeline {
    pub description: String,
    pub video_tee_name: String,
    pub rtp_tee_name: String,
}

impl FilePipeline {
    /// Describes the pipeline `pipeline_id` for a stream from an image
    /// file, naming its tees after the pipeline.
    pub fn try_new(pipeline_id: u128, video_and_stream_information: &VideoAndStreamInformation) -> (r: Result<FilePipeline, FilePipelineError>)
        ensures
            match r {
                Ok(p) => file_pipeline_result(pipeline_id, video_and_stream_information@) == Ok::<Seq<char>, FilePipelineError>(p.description@)
                    && p.video_tee_name@ == video_tee_name(pipeline_id)
                    && p.rtp_tee_name@ == rtp_tee_name(pipeline_id),
                Err(e) => file_pipeline_result(pipeline_id, video_and_stream_information@) == Err::<Seq<char>, FilePipelineError>(e),
            },
    {
        let info = video_and_stream_information;
        let source = match &info.video_source {
            VideoSourceType::File(f) => f.source.as_str(),
            _ => {
                return Err(FilePipelineError::UnsupportedSource);
            },
        };
        let c = &info.stream_information.configuration;
        if c.width == 0 || c.height == 0 || c.width % 2 != 0 || c.height % 2 != 0 {
            return Err(FilePipelineError::InvalidDimensions);
        }
        if !check_image_stream(info) {
            return Err(FilePipelineError::UnsupportedFormat);
        }
        let mut d = build_file_segment(source, info);
        let ghost seg = d@;
        let id_text = uuid_string(pipeline_id);
        let mut filter = String::new();
        push_str(&mut filter, "Filter-");
        push_str(&mut filter, id_text.as_str());
        let mut video_tee = String::new();
        push_str(&mut video_tee, "VideoTee-");
        push_str(&mut video_tee, id_text.as_str());
        let mut rtp_tee = String::new();
        push_str(&mut rtp_tee, "RTPTee-");
        push_str(&mut rtp_tee, id_text.as_str());
        push_str(&mut d, " ! capsfilter name=");
        push_str(&mut d, filter.as_str());
        push_str(&mut d, " caps=video/x-h264,width=");
        push_decimal(&mut d, c.width);
        push_str(&mut d, ",height=");
        push_decimal(&mut d, c.height);
        push_str(&mut d, ",framerate=30/1 ! tee name=");
        push_str(&mut d, video_tee.as_str());
        push_str(&mut d, " allow-not-linked=true ! rtph264pay config-interval=1 pt=96 ! tee name=");
        push_str(&mut d, rtp_tee.as_str());
        push_str(&mut d, " allow-not-linked=true");
        proof {
            assert(filter@ =~= filter_name(pipeline_id));
            assert(video_tee@ =~= video_tee_name(pipeline_id));
            assert(rtp_tee@ =~= rtp_tee_name(pipeline_id));
            assert(d@ =~= file_description(pipeline_id, info@, seg));
        }
        Ok(FilePipeline { description: d, video_tee_name: video_tee, rtp_tee_name: rtp_tee })
    }
}

/// Holds the description of a pipeline to run.
#[derive(Clone, Debug)]
pub struct PipelineRunner {
    pub pipeline: String,
}

impl Default for PipelineRunner {
    /// A synthetic test pattern sent over UDP.
    fn default() -> (r: PipelineRunner)
        ensures
            r.pipeline@ == "videotestsrc ! video/x-raw,width=640,height=480 ! videoconvert ! x264enc ! rtph264pay ! udpsink host=0.0.0.0 port=5600"@,
    {
        PipelineRunner {
            pipeline: "videotestsrc ! video/x-raw,width=640,height=480 ! videoconvert ! x264enc ! rtph264pay ! udpsink host=0.0.0.0 port=5600".to_owned(),
        }
    }
}

impl PipelineRunner {
    pub open spec fn description(&self) -> Seq<char> {
        self.pipeline@
    }

    /// Replaces the description to run.
    pub fn set_pipeline(&mut self, pipeline: &str)
        ensures
            final(self).description() == pipeline@,
    {
        self.pipeline = pipeline.to_owned();
    }

    /// The description to run.
    pub fn pipeline(&self) -> (r: &str)
        ensures
            r@ == self.description(),
    {
        self.pipeline.as_str()
    }
}

/// Where a pipeline runner is in its cycle.
#[derive(Clone, Copy, Debug, PartialEq, Eq, Structural)]
pub enum RunnerPhase {
    Idle,
    Running,
    Stopped,
}

/// What the media framework reported to a runner since its last action.
#[derive(Clone, Copy, Debug, PartialEq, Eq, Structural)]
pub enum RunnerEvent {
    Nothing,
    Eos,
    Error,
    Other,
}

/// What a runner asks the media framework to do next.
#[derive(Clone, Copy, Debug, PartialEq, Eq, Structural)]
pub enum RunnerAction {
    SetPlaying,
    ReadBus,
    SetNull,
    SleepMs(u64),
}

/// The runner's cycle: start playing; read the bus until an end of stream
/// or an error; then stop the pipeline, wait 100 ms and start again.
pub open spec fn runner_next(phase: RunnerPhase, event: RunnerEvent) -> (RunnerPhase, RunnerAction) {
    match phase {
        RunnerPhase::Idle => (RunnerPhase::Running, RunnerAction::SetPlaying),
        RunnerPhase::Running => match event {
            RunnerEvent::Eos | RunnerEvent::Error => (RunnerPhase::Stopped, RunnerAction::SetNull),
            _ => (RunnerPhase::Running, RunnerAction::ReadBus),
        },
        RunnerPhase::Stopped => (RunnerPhase::Idle, RunnerAction::SleepMs(100)),
    }
}

/// One step of a pipeline runner.
pub fn runner_step(phase: RunnerPhase, event: RunnerEvent) -> (r: (RunnerPhase, RunnerAction))
    ensures
        r == runner_next(phase, event),
{
    match phase {
        RunnerPhase::Idle => (RunnerPhase::Running, RunnerAction::SetPlaying),
        RunnerPhase::Running => match event {
            RunnerEvent::Eos | RunnerEvent::Error => (RunnerPhase::Stopped, RunnerAction::SetNull),
            _ => (RunnerPhase::Running, RunnerAction::ReadBus),
        },
        RunnerPhase::Stopped => (RunnerPhase::Idle, RunnerAction::SleepMs(100)),
    }
}

/// While a pipeline is being shut down its state is polled: another poll
/// after 100 ms until it has reached `Null`.
pub fn shutdown_poll(state: crate::stream::PipelineState) -> (r: Option<u64>)
    ensures
        r == (if state == crate::stream::PipelineState::Null { None::<u64> } else { Some(100u64) }),
{
    if state == crate::stream::PipelineState::Null {
        None
    } else {
        Some(100)
    }
}

} // verus!
