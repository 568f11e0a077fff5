use mavlink_camera_manager::endpoint::Endpoint;
use mavlink_camera_manager::info::{CaptureConfiguration, StreamInformation, VideoAndStreamInformation};
use mavlink_camera_manager::pipeline::{
    runner_step, shutdown_poll, FilePipeline, FilePipelineError, PipelineRunner, RunnerAction, RunnerEvent, RunnerPhase,
};
use mavlink_camera_manager::stream::PipelineState;
use mavlink_camera_manager::source::{VideoCaptureConfiguration, VideoSourceFile, VideoSourceType};
use mavlink_camera_manager::types::{FrameInterval, VideoEncodeType};

fn file_info(stream_encode: VideoEncodeType, file_encode: VideoEncodeType, width: u32) -> VideoAndStreamInformation {
    VideoAndStreamInformation {
        name: "F".into(),
        stream_information: StreamInformation {
            endpoints: vec![Endpoint::parse("webrtc://0.0.0.0/f").unwrap()],
            configuration: CaptureConfiguration {
                encode: stream_encode,
                height: 480,
                width,
                frame_interval: FrameInterval { numerator: 1, denominator: 30 },
            },
        },
        video_source: VideoSourceType::File(VideoSourceFile {
            name: "logo.png".into(),
            source: "/images/logo.png".into(),
            configuration: VideoCaptureConfiguration {
                encode: file_encode,
                height: 10,
                width: 10,
                frame_interval: FrameInterval { numerator: 1, denominator: 1 },
            },
        }),
    }
}

#[test]
fn file_pipeline_names_its_tees() {
    let p = FilePipeline::try_new(1, &file_info(VideoEncodeType::Unknown("image/png".into()), VideoEncodeType::H264, 640)).unwrap();
    assert_eq!(p.video_tee_name, "VideoTee-00000000-0000-0000-0000-000000000001");
    assert_eq!(p.rtp_tee_name, "RTPTee-00000000-0000-0000-0000-000000000001");
    assert_eq!(
        p.description,
        "multifilesrc location=/images/logo.png ! decodebin ! videoconvert ! imagefreeze ! videobox ! video/x-raw,format=I420,width=640,height=480,framerate=30/1 ! x264enc ! capsfilter name=Filter-00000000-0000-0000-0000-000000000001 caps=video/x-h264,width=640,height=480,framerate=30/1 ! tee name=VideoTee-00000000-0000-0000-0000-000000000001 allow-not-linked=true ! rtph264pay config-interval=1 pt=96 ! tee name=RTPTee-00000000-0000-0000-0000-000000000001 allow-not-linked=true"
    );
}

#[test]
fn file_pipeline_refusals() {
    assert_eq!(FilePipeline::try_new(1, &file_info(VideoEncodeType::Unknown("image/png".into()), VideoEncodeType::H264, 641)).unwrap_err(), FilePipelineError::InvalidDimensions);
    assert_eq!(FilePipeline::try_new(1, &file_info(VideoEncodeType::H264, VideoEncodeType::Unknown("image/png".into()), 640)).unwrap_err(), FilePipelineError::UnsupportedFormat);
    let mut i = file_info(VideoEncodeType::Unknown("image/png".into()), VideoEncodeType::H264, 640);
    i.video_source = VideoSourceType::Redirect(mavlink_camera_manager::source::VideoSourceRedirect {
        name: "r".into(),
        source: mavlink_camera_manager::source::VideoSourceRedirectType::Redirect("Redirect".into()),
    });
    assert_eq!(FilePipeline::try_new(1, &i).unwrap_err(), FilePipelineError::UnsupportedSource);
}

#[test]
fn runner_description() {
    let mut r = PipelineRunner::default();
    assert!(r.pipeline().starts_with("videotestsrc ! video/x-raw,width=640,height=480"));
    r.set_pipeline("fakesrc ! fakesink");
    assert_eq!(r.pipeline(), "fakesrc ! fakesink");
}

#[test]
fn fraction_to_interval() {
    assert_eq!(FrameInterval::from_fraction(30, 1), FrameInterval { numerator: 30, denominator: 1 });
}

#[test]
fn runner_restarts_after_end_or_error() {
    assert_eq!(runner_step(RunnerPhase::Idle, RunnerEvent::Nothing), (RunnerPhase::Running, RunnerAction::SetPlaying));
    assert_eq!(runner_step(RunnerPhase::Running, RunnerEvent::Other), (RunnerPhase::Running, RunnerAction::ReadBus));
    assert_eq!(runner_step(RunnerPhase::Running, RunnerEvent::Eos), (RunnerPhase::Stopped, RunnerAction::SetNull));
    assert_eq!(runner_step(RunnerPhase::Running, RunnerEvent::Error), (RunnerPhase::Stopped, RunnerAction::SetNull));
    assert_eq!(runner_step(RunnerPhase::Stopped, RunnerEvent::Nothing), (RunnerPhase::Idle, RunnerAction::SleepMs(100)));
}

#[test]
fn shutdown_polls_until_null() {
    assert_eq!(shutdown_poll(PipelineState::Playing), Some(100));
    assert_eq!(shutdown_poll(PipelineState::Null), None);
}
