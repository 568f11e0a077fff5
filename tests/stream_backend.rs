use mavlink_camera_manager::backend::{
    create_stream, new, BackendError, BuildError, StreamBackend, StreamType, ValidationError,
};
use mavlink_camera_manager::endpoint::Endpoint;
use mavlink_camera_manager::info::{CaptureConfiguration, StreamInformation, VideoAndStreamInformation};
use mavlink_camera_manager::source::{
    VideoCaptureConfiguration, VideoSourceFile, VideoSourceGst, VideoSourceGstType, VideoSourceLocal,
    VideoSourceLocalType, VideoSourceRedirect, VideoSourceRedirectType, VideoSourceType,
};
use mavlink_camera_manager::types::{FrameInterval, VideoEncodeType};

fn local(device: &str) -> VideoSourceType {
    VideoSourceType::Local(VideoSourceLocal {
        name: "PotatoCam".into(),
        device_path: device.into(),
        typ: VideoSourceLocalType::Unknown("TestPotatoCam".into()),
    })
}

fn info(endpoints: &[&str], encode: VideoEncodeType, width: u32, height: u32, source: VideoSourceType) -> VideoAndStreamInformation {
    VideoAndStreamInformation {
        name: "Test".into(),
        stream_information: StreamInformation {
            endpoints: endpoints.iter().map(|e| Endpoint::parse(e).unwrap()).collect(),
            configuration: CaptureConfiguration {
                encode,
                height,
                width,
                frame_interval: FrameInterval { numerator: 1, denominator: 30 },
            },
        },
        video_source: source,
    }
}

fn validation(i: &VideoAndStreamInformation) -> Option<ValidationError> {
    match new(i) {
        Err(BackendError::Validation(e)) => Some(e),
        _ => None,
    }
}

#[test]
fn test_udp() {
    let result = create_stream(&VideoAndStreamInformation {
        name: "Test".into(),
        stream_information: StreamInformation {
            endpoints: vec![Endpoint::parse("udp://192.168.0.1:42").unwrap()],
            configuration: CaptureConfiguration {
                encode: VideoEncodeType::H264,
                height: 720,
                width: 1080,
                frame_interval: FrameInterval {
                    numerator: 1,
                    denominator: 30,
                },
            },
        },
        video_source: VideoSourceType::Local(VideoSourceLocal {
            name: "PotatoCam".into(),
            device_path: "/dev/video42".into(),
            typ: VideoSourceLocalType::Unknown("TestPotatoCam".into()),
        }),
    });

    assert!(result.is_ok());
    let result = result.unwrap();

    let StreamType::UDP(video_stream_udp) = result;
    assert_eq!(video_stream_udp.pipeline(), "v4l2src device=/dev/video42 ! video/x-h264,width=1080,height=720,framerate=30/1 ! h264parse ! queue ! rtph264pay config-interval=10 pt=96 ! multiudpsink clients=192.168.0.1:42");
}

#[test]
fn udp_clients_are_joined_by_commas() {
    let i = info(&["udp://10.0.0.1:5600", "udp://10.0.0.2:5601"], VideoEncodeType::H264, 640, 480, local("/dev/video0"));
    let StreamType::UDP(s) = new(&i).unwrap();
    assert!(s.pipeline().ends_with("multiudpsink clients=10.0.0.1:5600,10.0.0.2:5601"));
}

#[test]
fn fake_source_pipeline() {
    let src = VideoSourceType::Gst(VideoSourceGst { name: "Fake".into(), source: VideoSourceGstType::Fake("ball".into()) });
    let i = info(&["udp://10.0.0.1:5600"], VideoEncodeType::H264, 320, 240, src);
    let StreamType::UDP(s) = new(&i).unwrap();
    assert_eq!(s.pipeline(), "videotestsrc pattern=ball ! video/x-raw,width=320,height=240,framerate=30/1 ! videoconvert !  x264enc bitrate=5000 ! video/x-h264, profile=baseline ! h264parse ! queue ! rtph264pay config-interval=10 pt=96 ! multiudpsink clients=10.0.0.1:5600");
}

fn file_source(encode: VideoEncodeType) -> VideoSourceType {
    VideoSourceType::File(VideoSourceFile {
        name: "pic.png".into(),
        source: "/videos/pic.png".into(),
        configuration: VideoCaptureConfiguration {
            encode,
            height: 100,
            width: 100,
            frame_interval: FrameInterval { numerator: 1, denominator: 1 },
        },
    })
}

#[test]
fn image_stream_from_file_is_not_sent_over_udp() {
    let mut i = info(&["udp://10.0.0.1:5600"], VideoEncodeType::Unknown("image/png".into()), 640, 480, file_source(VideoEncodeType::H264));
    assert!(matches!(create_stream(&i), Err(BuildError::UnsupportedEncode)));
    i.stream_information.configuration.encode = VideoEncodeType::H264;
    assert!(matches!(create_stream(&i), Err(BuildError::UnsupportedFormat)));
}

#[test]
fn file_encoding_does_not_decide() {
    let i = info(&["udp://10.0.0.1:5600"], VideoEncodeType::H264, 640, 480, file_source(VideoEncodeType::Unknown("Image/PNG".into())));
    assert!(matches!(new(&i), Err(BackendError::Build(BuildError::UnsupportedFormat))));
}

#[test]
fn redirect_source_is_not_built() {
    let src = VideoSourceType::Redirect(VideoSourceRedirect { name: "r".into(), source: VideoSourceRedirectType::Redirect("Redirect".into()) });
    let i = info(&["udp://10.0.0.1:5600"], VideoEncodeType::H264, 640, 480, src);
    assert!(matches!(new(&i), Err(BackendError::Build(BuildError::UnsupportedSource))));
}

#[test]
fn width_zero_rejected() {
    let i = info(&["udp://10.0.0.1:5600"], VideoEncodeType::H264, 0, 480, local("/dev/video0"));
    assert_eq!(validation(&i), Some(ValidationError::InvalidDimensions));
}

#[test]
fn odd_width_rejected() {
    let i = info(&["udp://10.0.0.1:5600"], VideoEncodeType::H264, 1081, 720, local("/dev/video0"));
    assert_eq!(validation(&i), Some(ValidationError::InvalidDimensions));
}

#[test]
fn empty_endpoints_rejected() {
    let i = info(&[], VideoEncodeType::H264, 640, 480, local("/dev/video0"));
    assert_eq!(validation(&i), Some(ValidationError::EmptyEndpoints));
}

#[test]
fn udp_endpoint_missing_port_rejected() {
    let i = info(&["udp://192.168.0.1"], VideoEncodeType::H264, 640, 480, local("/dev/video0"));
    assert_eq!(validation(&i), Some(ValidationError::MissingHostOrPort));
}

#[test]
fn rtsp_with_two_endpoints_rejected() {
    let i = info(&["rtsp://0.0.0.0:8554/a", "rtsp://0.0.0.0:8554/b"], VideoEncodeType::H264, 640, 480, local("/dev/video0"));
    assert_eq!(validation(&i), Some(ValidationError::MultipleRtspEndpoints));
}

#[test]
fn mixed_schemes_rejected() {
    let i = info(&["udp://10.0.0.1:5600", "rtsp://0.0.0.0:8554/a"], VideoEncodeType::H264, 640, 480, local("/dev/video0"));
    assert_eq!(validation(&i), Some(ValidationError::MixedSchemes));
}

#[test]
fn unknown_encode_rejected() {
    let i = info(&["udp://10.0.0.1:5600"], VideoEncodeType::Unknown("xyz".into()), 640, 480, local("/dev/video0"));
    assert_eq!(validation(&i), Some(ValidationError::UnsupportedEncode));
}

#[test]
fn encode_must_match_scheme() {
    let i = info(&["udp265://10.0.0.1:5600"], VideoEncodeType::H264, 640, 480, local("/dev/video0"));
    assert_eq!(validation(&i), Some(ValidationError::EncodeSchemeMismatch));
    let i = info(&["udp://10.0.0.1:5600"], VideoEncodeType::H265, 640, 480, local("/dev/video0"));
    assert_eq!(validation(&i), Some(ValidationError::EncodeSchemeMismatch));
}

#[test]
fn unknown_scheme_rejected() {
    let i = info(&["http://10.0.0.1:5600"], VideoEncodeType::H264, 640, 480, local("/dev/video0"));
    assert_eq!(validation(&i), Some(ValidationError::UnsupportedScheme));
}

#[test]
fn valid_rtsp_is_not_built() {
    let i = info(&["rtsp://0.0.0.0:8554/a"], VideoEncodeType::H264, 640, 480, local("/dev/video0"));
    assert!(matches!(new(&i), Err(BackendError::Build(BuildError::UnsupportedScheme))));
}

#[test]
fn backend_start_stop() {
    let i = info(&["udp://10.0.0.1:5600"], VideoEncodeType::H264, 640, 480, local("/dev/video0"));
    let StreamType::UDP(mut s) = new(&i).unwrap();
    assert!(!s.is_running());
    assert!(s.start());
    assert!(!s.start());
    assert!(s.is_running());
    s.set_pipeline_description("fakesrc ! fakesink");
    assert!(s.is_running());
    assert_eq!(s.pipeline(), "fakesrc ! fakesink");
    assert!(s.stop());
    assert!(!s.is_running());
    s.restart();
    assert!(s.is_running());
}
