use mavlink_camera_manager::endpoint::Endpoint;
use mavlink_camera_manager::sink::{RtspSink, UdpSink, SinkError};
use mavlink_camera_manager::source::{
    get_video_source, ControlError, VideoSourceFile, VideoSourceLocal, VideoSourceLocalType, VideoSourceRedirect,
    VideoSourceRedirectType, VideoSourceType,
};
use mavlink_camera_manager::types::{ControlType, FrameInterval, VideoEncodeType};

#[test]
fn codec_names() {
    assert_eq!(VideoEncodeType::H264.to_codec().unwrap(), "video/x-h264");
    assert_eq!(VideoEncodeType::H265.to_codec().unwrap(), "video/x-h265");
    assert_eq!(VideoEncodeType::Mjpg.to_codec().unwrap(), "video/mpeg");
    assert_eq!(VideoEncodeType::Yuyv.to_codec().unwrap(), "video/x-raw,format=I420");
    assert_eq!(VideoEncodeType::Unknown("abc".into()).to_codec().unwrap_err().codec, "abc");
}

#[test]
fn codec_round_trip() {
    for e in [VideoEncodeType::H264, VideoEncodeType::H265, VideoEncodeType::Mjpg, VideoEncodeType::Yuyv] {
        assert_eq!(VideoEncodeType::from_codec(&e.to_codec().unwrap()), e);
    }
    assert_eq!(VideoEncodeType::from_codec("image/png"), VideoEncodeType::Unknown("image/png".into()));
}

#[test]
fn fourcc_in_any_case() {
    assert_eq!(VideoEncodeType::from_fourcc("H264"), VideoEncodeType::H264);
    assert_eq!(VideoEncodeType::from_fourcc("yuyv"), VideoEncodeType::Yuyv);
    assert_eq!(VideoEncodeType::from_fourcc("MJPG"), VideoEncodeType::Mjpg);
    assert_eq!(VideoEncodeType::from_fourcc("ABCD"), VideoEncodeType::Unknown("abcd".into()));
    assert_eq!("h265".parse::<VideoEncodeType>(), Ok(VideoEncodeType::H265));
}

#[test]
fn encode_names() {
    assert_eq!(VideoEncodeType::H264.name(), "video/x-h264");
    assert_eq!(VideoEncodeType::Unknown("Image/JPEG".into()).name(), "image/jpeg");
}

#[test]
fn endpoint_parts() {
    let e = Endpoint::parse("udp://192.168.0.1:42").unwrap();
    assert_eq!(e.scheme, "udp");
    assert_eq!(e.host.as_deref(), Some("192.168.0.1"));
    assert_eq!(e.port, Some(42));
    let e = Endpoint::parse("rtsp://0.0.0.0:8554/test").unwrap();
    assert_eq!(e.path, "/test");
    assert_eq!(e.as_str(), "rtsp://0.0.0.0:8554/test");
    assert!(Endpoint::parse("not a url").is_err());
}

#[test]
fn rtsp_sink_takes_first_rtsp_path() {
    let eps = vec![Endpoint::parse("udp://1.2.3.4:5").unwrap(), Endpoint::parse("rtsp://0.0.0.0:8554/cam").unwrap()];
    let mut s = RtspSink::try_new(7, &eps).unwrap();
    assert_eq!(s.path, "/cam");
    assert_eq!(s.get_id(), 7);
    assert_eq!(s.unlink(), None);
    assert!(s.link(3).is_ok());
    assert_eq!(s.link(4), Err(SinkError::AlreadyLinked));
    assert_eq!(s.unlink(), Some(3));
    assert_eq!(s.unlink(), None);
    let only_udp = vec![Endpoint::parse("udp://1.2.3.4:5").unwrap()];
    assert_eq!(RtspSink::try_new(7, &only_udp).unwrap_err(), SinkError::NoRtspAddress);
}

#[test]
fn udp_sink_clients() {
    let eps = vec![Endpoint::parse("udp://1.2.3.4:5").unwrap(), Endpoint::parse("udp://host:600").unwrap()];
    let s = UdpSink::try_new(1, &eps).unwrap();
    assert_eq!(s.clients, "1.2.3.4:5,host:600");
    let no_port = vec![Endpoint::parse("udp://1.2.3.4").unwrap()];
    assert_eq!(UdpSink::try_new(1, &no_port).unwrap_err(), SinkError::NoClients);
}

#[test]
fn redirect_sources() {
    let v = VideoSourceRedirect::cameras_available();
    assert_eq!(v.len(), 1);
    assert_eq!(v[0].name(), "Redirect source");
    assert_eq!(v[0].source_string(), "Redirect");
    let VideoSourceType::Redirect(r) = &v[0] else { panic!("not a redirect") };
    assert!(r.formats().is_empty());
    assert!(r.is_valid());
    assert_eq!(r.set_control_by_id(1, 1), Err(ControlError::UnsupportedControl));
}

#[test]
fn file_source_from_probe() {
    let f = VideoSourceFile::from_probe("/v/a.mp4", None, "video/x-h264", 1920, 1080, FrameInterval { numerator: 1, denominator: 30 });
    assert_eq!(f.name, "no-name");
    assert_eq!(f.configuration.encode, VideoEncodeType::H264);
    let formats = f.formats();
    assert_eq!(formats.len(), 1);
    assert_eq!(formats[0].sizes[0].width, 1920);
    assert_eq!(formats[0].sizes[0].intervals, vec![FrameInterval { numerator: 1, denominator: 30 }]);
    assert!(f.controls().is_empty());
    assert_eq!(f.control_value_by_name("x"), Err(ControlError::UnsupportedControl));
}

#[test]
fn source_lookup_and_controls() {
    let cam = VideoSourceType::Local(VideoSourceLocal { name: "cam".into(), device_path: "/dev/video0".into(), typ: VideoSourceLocalType::Usb("usb".into()) });
    let redirect = VideoSourceType::Redirect(VideoSourceRedirect { name: "onvif".into(), source: VideoSourceRedirectType::Onvif("rtsp://1.2.3.4/x".into()) });
    let available = vec![cam.clone(), redirect.clone()];
    assert_eq!(get_video_source(&available, "/dev/video0"), Some(cam.clone()));
    assert_eq!(get_video_source(&available, "rtsp://1.2.3.4/x"), Some(redirect.clone()));
    assert_eq!(get_video_source(&available, "/dev/video9"), None);
    assert!(cam.check_control().is_ok());
    assert_eq!(redirect.check_control(), Err(ControlError::UnsupportedControl));
}

#[test]
fn default_control_is_off() {
    match ControlType::default() {
        ControlType::Bool(b) => {
            assert_eq!(b.default, 0);
            assert_eq!(b.value, 0);
        }
        _ => panic!("not a boolean control"),
    }
}

#[test]
fn discovered_device_sources() {
    let urls = vec!["rtsp://10.0.0.5/main".to_string(), "rtsp://10.0.0.5/sub".to_string()];
    let named = VideoSourceRedirect::from_discovered(Some("Cam"), &urls);
    assert_eq!(named.len(), 2);
    assert_eq!(named[1].name(), "Cam");
    assert_eq!(named[1].source_string(), "rtsp://10.0.0.5/sub");
    let unnamed = VideoSourceRedirect::from_discovered(None, &urls);
    assert_eq!(unnamed[0].name(), "Unnamed");
}
