use mavlink_camera_manager::api::{streams_post, v4l_post, ControlRequestError, PostError, PostStream, V4lControl};
use mavlink_camera_manager::backend::{BackendError, ValidationError};
use mavlink_camera_manager::endpoint::Endpoint;
use mavlink_camera_manager::info::{CaptureConfiguration, ConflictError, StreamInformation, VideoAndStreamInformation};
use mavlink_camera_manager::manager::{Manager, ManagerError};
use mavlink_camera_manager::sink::{
    BindAnswer, BindOffer, Message, RTCSessionDescription, SdpType, SessionError, Sink, UdpSink, WebRtcState,
};
use mavlink_camera_manager::source::{ControlError, VideoSourceLocal, VideoSourceLocalType, VideoSourceRedirect, VideoSourceRedirectType, VideoSourceType};
use mavlink_camera_manager::stream::{LinkOutcome, PipelineState, Stream, StreamError};
use mavlink_camera_manager::types::{FrameInterval, VideoEncodeType};

fn video0() -> VideoSourceType {
    VideoSourceType::Local(VideoSourceLocal {
        name: "cam".into(),
        device_path: "/dev/video0".into(),
        typ: VideoSourceLocalType::Usb("usb".into()),
    })
}

fn stream_info(endpoint: &str, width: u32) -> StreamInformation {
    StreamInformation {
        endpoints: vec![Endpoint::parse(endpoint).unwrap()],
        configuration: CaptureConfiguration {
            encode: VideoEncodeType::H264,
            width,
            height: 720,
            frame_interval: FrameInterval { numerator: 1, denominator: 30 },
        },
    }
}

fn post_a(width: u32) -> PostStream {
    PostStream { name: "A".into(), source: "/dev/video0".into(), stream_information: stream_info("udp://192.168.0.1:42", width) }
}

fn info(name: &str, endpoint: &str) -> VideoAndStreamInformation {
    VideoAndStreamInformation { name: name.into(), stream_information: stream_info(endpoint, 1080), video_source: video0() }
}

fn with_a() -> (Manager, u128) {
    let mut m = Manager::new();
    let id = streams_post(&mut m, &vec![video0()], post_a(1080), 100).unwrap();
    (m, id)
}

fn sdp(kind: SdpType) -> RTCSessionDescription {
    RTCSessionDescription { kind, sdp: "v=0".into() }
}

fn webrtc_state(m: &Manager, producer: u128, session: u128) -> Option<WebRtcState> {
    let st = m.streams.iter().find(|s| s.id == producer)?;
    st.sinks.iter().find_map(|s| match s {
        Sink::WebRtc(w) if w.bind.session_id == session => Some(w.state),
        _ => None,
    })
}

#[test]
fn post_udp_h264_local() {
    let (m, id) = with_a();
    assert_eq!(id, 100);
    let d = &m.streams[0].pipeline.description;
    let a = d.find("v4l2src device=/dev/video0").unwrap();
    let b = d.find("width=1080,height=720,framerate=30/1").unwrap();
    let c = d.find("multiudpsink clients=192.168.0.1:42").unwrap();
    assert!(a < b && b < c);
    assert!(m.streams[0].is_running());
}

#[test]
fn post_validation_failure() {
    let mut m = Manager::new();
    let r = streams_post(&mut m, &vec![video0()], post_a(1081), 100);
    assert_eq!(r, Err(PostError::Rejected(ManagerError::Backend(BackendError::Validation(ValidationError::InvalidDimensions)))));
    assert!(m.streams.is_empty());
}

#[test]
fn post_name_conflict() {
    let (mut m, _) = with_a();
    let r = streams_post(&mut m, &vec![video0()], post_a(1080), 101);
    assert_eq!(r, Err(PostError::Rejected(ManagerError::Conflict(ConflictError::Name))));
    assert_eq!(m.streams.len(), 1);
}

#[test]
fn post_unknown_source() {
    let mut m = Manager::new();
    assert_eq!(streams_post(&mut m, &vec![], post_a(1080), 100), Err(PostError::SourceNotFound));
}

#[test]
fn endpoint_conflict() {
    let (mut m, _) = with_a();
    let r = m.add_stream(info("B", "udp://192.168.0.1:42"), 200);
    assert_eq!(r, Err(ManagerError::Conflict(ConflictError::Endpoint)));
    assert!(m.add_stream(info("B", "udp://192.168.0.1:43"), 200).is_ok());
}

#[test]
fn id_in_use() {
    let (mut m, _) = with_a();
    assert_eq!(m.add_stream(info("B", "udp://10.0.0.1:1"), 100), Err(ManagerError::IdInUse));
}

#[test]
fn listed_exactly_once() {
    let mut m = Manager::new();
    let id = m.add_stream_and_start(info("A", "udp://10.0.0.1:1")).unwrap();
    m.add_stream_and_start(info("B", "udp://10.0.0.1:2")).unwrap();
    let list = m.streams();
    assert_eq!(list.iter().filter(|s| s.video_and_stream.name == "A").count(), 1);
    let a = list.iter().find(|s| s.video_and_stream.name == "A").unwrap();
    assert_eq!(a.id, id);
    assert!(a.running);
}

#[test]
fn webrtc_handshake() {
    let (mut m, a) = with_a();
    let offer = BindOffer { producer_id: a, consumer_id: 7 };
    let bind = m.add_session_with_id(&offer, 55, LinkOutcome::Linked).unwrap();
    assert_eq!(bind, BindAnswer { producer_id: a, consumer_id: 7, session_id: 55 });
    assert_eq!(m.take_messages(&bind).unwrap(), vec![Message::BindAnswer(bind)]);
    m.on_local_description(&bind, &sdp(SdpType::Offer)).unwrap();
    m.on_local_ice(&bind, 0, "candidate:1 1 UDP 1 10.0.0.1 9 typ host").unwrap();
    let out = m.take_messages(&bind).unwrap();
    assert_eq!(out[0], Message::SessionDescription(bind, SdpType::Offer, "v=0".into()));
    assert!(matches!(&out[1], Message::IceCandidate(b, 0, c) if *b == bind && c.starts_with("candidate:")));
    assert_eq!(webrtc_state(&m, a, 55), Some(WebRtcState::LocalOffered));
    m.handle_sdp(&bind, &sdp(SdpType::Answer)).unwrap();
    assert_eq!(webrtc_state(&m, a, 55), Some(WebRtcState::Answered));
    m.on_connected(&bind).unwrap();
    assert_eq!(webrtc_state(&m, a, 55), Some(WebRtcState::Connected));
}

#[test]
fn session_on_unknown_producer() {
    let (mut m, _) = with_a();
    let offer = BindOffer { producer_id: 999, consumer_id: 7 };
    assert_eq!(m.add_session(&offer, LinkOutcome::Linked), Err(ManagerError::NotFound));
    let bind = BindAnswer { producer_id: 100, consumer_id: 7, session_id: 1 };
    assert_eq!(m.handle_sdp(&bind, &sdp(SdpType::Offer)), Err(ManagerError::SinkNotFound));
}

#[test]
fn teardown_while_connected() {
    let (mut m, a) = with_a();
    let bind = m.add_session(&BindOffer { producer_id: a, consumer_id: 7 }, LinkOutcome::Linked).unwrap();
    m.on_local_description(&bind, &sdp(SdpType::Offer)).unwrap();
    m.handle_sdp(&bind, &sdp(SdpType::Answer)).unwrap();
    let removed = m.remove_stream_by_name("A").unwrap();
    assert!(m.streams.is_empty());
    assert_eq!(removed.stream.pipeline.state, PipelineState::Null);
    assert!(removed.stream.pipeline.pads.is_empty());
    assert_eq!(removed.sinks.len(), 1);
    match &removed.sinks[0] {
        Sink::WebRtc(w) => {
            assert_eq!(w.state, WebRtcState::Closed);
            assert_eq!(w.tee_src_pad, None);
            assert_eq!(w.outbox.last(), Some(&Message::EndSession(bind, "Stream removed".into())));
        }
        _ => panic!("not a WebRTC sink"),
    }
}

#[test]
fn remove_stream_twice() {
    let (mut m, a) = with_a();
    assert!(m.remove_stream(a).is_ok());
    assert!(matches!(m.remove_stream(a), Err(ManagerError::NotFound)));
    assert!(m.streams().is_empty());
    assert!(matches!(m.remove_stream_by_name("A"), Err(ManagerError::NotFound)));
}

#[test]
fn remove_session_is_idempotent() {
    let (mut m, a) = with_a();
    let bind = m.add_session(&BindOffer { producer_id: a, consumer_id: 7 }, LinkOutcome::Linked).unwrap();
    let closed = m.remove_session(&bind, "bye").unwrap().unwrap();
    match closed {
        Sink::WebRtc(w) => {
            assert_eq!(w.state, WebRtcState::Closed);
            assert_eq!(w.tee_src_pad, None);
            assert_eq!(w.outbox.last(), Some(&Message::EndSession(bind, "bye".into())));
        }
        _ => panic!("not a WebRTC sink"),
    }
    assert!(m.streams[0].sinks.is_empty());
    assert!(m.streams[0].pipeline.pads.is_empty());
    assert!(m.remove_session(&bind, "bye").unwrap().is_none());
}

#[test]
fn ice_before_sdp_is_out_of_order() {
    let (mut m, a) = with_a();
    let bind = m.add_session(&BindOffer { producer_id: a, consumer_id: 7 }, LinkOutcome::Linked).unwrap();
    assert_eq!(m.handle_ice(&bind, 0, "candidate:1"), Err(ManagerError::Session(SessionError::OutOfOrder)));
    m.handle_sdp(&bind, &sdp(SdpType::Offer)).unwrap();
    assert_eq!(webrtc_state(&m, a, bind.session_id), Some(WebRtcState::RemoteOffered));
    m.handle_ice(&bind, 0, "candidate:1").unwrap();
    m.handle_ice(&bind, 0, "").unwrap();
    m.on_local_description(&bind, &sdp(SdpType::Answer)).unwrap();
    assert_eq!(webrtc_state(&m, a, bind.session_id), Some(WebRtcState::Answered));
    assert_eq!(m.handle_sdp(&bind, &sdp(SdpType::Offer)), Err(ManagerError::Session(SessionError::OutOfOrder)));
    m.on_failure(&bind).unwrap();
    assert_eq!(webrtc_state(&m, a, bind.session_id), Some(WebRtcState::Failed));
}

#[test]
fn failed_link_leaves_stream_unchanged() {
    let (mut m, a) = with_a();
    let r = m.add_session_with_id(&BindOffer { producer_id: a, consumer_id: 7 }, 9, LinkOutcome::LinkFailed);
    assert_eq!(r, Err(ManagerError::Stream(StreamError::LinkFailed)));
    assert!(m.streams[0].sinks.is_empty());
    assert!(m.streams[0].pipeline.pads.is_empty());
    assert_eq!(m.streams[0].pipeline.next_pad, 0);
}

#[test]
fn add_sink_is_atomic() {
    let mut st = Stream::new(1, info("S", "udp://10.0.0.1:1"), "desc".into());
    let eps = vec![Endpoint::parse("udp://10.0.0.9:9").unwrap()];
    assert!(st.add_sink(Sink::Udp(UdpSink::try_new(5, &eps).unwrap()), LinkOutcome::Linked).is_ok());
    assert_eq!(st.pipeline.pads, vec![0]);
    assert_eq!(st.add_sink(Sink::Udp(UdpSink::try_new(5, &eps).unwrap()), LinkOutcome::Linked), Err(StreamError::DuplicateSink));
    assert_eq!(st.add_sink(Sink::Udp(UdpSink::try_new(6, &eps).unwrap()), LinkOutcome::AddFailed), Err(StreamError::AddFailed));
    assert_eq!(st.sinks.len(), 1);
    assert_eq!(st.pipeline.pads, vec![0]);
    assert_eq!(st.pipeline.next_pad, 1);
    let s = st.remove_sink(5).unwrap();
    assert_eq!(s.tee_pad(), None);
    assert!(st.pipeline.pads.is_empty());
    assert!(matches!(st.remove_sink(5), Err(StreamError::SinkNotFound)));
}

#[test]
fn persist_then_reload() {
    let mut m = Manager::new();
    m.add_stream(info("A", "udp://10.0.0.1:1"), 1).unwrap();
    m.add_stream(info("B", "udp://10.0.0.1:2"), 2).unwrap();
    let stored = m.stream_infos();
    let mut fresh = Manager::new();
    fresh.start_default_with_ids(stored, &vec![true, true], &vec![11, 12]);
    let names: Vec<String> = fresh.streams().into_iter().map(|s| s.video_and_stream.name).collect();
    assert_eq!(names, vec!["A".to_string(), "B".to_string()]);
    assert_eq!(fresh.streams()[0].id, 11);
    assert_eq!(fresh.stream_infos(), m.stream_infos());
}

#[test]
fn reload_skips_unavailable_and_conflicting() {
    let mut m = Manager::new();
    m.add_stream(info("X", "udp://10.0.0.1:9"), 5).unwrap();
    let stored = vec![info("A", "udp://10.0.0.1:1"), info("B", "udp://10.0.0.1:2"), info("A", "udp://10.0.0.1:3")];
    m.start_default(stored, &vec![true, false, true]);
    let names: Vec<String> = m.streams().into_iter().map(|s| s.video_and_stream.name).collect();
    assert_eq!(names, vec!["A".to_string()]);
}

#[test]
fn control_requests() {
    let redirect = VideoSourceType::Redirect(VideoSourceRedirect { name: "r".into(), source: VideoSourceRedirectType::Redirect("Redirect".into()) });
    let available = vec![video0(), redirect];
    let ok = V4lControl { device: "/dev/video0".into(), v4l_id: 1, value: 2 };
    assert_eq!(v4l_post(&available, &ok), Ok(()));
    let on_redirect = V4lControl { device: "Redirect".into(), v4l_id: 1, value: 2 };
    assert_eq!(v4l_post(&available, &on_redirect), Err(ControlRequestError::Unsupported(ControlError::UnsupportedControl)));
    let missing = V4lControl { device: "/dev/video5".into(), v4l_id: 1, value: 2 };
    assert_eq!(v4l_post(&available, &missing), Err(ControlRequestError::SourceNotFound));
}

#[test]
fn removed_session_is_unreachable() {
    let (mut m, a) = with_a();
    let bind = m.add_session(&BindOffer { producer_id: a, consumer_id: 7 }, LinkOutcome::Linked).unwrap();
    assert_eq!(bind.producer_id, a);
    assert_eq!(bind.consumer_id, 7);
    assert_eq!(m.take_messages(&bind).unwrap(), vec![Message::BindAnswer(bind)]);
    m.remove_session(&bind, "bye").unwrap();
    assert_eq!(m.handle_sdp(&bind, &sdp(SdpType::Offer)), Err(ManagerError::SinkNotFound));
    assert_eq!(m.handle_ice(&bind, 0, "candidate:1"), Err(ManagerError::SinkNotFound));
}

#[test]
fn start_default_restores_with_distinct_ids() {
    let mut m = Manager::new();
    m.add_stream(info("A", "udp://10.0.0.1:1"), 1).unwrap();
    m.add_stream(info("B", "udp://10.0.0.1:2"), 2).unwrap();
    m.add_stream(info("C", "udp://10.0.0.1:3"), 3).unwrap();
    let mut fresh = Manager::new();
    fresh.start_default(m.stream_infos(), &vec![true, true, true]);
    assert_eq!(fresh.stream_infos(), m.stream_infos());
    let ids: Vec<u128> = fresh.streams().iter().map(|s| s.id).collect();
    assert_eq!(ids.len(), 3);
    assert!(ids[0] != ids[1] && ids[1] != ids[2] && ids[0] != ids[2]);
}

#[test]
fn add_session_reports_failed_link() {
    let (mut m, a) = with_a();
    let offer = BindOffer { producer_id: a, consumer_id: 7 };
    assert_eq!(m.add_session(&offer, LinkOutcome::AddFailed), Err(ManagerError::Stream(StreamError::AddFailed)));
    assert_eq!(m.add_session(&offer, LinkOutcome::LinkFailed), Err(ManagerError::Stream(StreamError::LinkFailed)));
    assert!(m.streams[0].sinks.is_empty());
    assert!(m.streams[0].pipeline.pads.is_empty());
    let first = m.add_session(&offer, LinkOutcome::Linked).unwrap();
    let second = m.add_session(&offer, LinkOutcome::Linked).unwrap();
    assert_ne!(first.session_id, second.session_id);
    assert_eq!(m.streams[0].pipeline.pads, vec![0, 1]);
}

#[test]
fn add_stream_and_start_uses_a_free_id() {
    let mut m = Manager::new();
    let a = m.add_stream_and_start(info("A", "udp://10.0.0.1:1")).unwrap();
    let b = m.add_stream_and_start(info("B", "udp://10.0.0.1:2")).unwrap();
    assert_ne!(a, b);
    assert_eq!(m.streams().len(), 2);
    assert_eq!(m.add_stream_and_start(info("A", "udp://10.0.0.1:3")), Err(ManagerError::Conflict(ConflictError::Name)));
}
