//! Sinks: branches attached to a stream's RTP tee, one per transport, and
//! the WebRTC session state machine that a WebRTC sink carries.
use vstd::prelude::*;
use crate::backend::{all_host_port, clients_text};
use crate::endpoint::Endpoint;

verus! {

/// A peer's request for a session on a producer.
#[derive(Clone, Copy, Debug, PartialEq, Eq, Structural)]
pub struct BindOffer {
    pub producer_id: u128,
    pub consumer_id: u128,
}

/// A session bound to a producer and a consumer.
#[derive(Clone, Copy, Debug, PartialEq, Eq, Structural)]
pub struct BindAnswer {
    pub producer_id: u128,
    pub consumer_id: u128,
    pub session_id: u128,
}

/// The two kinds of session description.
#[derive(Clone, Copy, Debug, PartialEq, Eq, Structural)]
pub enum SdpType {
    Offer,
    Answer,
}

/// A session description and its kind.
#[derive(Clone, Debug, PartialEq, Eq)]
pub struct RTCSessionDescription {
    pub kind: SdpType,
    pub sdp: String,
}

impl RTCSessionDescription {
    /// A copy of this description.
    pub fn copy(&self) -> (r: RTCSessionDescription)
        ensures
            r == *self,
    {
        RTCSessionDescription { kind: self.kind, sdp: self.sdp.clone() }
    }
}

/// A message the core sends to a peer, in the order it is queued.
#[derive(Clone, Debug, PartialEq, Eq)]
pub enum Message {
    BindAnswer(BindAnswer),
    SessionDescription(BindAnswer, SdpType, String),
    IceCandidate(BindAnswer, u32, String),
    EndSession(BindAnswer, String),
}

/// State of a WebRTC session.
#[derive(Clone, Copy, Debug, PartialEq, Eq, Structural)]
pub enum WebRtcState {
    New,
    LocalOffered,
    RemoteOffered,
    Answered,
    Connected,
    Failed,
    Closed,
}

/// A signalling message that came out of order.
#[derive(Clone, Copy, Debug, PartialEq, Eq, Structural)]
pub enum SessionError {
    OutOfOrder,
}

/// A remote ICE candidate.
#[derive(Clone, Debug, PartialEq, Eq)]
pub struct IceCandidate {
    pub m_line_index: u32,
    pub candidate: String,
}

/// The state a remote description of kind `k` moves a session to, if the
/// session accepts one now.
pub open spec fn remote_sdp_step(s: WebRtcState, k: SdpType) -> Option<WebRtcState> {
    match (s, k) {
        (WebRtcState::New, SdpType::Offer) => Some(WebRtcState::RemoteOffered),
        (WebRtcState::LocalOffered, SdpType::Answer) => Some(WebRtcState::Answered),
        _ => None,
    }
}

/// The state a local description of kind `k` moves a session to, if the
/// session may emit one now.
pub open spec fn local_sdp_step(s: WebRtcState, k: SdpType) -> Option<WebRtcState> {
    match (s, k) {
        (WebRtcState::New, SdpType::Offer) => Some(WebRtcState::LocalOffered),
        (WebRtcState::RemoteOffered, SdpType::Answer) => Some(WebRtcState::Answered),
        _ => None,
    }
}

/// A session takes remote ICE candidates once it has a remote description.
pub open spec fn accepts_remote_ice(s: WebRtcState) -> bool {
    s == WebRtcState::RemoteOffered || s == WebRtcState::Answered || s == WebRtcState::Connected
}

/// A session sends local ICE candidates once it has a local description.
pub open spec fn emits_local_ice(s: WebRtcState) -> bool {
    s == WebRtcState::LocalOffered || s == WebRtcState::Answered || s == WebRtcState::Connected
}

/// A session that has no remote description yet and is still open.
pub open spec fn fresh(s: WebRtcState) -> bool {
    s == WebRtcState::New || s == WebRtcState::LocalOffered
}

/// Within a session, a remote description that is taken is followed by
/// remote candidates that are taken; on a fresh session, candidates that
/// come before any description are refused.
pub proof fn lemma_sdp_before_ice(s: WebRtcState, k: SdpType)
    requires
        fresh(s),
    ensures
        !accepts_remote_ice(s),
        remote_sdp_step(s, k) matches Some(t) ==> accepts_remote_ice(t),
{
}

/// A sink that sends to a WebRTC peer, with its session.
#[derive(Debug)]
pub struct WebRtcSink {
    pub bind: BindAnswer,
    pub tee_src_pad: Option<u64>,
    pub state: WebRtcState,
    pub outbox: Vec<Message>,
    pub remote_candidates: Vec<IceCandidate>,
    pub end_of_candidates: bool,
}

/// `after` differs from `before` at most in its state, queue and remote
/// candidates; the binding and tee pad are kept.
pub open spec fn same_session(before: WebRtcSink, after: WebRtcSink) -> bool {
    &&& after.bind == before.bind
    &&& after.tee_src_pad == before.tee_src_pad
}

/// Effect of a remote session description.
pub open spec fn sdp_applied(before: WebRtcSink, after: WebRtcSink, kind: SdpType, r: Result<(), SessionError>) -> bool {
    &&& same_session(before, after)
    &&& match remote_sdp_step(before.state, kind) {
        Some(t) => r is Ok && after.state == t,
        None => r == Err::<(), SessionError>(SessionError::OutOfOrder) && after.state == before.state,
    }
    &&& after.outbox@ == before.outbox@
    &&& after.remote_candidates@ == before.remote_candidates@
    &&& after.end_of_candidates == before.end_of_candidates
}

/// Effect of a remote ICE candidate; an empty one ends the candidates.
pub open spec fn ice_applied(before: WebRtcSink, after: WebRtcSink, m_line_index: u32, candidate: Seq<char>, r: Result<(), SessionError>) -> bool {
    &&& same_session(before, after)
    &&& after.state == before.state
    &&& after.outbox@ == before.outbox@
    &&& accepts_remote_ice(before.state) ==> r is Ok && if candidate.len() == 0 {
        after.end_of_candidates && after.remote_candidates@ == before.remote_candidates@
    } else {
        after.end_of_candidates == before.end_of_candidates
            && after.remote_candidates@.len() == before.remote_candidates@.len() + 1
            && after.remote_candidates@.drop_last() == before.remote_candidates@
            && after.remote_candidates@.last().m_line_index == m_line_index
            && after.remote_candidates@.last().candidate@ == candidate
    }
    &&& !accepts_remote_ice(before.state) ==> r == Err::<(), SessionError>(SessionError::OutOfOrder)
        && after.remote_candidates@ == before.remote_candidates@
        && after.end_of_candidates == before.end_of_candidates
}

/// Effect of a local session description made by the media framework.
pub open spec fn local_sdp_applied(before: WebRtcSink, after: WebRtcSink, kind: SdpType, sdp: String, r: Result<(), SessionError>) -> bool {
    &&& same_session(before, after)
    &&& match local_sdp_step(before.state, kind) {
        Some(t) => r is Ok && after.state == t
            && after.outbox@ == before.outbox@.push(Message::SessionDescription(before.bind, kind, sdp)),
        None => r == Err::<(), SessionError>(SessionError::OutOfOrder) && after.state == before.state
            && after.outbox@ == before.outbox@,
    }
    &&& after.remote_candidates@ == before.remote_candidates@
    &&& after.end_of_candidates == before.end_of_candidates
}

/// Effect of a local ICE candidate gathered by the media framework.
pub open spec fn local_ice_applied(before: WebRtcSink, after: WebRtcSink, m_line_index: u32, candidate: Seq<char>, r: Result<(), SessionError>) -> bool {
    &&& same_session(before, after)
    &&& after.state == before.state
    &&& after.remote_candidates@ == before.remote_candidates@
    &&& after.end_of_candidates == before.end_of_candidates
    &&& emits_local_ice(before.state) ==> r is Ok && after.outbox@.len() == before.outbox@.len() + 1
        && after.outbox@.drop_last() == before.outbox@
        && (after.outbox@.last() matches Message::IceCandidate(b, m, c)
            && b == before.bind && m == m_line_index && c@ == candidate)
    &&& !emits_local_ice(before.state) ==> r == Err::<(), SessionError>(SessionError::OutOfOrder)
        && after.outbox@ == before.outbox@
}

/// Effect of the media being negotiated.
pub open spec fn connected_applied(before: WebRtcSink, after: WebRtcSink, r: Result<(), SessionError>) -> bool {
    &&& same_session(before, after)
    &&& before.state == WebRtcState::Answered ==> r is Ok && after.state == WebRtcState::Connected
    &&& before.state != WebRtcState::Answered ==> r == Err::<(), SessionError>(SessionError::OutOfOrder)
        && after.state == before.state
    &&& after.outbox@ == before.outbox@
    &&& after.remote_candidates@ == before.remote_candidates@
    &&& after.end_of_candidates == before.end_of_candidates
}

/// Effect of a failure: an open session fails.
pub open spec fn failure_applied(before: WebRtcSink, after: WebRtcSink) -> bool {
    &&& same_session(before, after)
    &&& after.state == (if before.state == WebRtcState::Closed { WebRtcState::Closed } else { WebRtcState::Failed })
    &&& after.outbox@ == before.outbox@
    &&& after.remote_candidates@ == before.remote_candidates@
    &&& after.end_of_candidates == before.end_of_candidates
}

/// Effect of handing out the queued messages.
pub open spec fn messages_taken(before: WebRtcSink, after: WebRtcSink, out: Seq<Message>) -> bool {
    &&& same_session(before, after)
    &&& out == before.outbox@
    &&& after.outbox@.len() == 0
    &&& after.state == before.state
    &&& after.remote_candidates@ == before.remote_candidates@
    &&& after.end_of_candidates == before.end_of_candidates
}

impl WebRtcSink {
    /// A new session, not linked yet, whose first outgoing message is the
    /// answer to the peer's bind request.
    pub fn try_new(bind: BindAnswer) -> (r: WebRtcSink)
        ensures
            r.bind == bind,
            r.tee_src_pad is None,
            r.state == WebRtcState::New,
            r.outbox@ == seq![Message::BindAnswer(bind)],
            r.remote_candidates@.len() == 0,
            !r.end_of_candidates,
    {
        WebRtcSink {
            bind,
            tee_src_pad: None,
            state: WebRtcState::New,
            outbox: vec![Message::BindAnswer(bind)],
            remote_candidates: Vec::new(),
            end_of_candidates: false,
        }
    }

    /// Applies a remote session description.
    pub fn handle_sdp(&mut self, desc: &RTCSessionDescription) -> (r: Result<(), SessionError>)
        ensures
            sdp_applied(*old(self), *final(self), desc.kind, r),
    {
        match (self.state, desc.kind) {
            (WebRtcState::New, SdpType::Offer) => {
                self.state = WebRtcState::RemoteOffered;
                Ok(())
            },
            (WebRtcState::LocalOffered, SdpType::Answer) => {
                self.state = WebRtcState::Answered;
                Ok(())
            },
            _ => Err(SessionError::OutOfOrder),
        }
    }

    /// Adds a remote ICE candidate; an empty candidate marks the end of
    /// the candidates.
    pub fn handle_ice(&mut self, m_line_index: u32, candidate: &str) -> (r: Result<(), SessionError>)
        ensures
            ice_applied(*old(self), *final(self), m_line_index, candidate@, r),
    {
        match self.state {
            WebRtcState::RemoteOffered | WebRtcState::Answered | WebRtcState::Connected => {
                if candidate.is_empty() {
                    self.end_of_candidates = true;
                } else {
                    self.remote_candidates.push(IceCandidate { m_line_index, candidate: candidate.to_owned() });
                    assert(self.remote_candidates@.drop_last() =~= old(self).remote_candidates@);
                }
                Ok(())
            },
            _ => Err(SessionError::OutOfOrder),
        }
    }

    /// Queues a local session description for the peer, once the media
    /// framework has made it.
    pub fn on_local_description(&mut self, desc: &RTCSessionDescription) -> (r: Result<(), SessionError>)
        ensures
            local_sdp_applied(*old(self), *final(self), desc.kind, desc.sdp, r),
    {
        let next = match (self.state, desc.kind) {
            (WebRtcState::New, SdpType::Offer) => WebRtcState::LocalOffered,
            (WebRtcState::RemoteOffered, SdpType::Answer) => WebRtcState::Answered,
            _ => {
                return Err(SessionError::OutOfOrder);
            },
        };
        self.state = next;
        self.outbox.push(Message::SessionDescription(self.bind, desc.kind, desc.sdp.clone()));
        Ok(())
    }

    /// Queues a local ICE candidate for the peer.
    pub fn on_local_ice(&mut self, m_line_index: u32, candidate: &str) -> (r: Result<(), SessionError>)
        ensures
            local_ice_applied(*old(self), *final(self), m_line_index, candidate@, r),
    {
        match self.state {
            WebRtcState::LocalOffered | WebRtcState::Answered | WebRtcState::Connected => {
                self.outbox.push(Message::IceCandidate(self.bind, m_line_index, candidate.to_owned()));
                assert(self.outbox@.drop_last() =~= old(self).outbox@);
                Ok(())
            },
            _ => Err(SessionError::OutOfOrder),
        }
    }

    /// Marks the media as negotiated: an answered session is connected.
    pub fn on_connected(&mut self) -> (r: Result<(), SessionError>)
        ensures
            connected_applied(*old(self), *final(self), r),
    {
        if self.state == WebRtcState::Answered {
            self.state = WebRtcState::Connected;
            Ok(())
        } else {
            Err(SessionError::OutOfOrder)
        }
    }

    /// Marks the session failed (a peer timeout or an ICE failure); a
    /// closed session stays closed.
    pub fn on_failure(&mut self)
        ensures
            failure_applied(*old(self), *final(self)),
    {
        if self.state != WebRtcState::Closed {
            self.state = WebRtcState::Failed;
        }
    }

    /// Closes the session and queues its end for the peer; closing a
    /// closed session does nothing.
    pub fn close(&mut self, reason: &str)
        ensures
            final(self).state == WebRtcState::Closed,
            old(self).state != WebRtcState::Closed ==> final(self).outbox@.len() == old(self).outbox@.len() + 1
                && final(self).outbox@.drop_last() == old(self).outbox@
                && (final(self).outbox@.last() matches Message::EndSession(b, why) && b == old(self).bind && why@ == reason@),
            old(self).state == WebRtcState::Closed ==> final(self).outbox@ == old(self).outbox@,
            final(self).bind == old(self).bind,
            final(self).tee_src_pad == old(self).tee_src_pad,
            final(self).remote_candidates@ == old(self).remote_candidates@,
            final(self).end_of_candidates == old(self).end_of_candidates,
    {
        if self.state != WebRtcState::Closed {
            self.state = WebRtcState::Closed;
            self.outbox.push(Message::EndSession(self.bind, reason.to_owned()));
            assert(self.outbox@.drop_last() =~= old(self).outbox@);
        }
    }

    /// Hands out the queued messages, oldest first, and empties the queue.
    pub fn take_messages(&mut self) -> (r: Vec<Message>)
        ensures
            messages_taken(*old(self), *final(self), r@),
    {
        let mut out: Vec<Message> = Vec::new();
        std::mem::swap(&mut out, &mut self.outbox);
        out
    }
}

/// Why a sink could not be made or linked.
#[derive(Clone, Copy, Debug, PartialEq, Eq, Structural)]
pub enum SinkError {
    AlreadyLinked,
    NoRtspAddress,
    NoClients,
}

/// A sink that sends RTP to a fixed list of UDP clients.
#[derive(Debug)]
pub struct UdpSink {
    pub sink_id: u128,
    pub clients: String,
    pub tee_src_pad: Option<u64>,
}

/// A sink that serves the stream at a path of the RTSP server.
#[derive(Debug)]
pub struct RtspSink {
    pub sink_id: u128,
    pub path: String,
    pub tee_src_pad: Option<u64>,
}

/// Any sink.
#[derive(Debug)]
pub enum Sink {
    Udp(UdpSink),
    Rtsp(RtspSink),
    WebRtc(WebRtcSink),
}

/// The identifier of a sink; a WebRTC sink is known by its session.
pub open spec fn sink_id(s: Sink) -> u128 {
    match s {
        Sink::Udp(u) => u.sink_id,
        Sink::Rtsp(r) => r.sink_id,
        Sink::WebRtc(w) => w.bind.session_id,
    }
}

/// The tee pad a sink is attached to, if it is linked.
pub open spec fn sink_pad(s: Sink) -> Option<u64> {
    match s {
        Sink::Udp(u) => u.tee_src_pad,
        Sink::Rtsp(r) => r.tee_src_pad,
        Sink::WebRtc(w) => w.tee_src_pad,
    }
}

/// A sink with its tee pad replaced.
pub open spec fn with_pad(s: Sink, p: Option<u64>) -> Sink {
    match s {
        Sink::Udp(u) => Sink::Udp(UdpSink { tee_src_pad: p, ..u }),
        Sink::Rtsp(r) => Sink::Rtsp(RtspSink { tee_src_pad: p, ..r }),
        Sink::WebRtc(w) => Sink::WebRtc(WebRtcSink { tee_src_pad: p, ..w }),
    }
}

/// The index of the first RTSP endpoint, if any.
pub open spec fn first_rtsp(eps: Seq<Endpoint>) -> Option<int> {
    if exists|i: int| 0 <= i < eps.len() && (#[trigger] eps[i]).scheme@ == "rtsp"@ {
        Some(choose|i: int| 0 <= i < eps.len() && (#[trigger] eps[i]).scheme@ == "rtsp"@
            && forall|j: int| 0 <= j < i ==> (#[trigger] eps[j]).scheme@ != "rtsp"@)
    } else {
        None
    }
}

impl UdpSink {
    /// A sink for the `host:port` of every endpoint, joined by commas.
    pub fn try_new(id: u128, endpoints: &Vec<Endpoint>) -> (r: Result<UdpSink, SinkError>)
        ensures
            match r {
                Ok(s) => endpoints@.len() > 0 && all_host_port(endpoints@) && s.sink_id == id
                    && s.clients@ == clients_text(endpoints@) && s.tee_src_pad is None,
                Err(e) => e == SinkError::NoClients && (endpoints@.len() == 0 || !all_host_port(endpoints@)),
            },
    {
        if endpoints.len() == 0 {
            return Err(SinkError::NoClients);
        }
        let mut i: usize = 0;
        while i < endpoints.len()
            invariant
                i <= endpoints.len(),
                forall|k: int| 0 <= k < i ==> (#[trigger] endpoints@[k]).host is Some && endpoints@[k].port is Some,
            decreases endpoints.len() - i,
        {
            if endpoints[i].host.is_none() || endpoints[i].port.is_none() {
                return Err(SinkError::NoClients);
            }
            i = i + 1;
        }
        let mut clients = String::new();
        crate::backend::push_clients(&mut clients, endpoints);
        Ok(UdpSink { sink_id: id, clients, tee_src_pad: None })
    }

    pub fn link(&mut self, tee_src_pad: u64) -> (r: Result<(), SinkError>)
        ensures
            old(self).tee_src_pad is Some ==> r == Err::<(), SinkError>(SinkError::AlreadyLinked) && *final(self) == *old(self),
            old(self).tee_src_pad is None ==> r is Ok && *final(self) == (UdpSink { tee_src_pad: Some(tee_src_pad), ..*old(self) }),
    {
        if self.tee_src_pad.is_some() {
            return Err(SinkError::AlreadyLinked);
        }
        self.tee_src_pad = Some(tee_src_pad);
        Ok(())
    }

    pub fn unlink(&mut self) -> (r: Option<u64>)
        ensures
            r == old(self).tee_src_pad,
            *final(self) == (UdpSink { tee_src_pad: None, ..*old(self) }),
    {
        let pad = self.tee_src_pad;
        self.tee_src_pad = None;
        pad
    }

    pub fn get_id(&self) -> (r: u128)
        ensures
            r == self.sink_id,
    {
        self.sink_id
    }
}

impl RtspSink {
    /// A sink served at the path of the first RTSP address.
    pub fn try_new(id: u128, addresses: &Vec<Endpoint>) -> (r: Result<RtspSink, SinkError>)
        ensures
            match r {
                Ok(s) => first_rtsp(addresses@) matches Some(i) && s.path@ == addresses@[i].path@
                    && s.sink_id == id && s.tee_src_pad is None,
                Err(e) => e == SinkError::NoRtspAddress && first_rtsp(addresses@) is None,
            },
    {
        let mut i: usize = 0;
        while i < addresses.len()
            invariant
                i <= addresses.len(),
                forall|j: int| 0 <= j < i ==> (#[trigger] addresses@[j]).scheme@ != "rtsp"@,
            decreases addresses.len() - i,
        {
            if crate::text::str_eq(addresses[i].scheme.as_str(), "rtsp") {
                proof {
                    let k = i as int;
                    assert(0 <= k < addresses@.len() && addresses@[k].scheme@ == "rtsp"@);
                    let c = choose|c: int| 0 <= c < addresses@.len() && (#[trigger] addresses@[c]).scheme@ == "rtsp"@
                        && forall|j: int| 0 <= j < c ==> (#[trigger] addresses@[j]).scheme@ != "rtsp"@;
                    assert(c == k) by {
                        if c < k {
                            assert(addresses@[c].scheme@ != "rtsp"@);
                        } else if c > k {
                            assert(addresses@[k].scheme@ != "rtsp"@);
                        }
                    }
                }
                return Ok(RtspSink { sink_id: id, path: addresses[i].path.clone(), tee_src_pad: None });
            }
            i = i + 1;
        }
        Err(SinkError::NoRtspAddress)
    }

    pub fn link(&mut self, tee_src_pad: u64) -> (r: Result<(), SinkError>)
        ensures
            old(self).tee_src_pad is Some ==> r == Err::<(), SinkError>(SinkError::AlreadyLinked) && *final(self) == *old(self),
            old(self).tee_src_pad is None ==> r is Ok && *final(self) == (RtspSink { tee_src_pad: Some(tee_src_pad), ..*old(self) }),
    {
        if self.tee_src_pad.is_some() {
            return Err(SinkError::AlreadyLinked);
        }
        self.tee_src_pad = Some(tee_src_pad);
        Ok(())
    }

    /// Releases the tee pad; a sink that was never linked has none.
    pub fn unlink(&mut self) -> (r: Option<u64>)
        ensures
            r == old(self).tee_src_pad,
            *final(self) == (RtspSink { tee_src_pad: None, ..*old(self) }),
    {
        let pad = self.tee_src_pad;
        self.tee_src_pad = None;
        pad
    }

    pub fn get_id(&self) -> (r: u128)
        ensures
            r == self.sink_id,
    {
        self.sink_id
    }
}

impl WebRtcSink {
    pub fn link(&mut self, tee_src_pad: u64) -> (r: Result<(), SinkError>)
        ensures
            old(self).tee_src_pad is Some ==> r == Err::<(), SinkError>(SinkError::AlreadyLinked) && *final(self) == *old(self),
            old(self).tee_src_pad is None ==> r is Ok && *final(self) == (WebRtcSink { tee_src_pad: Some(tee_src_pad), ..*old(self) }),
    {
        if self.tee_src_pad.is_some() {
            return Err(SinkError::AlreadyLinked);
        }
        self.tee_src_pad = Some(tee_src_pad);
        Ok(())
    }

    pub fn unlink(&mut self) -> (r: Option<u64>)
        ensures
            r == old(self).tee_src_pad,
            *final(self) == (WebRtcSink { tee_src_pad: None, ..*old(self) }),
    {
        let pad = self.tee_src_pad;
        self.tee_src_pad = None;
        pad
    }

    pub fn get_id(&self) -> (r: u128)
        ensures
            r == self.bind.session_id,
    {
        self.bind.session_id
    }
}

impl Sink {
    /// Attaches the sink to a tee pad; a linked sink refuses a second pad.
    pub fn link(&mut self, tee_src_pad: u64) -> (r: Result<(), SinkError>)
        ensures
            sink_pad(*old(self)) is Some ==> r == Err::<(), SinkError>(SinkError::AlreadyLinked) && *final(self) == *old(self),
            sink_pad(*old(self)) is None ==> r is Ok && *final(self) == with_pad(*old(self), Some(tee_src_pad)),
    {
        match self {
            Sink::Udp(s) => s.link(tee_src_pad),
            Sink::Rtsp(s) => s.link(tee_src_pad),
            Sink::WebRtc(s) => s.link(tee_src_pad),
        }
    }

    /// Detaches the sink and hands back the tee pad it held.
    pub fn unlink(&mut self) -> (r: Option<u64>)
        ensures
            r == sink_pad(*old(self)),
            *final(self) == with_pad(*old(self), None),
    {
        match self {
            Sink::Udp(s) => s.unlink(),
            Sink::Rtsp(s) => s.unlink(),
            Sink::WebRtc(s) => s.unlink(),
        }
    }

    pub fn get_id(&self) -> (r: u128)
        ensures
            r == sink_id(*self),
    {
        match self {
            Sink::Udp(s) => s.get_id(),
            Sink::Rtsp(s) => s.get_id(),
            Sink::WebRtc(s) => s.get_id(),
        }
    }

    pub fn tee_pad(&self) -> (r: Option<u64>)
        ensures
            r == sink_pad(*self),
    {
        match self {
            Sink::Udp(s) => s.tee_src_pad,
            Sink::Rtsp(s) => s.tee_src_pad,
            Sink::WebRtc(s) => s.tee_src_pad,
        }
    }
}

} // verus!
