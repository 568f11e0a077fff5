//! The stream registry: streams indexed by producer id, with unique names
//! and disjoint endpoints, and the WebRTC sessions bound to them.
use vstd::prelude::*;
use crate::backend::{new, BackendError, StreamType, backend_result};
use crate::info::{ConflictError, InfoView, VideoAndStreamInformation, conflict_of, endpoints_overlap, same_host_port};
use crate::sink::{
    BindAnswer, BindOffer, Message, RTCSessionDescription, SdpType, SessionError, Sink, WebRtcSink, WebRtcState,
    connected_applied, failure_applied, ice_applied, local_ice_applied, local_sdp_applied, messages_taken,
    sdp_applied, sink_id, sink_pad,
};
use crate::stream::{LinkOutcome, has_sink};
use crate::stream::{PipelineState, Stream, StreamError, torn_down};

verus! {

/// Why a registry operation was refused.
#[derive(Clone, Copy, Debug, PartialEq, Eq, Structural)]
pub enum ManagerError {
    Backend(BackendError),
    Conflict(ConflictError),
    IdInUse,
    NotFound,
    SinkNotFound,
    NotWebRtc,
    Session(crate::sink::SessionError),
    Stream(StreamError),
}

/// A snapshot of one stream.
#[derive(Clone, Debug, PartialEq, Eq)]
pub struct StreamStatus {
    pub id: u128,
    pub running: bool,
    pub video_and_stream: VideoAndStreamInformation,
}

/// A stream taken out of the registry: its stopped pipeline, and its sinks
/// detached, in their former order.
#[derive(Debug)]
pub struct RemovedStream {
    pub stream: Stream,
    pub sinks: Vec<Sink>,
}

/// The registry of streams.
#[derive(Debug)]
pub struct Manager {
    pub streams: Vec<Stream>,
}

/// Whether a stream with this id is registered.
pub open spec fn has_stream(s: Seq<Stream>, id: u128) -> bool {
    exists|i: int| 0 <= i < s.len() && (#[trigger] s[i]).id == id
}

/// Every WebRTC sink of a stream is bound to it and its session is open.
pub open spec fn sessions_open(st: Stream) -> bool {
    forall|k: int| 0 <= k < st.sinks@.len() ==> match #[trigger] st.sinks@[k] {
        Sink::WebRtc(w) => w.state != WebRtcState::Closed && w.bind.producer_id == st.id,
        _ => true,
    }
}

/// The conflict a new stream has with the registered ones, if any: a name
/// already in use comes before a host and port already served.
pub open spec fn conflict_with_all(s: Seq<Stream>, i: InfoView) -> Option<ConflictError> {
    if exists|k: int| 0 <= k < s.len() && conflict_of((#[trigger] s[k]).video_and_stream_information@, i) == Some(ConflictError::Name) {
        Some(ConflictError::Name)
    } else if exists|k: int| 0 <= k < s.len() && conflict_of((#[trigger] s[k]).video_and_stream_information@, i) == Some(ConflictError::Endpoint) {
        Some(ConflictError::Endpoint)
    } else {
        None
    }
}

/// What adding a stream under `id` gives: its pipeline description, or the
/// error, checked in this order: the description, conflicts, the id.
pub open spec fn add_result(s: Seq<Stream>, i: InfoView, id: u128) -> Result<Seq<char>, ManagerError> {
    match backend_result(i) {
        Err(e) => Err(ManagerError::Backend(e)),
        Ok(d) => match conflict_with_all(s, i) {
            Some(c) => Err(ManagerError::Conflict(c)),
            None => if has_stream(s, id) {
                Err(ManagerError::IdInUse)
            } else {
                Ok(d)
            },
        },
    }
}

/// Exactly one registered stream has this name.
pub open spec fn named_once(s: Seq<Stream>, name: Seq<char>) -> bool {
    exists|i: int| 0 <= i < s.len() && (#[trigger] s[i]).video_and_stream_information@.name == name
        && forall|j: int| 0 <= j < s.len() && j != i ==> (#[trigger] s[j]).video_and_stream_information@.name != name
}

/// A signalling step applied to one session.
pub enum SessionOp {
    RemoteSdp(RTCSessionDescription),
    RemoteIce(u32, String),
    LocalSdp(RTCSessionDescription),
    LocalIce(u32, String),
    Connected,
    Failure,
    TakeMessages,
}

/// Mathematical form of a signalling step.
pub ghost enum OpView {
    RemoteSdp(SdpType),
    RemoteIce(u32, Seq<char>),
    LocalSdp(SdpType, String),
    LocalIce(u32, Seq<char>),
    Connected,
    Failure,
    TakeMessages,
}

impl View for SessionOp {
    type V = OpView;

    open spec fn view(&self) -> OpView {
        match self {
            SessionOp::RemoteSdp(d) => OpView::RemoteSdp(d.kind),
            SessionOp::RemoteIce(m, c) => OpView::RemoteIce(*m, c@),
            SessionOp::LocalSdp(d) => OpView::LocalSdp(d.kind, d.sdp),
            SessionOp::LocalIce(m, c) => OpView::LocalIce(*m, c@),
            SessionOp::Connected => OpView::Connected,
            SessionOp::Failure => OpView::Failure,
            SessionOp::TakeMessages => OpView::TakeMessages,
        }
    }
}

/// The session part of a result: what the step handed out, or its error.
pub open spec fn unit_of(r: Result<Seq<Message>, SessionError>) -> Result<(), SessionError> {
    match r {
        Ok(_) => Ok(()),
        Err(e) => Err(e),
    }
}

/// Effect of a signalling step on a session; only handing out messages
/// gives any.
pub open spec fn op_applied(before: WebRtcSink, after: WebRtcSink, op: OpView, r: Result<Seq<Message>, SessionError>) -> bool {
    &&& (!(op is TakeMessages) && r is Ok ==> r->Ok_0.len() == 0)
    &&& match op {
        OpView::RemoteSdp(k) => sdp_applied(before, after, k, unit_of(r)),
        OpView::RemoteIce(m, c) => ice_applied(before, after, m, c, unit_of(r)),
        OpView::LocalSdp(k, sdp) => local_sdp_applied(before, after, k, sdp, unit_of(r)),
        OpView::LocalIce(m, c) => local_ice_applied(before, after, m, c, unit_of(r)),
        OpView::Connected => connected_applied(before, after, unit_of(r)),
        OpView::Failure => failure_applied(before, after) && r is Ok,
        OpView::TakeMessages => r is Ok && messages_taken(before, after, r->Ok_0),
    }
}

/// Stream `i` has producer id `producer`, and its sink `k` is session
/// `session`.
pub open spec fn located(s: Seq<Stream>, producer: u128, session: u128, i: int, k: int) -> bool {
    &&& 0 <= i < s.len()
    &&& s[i].id == producer
    &&& 0 <= k < s[i].sinks@.len()
    &&& sink_id(s[i].sinks@[k]) == session
}

/// Why a session cannot be reached, if it cannot.
pub open spec fn lookup_error(s: Seq<Stream>, producer: u128, session: u128) -> Option<ManagerError> {
    if !has_stream(s, producer) {
        Some(ManagerError::NotFound)
    } else if !(forall|i: int| 0 <= i < s.len() && (#[trigger] s[i]).id == producer ==> has_sink(s[i].sinks@, session)) {
        Some(ManagerError::SinkNotFound)
    } else if !(forall|i: int, k: int| located(s, producer, session, i, k) ==> (#[trigger] s[i].sinks@[k]) is WebRtc) {
        Some(ManagerError::NotWebRtc)
    } else {
        None
    }
}

/// The session a sink carries.
pub open spec fn webrtc_of(s: Sink) -> WebRtcSink {
    match s {
        Sink::WebRtc(w) => w,
        _ => arbitrary(),
    }
}

/// `new` is `old` with only sink `k` of stream `i` changed, into a WebRTC
/// sink.
pub open spec fn session_replaced(old: Seq<Stream>, new: Seq<Stream>, i: int, k: int) -> bool {
    &&& new.len() == old.len()
    &&& forall|j: int| 0 <= j < old.len() && j != i ==> #[trigger] new[j] == old[j]
    &&& new[i].id == old[i].id
    &&& new[i].video_and_stream_information == old[i].video_and_stream_information
    &&& new[i].pipeline == old[i].pipeline
    &&& new[i].sinks@.len() == old[i].sinks@.len()
    &&& forall|q: int| 0 <= q < old[i].sinks@.len() && q != k ==> #[trigger] new[i].sinks@[q] == old[i].sinks@[q]
    &&& new[i].sinks@[k] is WebRtc
}

/// The session part of a registry result.
pub open spec fn session_result(r: Result<Seq<Message>, ManagerError>) -> Result<Seq<Message>, SessionError> {
    match r {
        Ok(m) => Ok(m),
        Err(ManagerError::Session(e)) => Err(e),
        Err(_) => Err(SessionError::OutOfOrder),
    }
}

/// The outcome of a signalling step sent to session `session` of producer
/// `producer`: refused with the registry unchanged when the session cannot
/// be reached, else applied to that session alone.
pub open spec fn session_outcome(old: Seq<Stream>, new: Seq<Stream>, producer: u128, session: u128, op: OpView, r: Result<Seq<Message>, ManagerError>) -> bool {
    match lookup_error(old, producer, session) {
        Some(e) => r == Err::<Seq<Message>, ManagerError>(e) && new == old,
        None => (r is Ok || r matches Err(ManagerError::Session(_)))
            && forall|i: int, k: int| located(old, producer, session, i, k) ==> session_replaced(old, new, i, k)
                && op_applied(webrtc_of(old[i].sinks@[k]), webrtc_of(#[trigger] new[i].sinks@[k]), op, session_result(r)),
    }
}

/// A result without messages, as a result with none.
pub open spec fn no_messages(r: Result<(), ManagerError>) -> Result<Seq<Message>, ManagerError> {
    match r {
        Ok(()) => Ok(Seq::empty()),
        Err(e) => Err(e),
    }
}

/// The result of a step that hands out messages.
pub open spec fn with_messages(r: Result<Vec<Message>, ManagerError>) -> Result<Seq<Message>, ManagerError> {
    match r {
        Ok(v) => Ok(v@),
        Err(e) => Err(e),
    }
}

/// `st` is the snapshot of stream `s`.
pub open spec fn status_of(st: StreamStatus, s: Stream) -> bool {
    &&& st.id == s.id
    &&& st.running == (s.pipeline.state == PipelineState::Playing)
    &&& st.video_and_stream@ == s.video_and_stream_information@
}

/// Whether a registered stream has this name.
pub open spec fn has_name(s: Seq<Stream>, name: Seq<char>) -> bool {
    exists|i: int| 0 <= i < s.len() && (#[trigger] s[i]).video_and_stream_information@.name == name
}

/// `rm` is `st` torn down: same id and description, pipeline stopped, no
/// sink and no tee pad left, and each former sink handed back detached,
/// its session closed.
pub open spec fn removed_from(st: Stream, rm: RemovedStream) -> bool {
    &&& rm.stream.id == st.id
    &&& rm.stream.video_and_stream_information == st.video_and_stream_information
    &&& rm.stream.pipeline.state == PipelineState::Null
    &&& rm.stream.sinks@.len() == 0
    &&& rm.stream.pipeline.pads@.len() == 0
    &&& rm.sinks@.len() == st.sinks@.len()
    &&& forall|k: int| 0 <= k < rm.sinks@.len() ==> torn_down(st.sinks@[k], #[trigger] rm.sinks@[k], "Stream removed"@)
}

/// Whether streams `a` and `b` can stand side by side.
pub open spec fn compatible(a: Stream, b: Stream) -> bool {
    &&& a.id != b.id
    &&& conflict_of(a.video_and_stream_information@, b.video_and_stream_information@) is None
}

/// Two stream descriptions that share no name and no host and port, seen
/// from either side.
pub proof fn lemma_conflict_symmetric(a: InfoView, b: InfoView)
    ensures
        (conflict_of(a, b) is None) == (conflict_of(b, a) is None),
{
    if endpoints_overlap(a.endpoints, b.endpoints) {
        let (i, j) = choose|i: int, j: int| 0 <= i < a.endpoints.len() && 0 <= j < b.endpoints.len()
            && same_host_port(#[trigger] a.endpoints[i], #[trigger] b.endpoints[j]);
        assert(same_host_port(b.endpoints[j], a.endpoints[i]));
    }
    if endpoints_overlap(b.endpoints, a.endpoints) {
        let (i, j) = choose|i: int, j: int| 0 <= i < b.endpoints.len() && 0 <= j < a.endpoints.len()
            && same_host_port(#[trigger] b.endpoints[i], #[trigger] a.endpoints[j]);
        assert(same_host_port(a.endpoints[j], b.endpoints[i]));
    }
}

/// The registry invariant over a list of streams.
pub open spec fn streams_wf(s: Seq<Stream>) -> bool {
    &&& forall|i: int| 0 <= i < s.len() ==> (#[trigger] s[i]).wf()
    &&& forall|i: int| 0 <= i < s.len() ==> backend_result((#[trigger] s[i]).video_and_stream_information@) is Ok
    &&& forall|i: int| 0 <= i < s.len() ==> sessions_open(#[trigger] s[i])
    &&& forall|i: int, j: int| 0 <= i < s.len() && 0 <= j < s.len() && i != j
        ==> compatible(#[trigger] s[i], #[trigger] s[j])
}

/// Adding a valid stream with no sinks that conflicts with none and has a
/// fresh id keeps the invariant, and its name is then registered once.
proof fn lemma_push_keeps_wf(s: Seq<Stream>, st: Stream)
    requires
        streams_wf(s),
        st.wf(),
        st.sinks@.len() == 0,
        backend_result(st.video_and_stream_information@) is Ok,
        conflict_with_all(s, st.video_and_stream_information@) is None,
        !has_stream(s, st.id),
    ensures
        streams_wf(s.push(st)),
        named_once(s.push(st), st.video_and_stream_information@.name),
{
    let t = s.push(st);
    let n = s.len() as int;
    let iv = st.video_and_stream_information@;
    assert forall|i: int, j: int| 0 <= i < t.len() && 0 <= j < t.len() && i != j
        implies compatible(#[trigger] t[i], #[trigger] t[j]) by {
        if i == n {
            assert(conflict_of(s[j].video_and_stream_information@, iv) is None);
            lemma_conflict_symmetric(s[j].video_and_stream_information@, iv);
            assert(s[j].id != st.id);
        } else if j == n {
            assert(conflict_of(s[i].video_and_stream_information@, iv) is None);
            assert(s[i].id != st.id);
        } else {
            assert(t[i] == s[i] && t[j] == s[j]);
        }
    }
    assert forall|k: int| 0 <= k < t.len() implies sessions_open(#[trigger] t[k]) by {
        if k < n {
            assert(t[k] == s[k]);
        }
    }
    assert forall|k: int| 0 <= k < t.len() implies (#[trigger] t[k]).wf() by {
        if k < n {
            assert(t[k] == s[k]);
        }
    }
    assert forall|k: int| 0 <= k < t.len() implies backend_result((#[trigger] t[k]).video_and_stream_information@) is Ok by {
        if k < n {
            assert(t[k] == s[k]);
        }
    }
    assert forall|j: int| 0 <= j < t.len() && j != n
        implies (#[trigger] t[j]).video_and_stream_information@.name != iv.name by {
        assert(conflict_of(s[j].video_and_stream_information@, iv) is None);
    }
    assert(t[n].video_and_stream_information@.name == iv.name);
}

/// Taking a stream out keeps the invariant, and its id is then gone.
proof fn lemma_remove_keeps_wf(s: Seq<Stream>, i: int)
    requires
        streams_wf(s),
        0 <= i < s.len(),
    ensures
        streams_wf(s.remove(i)),
        !has_stream(s.remove(i), s[i].id),
{
    let t = s.remove(i);
    assert forall|a: int| 0 <= a < t.len() implies #[trigger] t[a] == s[if a < i { a } else { a + 1 }] by {}
    assert forall|a: int, b: int| 0 <= a < t.len() && 0 <= b < t.len() && a != b
        implies compatible(#[trigger] t[a], #[trigger] t[b]) by {
        let a2 = if a < i { a } else { a + 1 };
        let b2 = if b < i { b } else { b + 1 };
        assert(t[a] == s[a2] && t[b] == s[b2]);
    }
    assert forall|k: int| 0 <= k < t.len() implies (#[trigger] t[k]).wf() by {
        assert(t[k] == s[if k < i { k } else { k + 1 }]);
    }
    assert forall|k: int| 0 <= k < t.len() implies backend_result((#[trigger] t[k]).video_and_stream_information@) is Ok by {
        assert(t[k] == s[if k < i { k } else { k + 1 }]);
    }
    assert forall|k: int| 0 <= k < t.len() implies sessions_open(#[trigger] t[k]) by {
        assert(t[k] == s[if k < i { k } else { k + 1 }]);
    }
    assert forall|k: int| 0 <= k < t.len() implies (#[trigger] t[k]).id != s[i].id by {
        let k2 = if k < i { k } else { k + 1 };
        assert(t[k] == s[k2]);
        assert(compatible(s[k2], s[i]));
    }
}

/// Changing one open session of a stream, keeping its binding and tee pad
/// and leaving it open, keeps the invariant.
proof fn lemma_replace_session_keeps_wf(s: Seq<Stream>, t: Seq<Stream>, i: int, k: int)
    requires
        streams_wf(s),
        0 <= i < s.len(),
        0 <= k < s[i].sinks@.len(),
        s[i].sinks@[k] is WebRtc,
        session_replaced(s, t, i, k),
        webrtc_of(t[i].sinks@[k]).bind == webrtc_of(s[i].sinks@[k]).bind,
        webrtc_of(t[i].sinks@[k]).tee_src_pad == webrtc_of(s[i].sinks@[k]).tee_src_pad,
        webrtc_of(t[i].sinks@[k]).state != WebRtcState::Closed,
    ensures
        streams_wf(t),
{
    let a = s[i];
    let b = t[i];
    assert forall|q: int| 0 <= q < b.sinks@.len() implies sink_id(#[trigger] b.sinks@[q]) == sink_id(a.sinks@[q])
        && sink_pad(b.sinks@[q]) == sink_pad(a.sinks@[q]) by {
        if q != k {
            assert(b.sinks@[q] == a.sinks@[q]);
        }
    }
    assert(b.wf()) by {
        assert forall|x: int, y: int| 0 <= x < b.sinks@.len() && 0 <= y < b.sinks@.len() && x != y
            implies sink_id(#[trigger] b.sinks@[x]) != sink_id(#[trigger] b.sinks@[y]) by {
            assert(sink_id(b.sinks@[x]) == sink_id(a.sinks@[x]));
            assert(sink_id(b.sinks@[y]) == sink_id(a.sinks@[y]));
        }
        assert forall|x: int| 0 <= x < b.sinks@.len() implies sink_pad(#[trigger] b.sinks@[x]) == Some(b.pipeline.pads@[x]) by {
            assert(sink_pad(b.sinks@[x]) == sink_pad(a.sinks@[x]));
        }
    }
    assert(sessions_open(b)) by {
        assert forall|q: int| 0 <= q < b.sinks@.len() implies match #[trigger] b.sinks@[q] {
            Sink::WebRtc(w) => w.state != WebRtcState::Closed && w.bind.producer_id == b.id,
            _ => true,
        } by {
            if q != k {
                assert(b.sinks@[q] == a.sinks@[q]);
                assert(sessions_open(a));
                assert(match a.sinks@[q] {
                    Sink::WebRtc(w) => w.state != WebRtcState::Closed && w.bind.producer_id == a.id,
                    _ => true,
                });
            } else {
                assert(sessions_open(a));
                assert(match a.sinks@[k] {
                    Sink::WebRtc(w) => w.state != WebRtcState::Closed && w.bind.producer_id == a.id,
                    _ => true,
                });
            }
        }
    }
    assert forall|j: int| 0 <= j < t.len() implies (#[trigger] t[j]).wf() && sessions_open(t[j])
        && backend_result(t[j].video_and_stream_information@) is Ok by {
        if j != i {
            assert(t[j] == s[j]);
        }
    }
    assert forall|x: int, y: int| 0 <= x < t.len() && 0 <= y < t.len() && x != y
        implies compatible(#[trigger] t[x], #[trigger] t[y]) by {
        assert(compatible(s[x], s[y]));
        if x != i {
            assert(t[x] == s[x]);
        }
        if y != i {
            assert(t[y] == s[y]);
        }
    }
}

/// Replacing one stream by a well-formed one with the same id and
/// description whose sessions are open keeps the invariant.
proof fn lemma_update_stream_keeps_wf(s: Seq<Stream>, i: int, st: Stream)
    requires
        streams_wf(s),
        0 <= i < s.len(),
        st.wf(),
        st.id == s[i].id,
        st.video_and_stream_information == s[i].video_and_stream_information,
        sessions_open(st),
    ensures
        streams_wf(s.update(i, st)),
{
    let t = s.update(i, st);
    assert forall|j: int| 0 <= j < t.len() implies (#[trigger] t[j]).wf() && sessions_open(t[j])
        && backend_result(t[j].video_and_stream_information@) is Ok by {
        if j != i {
            assert(t[j] == s[j]);
        }
    }
    assert forall|x: int, y: int| 0 <= x < t.len() && 0 <= y < t.len() && x != y
        implies compatible(#[trigger] t[x], #[trigger] t[y]) by {
        assert(compatible(s[x], s[y]));
    }
}

/// `w` is the session just made for `answer` on tee pad `pad`.
pub open spec fn fresh_session(w: WebRtcSink, answer: BindAnswer, pad: u64) -> bool {
    &&& w.bind == answer
    &&& w.tee_src_pad == Some(pad)
    &&& w.state == WebRtcState::New
    &&& w.outbox@ == seq![Message::BindAnswer(answer)]
    &&& w.remote_candidates@.len() == 0
    &&& !w.end_of_candidates
}

/// `new` is `old` with session `a` just opened on its producer: the
/// producer is registered, the session id was not a sink of it, and a fresh
/// WebRTC sink for `a` is appended on the next tee pad; nothing else
/// changes.
pub open spec fn session_added(old: Seq<Stream>, new: Seq<Stream>, a: BindAnswer) -> bool {
    let i = index_of(old, a.producer_id);
    let st = old[i];
    &&& has_stream(old, a.producer_id)
    &&& !has_sink(st.sinks@, a.session_id)
    &&& new.len() == old.len()
    &&& forall|j: int| 0 <= j < old.len() && j != i ==> #[trigger] new[j] == old[j]
    &&& new[i].id == st.id
    &&& new[i].video_and_stream_information == st.video_and_stream_information
    &&& new[i].sinks@.len() == st.sinks@.len() + 1
    &&& new[i].sinks@.drop_last() == st.sinks@
    &&& (new[i].sinks@.last() matches Sink::WebRtc(w) && fresh_session(w, a, st.pipeline.next_pad))
}

/// The index of the stream with this id.
pub open spec fn index_of(s: Seq<Stream>, id: u128) -> int {
    choose|i: int| 0 <= i < s.len() && (#[trigger] s[i]).id == id
}

/// Once the stream of `producer` has no sink `session`, signalling for that
/// session finds no sink.
proof fn lemma_sink_gone(t: Seq<Stream>, i: int, producer: u128, session: u128)
    requires
        streams_wf(t),
        0 <= i < t.len(),
        t[i].id == producer,
        !has_sink(t[i].sinks@, session),
    ensures
        lookup_error(t, producer, session) == Some(ManagerError::SinkNotFound),
{
    assert(has_stream(t, producer));
    if t[i].id == producer {
        assert(!has_sink(t[i].sinks@, session));
    }
}

/// A sink with id `session` exists in the stream of producer `producer` as a
/// WebRTC sink.
pub open spec fn sink_exists(s: Seq<Stream>, producer: u128, session: u128) -> bool {
    exists|i: int, k: int| located(s, producer, session, i, k) && (#[trigger] s[i].sinks@[k]) is WebRtc
}

/// The session with id `session` on producer `producer` is alive: bound to
/// that producer and not closed.
pub open spec fn session_alive(s: Seq<Stream>, producer: u128, session: u128) -> bool {
    exists|i: int, k: int| located(s, producer, session, i, k) && ((#[trigger] s[i].sinks@[k]) matches Sink::WebRtc(w)
        && w.state != WebRtcState::Closed && w.bind.producer_id == producer)
}

/// In a well-formed registry a session is alive exactly when its WebRTC
/// sink exists in its producer's stream.
pub proof fn lemma_session_iff_sink(m: Manager, producer: u128, session: u128)
    requires
        m.wf(),
    ensures
        sink_exists(m.streams@, producer, session) <==> session_alive(m.streams@, producer, session),
{
    let s = m.streams@;
    if sink_exists(s, producer, session) {
        let (i, k) = choose|i: int, k: int| located(s, producer, session, i, k) && (#[trigger] s[i].sinks@[k]) is WebRtc;
        assert(sessions_open(s[i]));
        assert(match s[i].sinks@[k] {
            Sink::WebRtc(w) => w.state != WebRtcState::Closed && w.bind.producer_id == s[i].id,
            _ => true,
        });
        assert(s[i].sinks@[k] matches Sink::WebRtc(w) && (w.state != WebRtcState::Closed && w.bind.producer_id == producer));
    }
}

/// The registry as a list of ids and descriptions.
pub open spec fn entries_of(s: Seq<Stream>) -> Seq<(u128, InfoView)> {
    Seq::new(s.len(), |k: int| (s[k].id, s[k].video_and_stream_information@))
}

/// The descriptions of a list of stream descriptions.
pub open spec fn views_of(v: Seq<VideoAndStreamInformation>) -> Seq<InfoView> {
    Seq::new(v.len(), |k: int| v[k]@)
}

/// `conflict_with_all` over a list of ids and descriptions.
pub open spec fn entry_conflict(e: Seq<(u128, InfoView)>, i: InfoView) -> Option<ConflictError> {
    if exists|k: int| 0 <= k < e.len() && conflict_of((#[trigger] e[k]).1, i) == Some(ConflictError::Name) {
        Some(ConflictError::Name)
    } else if exists|k: int| 0 <= k < e.len() && conflict_of((#[trigger] e[k]).1, i) == Some(ConflictError::Endpoint) {
        Some(ConflictError::Endpoint)
    } else {
        None
    }
}

/// Whether a list of ids and descriptions holds this id.
pub open spec fn entry_has(e: Seq<(u128, InfoView)>, id: u128) -> bool {
    exists|k: int| 0 <= k < e.len() && (#[trigger] e[k]).0 == id
}

/// `add_stream` over a list of ids and descriptions.
pub open spec fn entry_add(e: Seq<(u128, InfoView)>, i: InfoView, id: u128) -> Seq<(u128, InfoView)> {
    if backend_result(i) is Ok && entry_conflict(e, i) is None && !entry_has(e, id) {
        e.push((id, i))
    } else {
        e
    }
}

/// What loading stored descriptions gives: each available one is added in
/// turn under its id; those refused are left out.
pub open spec fn reload(infos: Seq<InfoView>, available: Seq<bool>, ids: Seq<u128>) -> Seq<(u128, InfoView)>
    decreases infos.len(),
{
    if infos.len() == 0 {
        Seq::empty()
    } else {
        let k = infos.len() - 1;
        let prev = reload(infos.drop_last(), available, ids);
        if k < available.len() && available[k] && k < ids.len() {
            entry_add(prev, infos[k], ids[k])
        } else {
            prev
        }
    }
}

proof fn lemma_entries_agree(s: Seq<Stream>, i: InfoView, id: u128)
    ensures
        conflict_with_all(s, i) == entry_conflict(entries_of(s), i),
        has_stream(s, id) == entry_has(entries_of(s), id),
{
    let e = entries_of(s);
    if exists|k: int| 0 <= k < s.len() && conflict_of((#[trigger] s[k]).video_and_stream_information@, i) == Some(ConflictError::Name) {
        let k = choose|k: int| 0 <= k < s.len() && conflict_of((#[trigger] s[k]).video_and_stream_information@, i) == Some(ConflictError::Name);
        assert(e[k].1 == s[k].video_and_stream_information@);
    }
    if exists|k: int| 0 <= k < e.len() && conflict_of((#[trigger] e[k]).1, i) == Some(ConflictError::Name) {
        let k = choose|k: int| 0 <= k < e.len() && conflict_of((#[trigger] e[k]).1, i) == Some(ConflictError::Name);
        assert(e[k].1 == s[k].video_and_stream_information@);
    }
    if exists|k: int| 0 <= k < s.len() && conflict_of((#[trigger] s[k]).video_and_stream_information@, i) == Some(ConflictError::Endpoint) {
        let k = choose|k: int| 0 <= k < s.len() && conflict_of((#[trigger] s[k]).video_and_stream_information@, i) == Some(ConflictError::Endpoint);
        assert(e[k].1 == s[k].video_and_stream_information@);
    }
    if exists|k: int| 0 <= k < e.len() && conflict_of((#[trigger] e[k]).1, i) == Some(ConflictError::Endpoint) {
        let k = choose|k: int| 0 <= k < e.len() && conflict_of((#[trigger] e[k]).1, i) == Some(ConflictError::Endpoint);
        assert(e[k].1 == s[k].video_and_stream_information@);
    }
    if has_stream(s, id) {
        let k = choose|k: int| 0 <= k < s.len() && (#[trigger] s[k]).id == id;
        assert(e[k].0 == id);
    }
    if entry_has(e, id) {
        let k = choose|k: int| 0 <= k < e.len() && (#[trigger] e[k]).0 == id;
        assert(s[k].id == id);
    }
}

proof fn lemma_reload_prefix(m: Manager, ids: Seq<u128>, j: int)
    requires
        m.wf(),
        ids.len() == m.streams@.len(),
        forall|a: int, b: int| 0 <= a < ids.len() && 0 <= b < ids.len() && a != b ==> ids[a] != ids[b],
        0 <= j <= m.streams@.len(),
    ensures
        reload(entries_of(m.streams@).map_values(|e: (u128, InfoView)| e.1).subrange(0, j), Seq::new(ids.len(), |k: int| true), ids)
            == Seq::new(j as nat, |k: int| (ids[k], m.streams@[k].video_and_stream_information@)),
    decreases j,
{
    let s = m.streams@;
    let infos = entries_of(s).map_values(|e: (u128, InfoView)| e.1);
    let avail = Seq::new(ids.len(), |k: int| true);
    if j == 0 {
        assert(infos.subrange(0, 0) =~= Seq::<InfoView>::empty());
        assert(Seq::new(0, |k: int| (ids[k], s[k].video_and_stream_information@)) =~= Seq::<(u128, InfoView)>::empty());
    } else {
        let p = j - 1;
        lemma_reload_prefix(m, ids, p);
        let prev = Seq::new(p as nat, |k: int| (ids[k], s[k].video_and_stream_information@));
        let x = infos.subrange(0, j);
        assert(x.drop_last() =~= infos.subrange(0, p));
        assert(x[p] == s[p].video_and_stream_information@);
        assert(backend_result(s[p].video_and_stream_information@) is Ok);
        assert forall|k: int| 0 <= k < prev.len() implies conflict_of((#[trigger] prev[k]).1, x[p]) is None by {
            assert(compatible(s[k], s[p]));
        }
        assert(!entry_has(prev, ids[p]));
        assert(entry_conflict(prev, x[p]) is None);
        assert(reload(x, avail, ids) == entry_add(prev, x[p], ids[p]));
        assert(prev.push((ids[p], x[p])) =~= Seq::new(j as nat, |k: int| (ids[k], s[k].video_and_stream_information@)));
    }
}

/// Storing the descriptions of a well-formed registry and loading them
/// back, every one available, under distinct fresh ids, gives the same
/// descriptions in the same order, each under its new id.
pub proof fn lemma_persist_reload(m: Manager, ids: Seq<u128>)
    requires
        m.wf(),
        ids.len() == m.streams@.len(),
        forall|a: int, b: int| 0 <= a < ids.len() && 0 <= b < ids.len() && a != b ==> ids[a] != ids[b],
    ensures
        reload(entries_of(m.streams@).map_values(|e: (u128, InfoView)| e.1), Seq::new(ids.len(), |k: int| true), ids)
            == Seq::new(ids.len(), |k: int| (ids[k], m.streams@[k].video_and_stream_information@)),
{
    let n = m.streams@.len() as int;
    lemma_reload_prefix(m, ids, n);
    let infos = entries_of(m.streams@).map_values(|e: (u128, InfoView)| e.1);
    assert(infos.subrange(0, n) =~= infos);
}

/// Storing the descriptions of a well-formed registry and loading them
/// back with `start_default`, every source available, gives the same
/// descriptions in the same order, under new pairwise-distinct ids.
pub proof fn lemma_start_default_restores(m: Manager, stored: Seq<InfoView>, available: Seq<bool>, after: Seq<(u128, InfoView)>)
    requires
        m.wf(),
        stored.len() == m.streams@.len(),
        forall|k: int| 0 <= k < stored.len() ==> #[trigger] stored[k] == m.streams@[k].video_and_stream_information@,
        available.len() == stored.len(),
        forall|k: int| 0 <= k < available.len() ==> #[trigger] available[k],
        exists|ids: Seq<u128>| ids.len() == stored.len() && ids.no_duplicates()
            && after == #[trigger] reload(stored, available, ids),
    ensures
        after.len() == stored.len(),
        forall|k: int| 0 <= k < after.len() ==> (#[trigger] after[k]).1 == stored[k],
        forall|a: int, b: int| 0 <= a < after.len() && 0 <= b < after.len() && a != b ==> (#[trigger] after[a]).0 != (#[trigger] after[b]).0,
{
    let ids = choose|ids: Seq<u128>| ids.len() == stored.len() && ids.no_duplicates()
        && after == #[trigger] reload(stored, available, ids);
    assert(available =~= Seq::new(ids.len(), |k: int| true));
    assert(stored =~= entries_of(m.streams@).map_values(|e: (u128, InfoView)| e.1));
    lemma_persist_reload(m, ids);
}

/// Removing a registered stream leaves none with its id, so removing it
/// again finds nothing.
pub proof fn lemma_remove_stream_idempotent(m: Manager, i: int)
    requires
        m.wf(),
        0 <= i < m.streams@.len(),
    ensures
        streams_wf(m.streams@.remove(i)),
        !has_stream(m.streams@.remove(i), m.streams@[i].id),
{
    lemma_remove_keeps_wf(m.streams@, i);
}

/// In a listing of a well-formed registry, a registered name appears in
/// exactly one entry.
pub proof fn lemma_listed_once(m: Manager, list: Seq<StreamStatus>, name: Seq<char>)
    requires
        m.wf(),
        list.len() == m.streams@.len(),
        forall|i: int| 0 <= i < list.len() ==> status_of(#[trigger] list[i], m.streams@[i]),
        has_name(m.streams@, name),
    ensures
        exists|i: int| 0 <= i < list.len() && (#[trigger] list[i]).video_and_stream@.name == name
            && forall|j: int| 0 <= j < list.len() && j != i ==> (#[trigger] list[j]).video_and_stream@.name != name,
{
    let s = m.streams@;
    let i = choose|i: int| 0 <= i < s.len() && (#[trigger] s[i]).video_and_stream_information@.name == name;
    assert(status_of(list[i], s[i]));
    assert forall|j: int| 0 <= j < list.len() && j != i implies (#[trigger] list[j]).video_and_stream@.name != name by {
        assert(status_of(list[j], s[j]));
        assert(compatible(s[j], s[i]));
    }
}

/// No two streams of a well-formed registry share a host and port.
pub proof fn lemma_endpoints_disjoint(m: Manager, i: int, j: int)
    requires
        m.wf(),
        0 <= i < m.streams@.len(),
        0 <= j < m.streams@.len(),
        i != j,
    ensures
        !endpoints_overlap(m.streams@[i].video_and_stream_information@.endpoints, m.streams@[j].video_and_stream_information@.endpoints),
{
    assert(compatible(m.streams@[i], m.streams@[j]));
}

proof fn lemma_add_entries(before: Seq<Stream>, after: Seq<Stream>, iv: InfoView, id: u128)
    requires
        match add_result(before, iv, id) {
            Ok(_) => after.len() == before.len() + 1 && after.drop_last() == before && after.last().id == id
                && after.last().video_and_stream_information@ == iv,
            Err(_) => after == before,
        },
    ensures
        entries_of(after) == entry_add(entries_of(before), iv, id),
{
    lemma_entries_agree(before, iv, id);
    if add_result(before, iv, id) is Ok {
        assert forall|k: int| 0 <= k < before.len() implies #[trigger] after[k] == before[k] by {
            assert(after.drop_last()[k] == after[k]);
        }
        assert(entries_of(after) =~= entries_of(before).push((id, iv)));
    }
}

proof fn lemma_reload_unfold(v: Seq<InfoView>, available: Seq<bool>, ids: Seq<u128>, k: int)
    requires
        0 <= k < v.len(),
    ensures
        reload(v.subrange(0, k + 1), available, ids) == (if k < available.len() && available[k] && k < ids.len() {
            entry_add(reload(v.subrange(0, k), available, ids), v[k], ids[k])
        } else {
            reload(v.subrange(0, k), available, ids)
        }),
{
    let x = v.subrange(0, k + 1);
    assert(x.drop_last() =~= v.subrange(0, k));
    assert(x[k] == v[k]);
}

impl Manager {
    /// Every stream is well formed and described validly; ids are distinct;
    /// no two streams share a name or a host and port; every session on a
    /// stream is open and bound to it.
    pub open spec fn wf(&self) -> bool {
        streams_wf(self.streams@)
    }

    /// An empty registry.
    pub fn new() -> (r: Manager)
        ensures
            r.wf(),
            r.streams@.len() == 0,
    {
        Manager { streams: Vec::new() }
    }

    fn find(&self, id: u128) -> (r: Option<usize>)
        ensures
            match r {
                Some(i) => i < self.streams@.len() && self.streams@[i as int].id == id,
                None => !has_stream(self.streams@, id),
            },
    {
        let mut i: usize = 0;
        while i < self.streams.len()
            invariant
                i <= self.streams@.len(),
                forall|k: int| 0 <= k < i ==> (#[trigger] self.streams@[k]).id != id,
            decreases self.streams@.len() - i,
        {
            if self.streams[i].id == id {
                return Some(i);
            }
            i = i + 1;
        }
        None
    }

    fn find_conflict(&self, info: &VideoAndStreamInformation) -> (r: Option<ConflictError>)
        ensures
            r == conflict_with_all(self.streams@, info@),
    {
        let mut name_hit = false;
        let mut endpoint_hit = false;
        let mut i: usize = 0;
        while i < self.streams.len()
            invariant
                i <= self.streams@.len(),
                name_hit == exists|k: int| 0 <= k < i && conflict_of((#[trigger] self.streams@[k]).video_and_stream_information@, info@) == Some(ConflictError::Name),
                endpoint_hit == exists|k: int| 0 <= k < i && conflict_of((#[trigger] self.streams@[k]).video_and_stream_information@, info@) == Some(ConflictError::Endpoint),
            decreases self.streams@.len() - i,
        {
            match self.streams[i].video_and_stream_information.conflicts_with(info) {
                Err(ConflictError::Name) => {
                    name_hit = true;
                },
                Err(ConflictError::Endpoint) => {
                    endpoint_hit = true;
                },
                Ok(()) => {},
            }
            i = i + 1;
        }
        if name_hit {
            Some(ConflictError::Name)
        } else if endpoint_hit {
            Some(ConflictError::Endpoint)
        } else {
            None
        }
    }

    /// Registers a stream under `id`, its pipeline playing and with no
    /// sinks. Refused, with the registry unchanged, when the description is
    /// invalid or cannot be built, when it conflicts with a registered
    /// stream, or when the id is taken.
    pub fn add_stream(&mut self, info: VideoAndStreamInformation, id: u128) -> (r: Result<u128, ManagerError>)
        requires
            old(self).wf(),
        ensures
            final(self).wf(),
            match add_result(old(self).streams@, info@, id) {
                Ok(d) => r == Ok::<u128, ManagerError>(id)
                    && final(self).streams@.len() == old(self).streams@.len() + 1
                    && final(self).streams@.drop_last() == old(self).streams@
                    && final(self).streams@.last().id == id
                    && final(self).streams@.last().video_and_stream_information@ == info@
                    && final(self).streams@.last().pipeline.description@ == d
                    && final(self).streams@.last().pipeline.state == PipelineState::Playing
                    && final(self).streams@.last().sinks@.len() == 0
                    && named_once(final(self).streams@, info@.name),
                Err(e) => r == Err::<u128, ManagerError>(e) && final(self).streams@ == old(self).streams@,
            },
    {
        let description = match new(&info) {
            Err(e) => {
                return Err(ManagerError::Backend(e));
            },
            Ok(StreamType::UDP(s)) => s.pipeline_description,
        };
        match self.find_conflict(&info) {
            Some(c) => {
                return Err(ManagerError::Conflict(c));
            },
            None => {},
        }
        if self.find(id).is_some() {
            return Err(ManagerError::IdInUse);
        }
        let ghost iv = info@;
        let ghost old_streams = self.streams@;
        let stream = Stream::new(id, info, description);
        let ghost st = stream;
        self.streams.push(stream);
        proof {
            lemma_push_keeps_wf(old_streams, st);
            assert(self.streams@ == old_streams.push(st));
            assert(self.streams@.drop_last() =~= old_streams);
        }
        Ok(id)
    }
    /// Takes the stream with this id out of the registry and tears it down:
    /// its pipeline stopped, its sinks detached with no tee pad left, its
    /// sessions closed with an end-of-session message queued.
    pub fn remove_stream(&mut self, id: u128) -> (r: Result<RemovedStream, ManagerError>)
        requires
            old(self).wf(),
        ensures
            final(self).wf(),
            !has_stream(final(self).streams@, id),
            !has_stream(old(self).streams@, id) ==> (r matches Err(e) && e == ManagerError::NotFound
                && final(self).streams@ == old(self).streams@),
            has_stream(old(self).streams@, id) ==> (r matches Ok(rm) && exists|i: int| 0 <= i < old(self).streams@.len()
                && old(self).streams@[i].id == id
                && final(self).streams@ == old(self).streams@.remove(i)
                && removed_from(old(self).streams@[i], rm)),
    {
        match self.find(id) {
            None => Err(ManagerError::NotFound),
            Some(i) => {
                proof {
                    lemma_remove_keeps_wf(self.streams@, i as int);
                }
                let mut stream = self.streams.remove(i);
                let sinks = stream.shut_down("Stream removed");
                proof { reveal_strlit("Stream removed"); }
                Ok(RemovedStream { stream, sinks })
            },
        }
    }

    /// Takes the stream with this name out of the registry and tears it
    /// down, as `remove_stream` does.
    pub fn remove_stream_by_name(&mut self, stream_name: &str) -> (r: Result<RemovedStream, ManagerError>)
        requires
            old(self).wf(),
        ensures
            final(self).wf(),
            !has_name(old(self).streams@, stream_name@) ==> (r matches Err(e) && e == ManagerError::NotFound
                && final(self).streams@ == old(self).streams@),
            has_name(old(self).streams@, stream_name@) ==> (r matches Ok(rm) && exists|i: int| 0 <= i < old(self).streams@.len()
                && old(self).streams@[i].video_and_stream_information@.name == stream_name@
                && final(self).streams@ == old(self).streams@.remove(i)
                && removed_from(old(self).streams@[i], rm)),
            !has_name(final(self).streams@, stream_name@),
    {
        let mut i: usize = 0;
        while i < self.streams.len()
            invariant
                i <= self.streams@.len(),
                self.wf(),
                self.streams@ == old(self).streams@,
                forall|k: int| 0 <= k < i ==> (#[trigger] self.streams@[k]).video_and_stream_information@.name != stream_name@,
            decreases self.streams@.len() - i,
        {
            if crate::text::str_eq(self.streams[i].video_and_stream_information.name.as_str(), stream_name) {
                let ghost before = self.streams@;
                let id = self.streams[i].id;
                let r = self.remove_stream(id);
                proof {
                    let k = choose|k: int| 0 <= k < before.len() && before[k].id == id
                        && self.streams@ == before.remove(k) && removed_from(before[k], r->Ok_0);
                    assert(k == i as int) by {
                        if k != i as int {
                            assert(compatible(before[k], before[i as int]));
                        }
                    }
                    assert forall|a: int| 0 <= a < self.streams@.len()
                        implies (#[trigger] self.streams@[a]).video_and_stream_information@.name != stream_name@ by {
                        let a2 = if a < k { a } else { a + 1 };
                        assert(self.streams@[a] == before[a2]);
                        assert(compatible(before[a2], before[k]));
                    }
                }
                return r;
            }
            i = i + 1;
        }
        Err(ManagerError::NotFound)
    }

    /// A snapshot of every stream: id, whether it plays, description; in
    /// registry order.
    pub fn streams(&self) -> (r: Vec<StreamStatus>)
        ensures
            r@.len() == self.streams@.len(),
            forall|i: int| 0 <= i < r@.len() ==> status_of(#[trigger] r@[i], self.streams@[i]),
    {
        let mut r: Vec<StreamStatus> = Vec::new();
        let mut i: usize = 0;
        while i < self.streams.len()
            invariant
                i <= self.streams@.len(),
                r@.len() == i,
                forall|k: int| 0 <= k < i ==> status_of(#[trigger] r@[k], self.streams@[k]),
            decreases self.streams@.len() - i,
        {
            let st = &self.streams[i];
            r.push(StreamStatus { id: st.id, running: st.is_running(), video_and_stream: st.video_and_stream_information.copy() });
            i = i + 1;
        }
        r
    }

    /// The descriptions of every stream, in registry order: what the
    /// settings store keeps.
    pub fn stream_infos(&self) -> (r: Vec<VideoAndStreamInformation>)
        ensures
            r@.len() == self.streams@.len(),
            forall|i: int| 0 <= i < r@.len() ==> (#[trigger] r@[i])@ == self.streams@[i].video_and_stream_information@,
    {
        let mut r: Vec<VideoAndStreamInformation> = Vec::new();
        let mut i: usize = 0;
        while i < self.streams.len()
            invariant
                i <= self.streams@.len(),
                r@.len() == i,
                forall|k: int| 0 <= k < i ==> (#[trigger] r@[k])@ == self.streams@[k].video_and_stream_information@,
            decreases self.streams@.len() - i,
        {
            r.push(self.streams[i].video_and_stream_information.copy());
            i = i + 1;
        }
        r
    }
    fn locate(&self, producer: u128, session: u128) -> (r: Result<(usize, usize), ManagerError>)
        requires
            self.wf(),
        ensures
            match lookup_error(self.streams@, producer, session) {
                Some(e) => r == Err::<(usize, usize), ManagerError>(e),
                None => r matches Ok((i, k)) && located(self.streams@, producer, session, i as int, k as int),
            },
    {
        let ghost s = self.streams@;
        match self.find(producer) {
            None => Err(ManagerError::NotFound),
            Some(i) => {
                proof {
                    assert forall|j: int| 0 <= j < s.len() && (#[trigger] s[j]).id == producer implies j == i as int by {
                        if j != i as int {
                            assert(compatible(s[j], s[i as int]));
                        }
                    }
                }
                match self.streams[i].find_sink(session) {
                    None => Err(ManagerError::SinkNotFound),
                    Some(k) => {
                        proof {
                            let st = s[i as int];
                            assert(st.wf());
                            assert forall|j: int, q: int| located(s, producer, session, j, q) implies q == k as int by {
                                assert(j == i as int);
                                if q != k as int {
                                    assert(sink_id(st.sinks@[q]) != sink_id(st.sinks@[k as int]));
                                }
                            }
                            assert(has_sink(st.sinks@, session));
                        }
                        match &self.streams[i].sinks[k] {
                            Sink::WebRtc(_) => {
                                proof {
                                    assert forall|j: int, q: int| located(s, producer, session, j, q)
                                        implies (#[trigger] s[j].sinks@[q]) is WebRtc by {
                                        assert(j == i as int && q == k as int);
                                    }
                                }
                                Ok((i, k))
                            },
                            _ => {
                                proof {
                                    assert(located(s, producer, session, i as int, k as int));
                                }
                                Err(ManagerError::NotWebRtc)
                            },
                        }
                    },
                }
            },
        }
    }

    /// Applies one signalling step to one session.
    fn apply_session(&mut self, producer: u128, session: u128, op: SessionOp) -> (r: Result<Vec<Message>, ManagerError>)
        requires
            old(self).wf(),
        ensures
            final(self).wf(),
            session_outcome(old(self).streams@, final(self).streams@, producer, session, op@, with_messages(r)),
            !(op@ is TakeMessages) && r is Ok ==> r->Ok_0@ == Seq::<Message>::empty(),
    {
        let ghost s = self.streams@;
        let ghost opv = op@;
        let (i, k) = match self.locate(producer, session) {
            Err(e) => {
                return Err(e);
            },
            Ok(p) => p,
        };
        proof {
            assert forall|j: int, q: int| located(s, producer, session, j, q) implies j == i as int && q == k as int by {
                if j != i as int {
                    assert(compatible(s[j], s[i as int]));
                }
                assert(s[i as int].wf());
                if q != k as int {
                    assert(sink_id(s[i as int].sinks@[q]) != sink_id(s[i as int].sinks@[k as int]));
                }
            }
            assert(sessions_open(s[i as int]));
            assert(match s[i as int].sinks@[k as int] {
                Sink::WebRtc(w) => w.state != WebRtcState::Closed && w.bind.producer_id == s[i as int].id,
                _ => true,
            });
        }
        let mut st = self.streams.remove(i);
        let sink = st.sinks.remove(k);
        match sink {
            Sink::WebRtc(mut w) => {
                let ghost w0 = w;
                let ghost take = op is TakeMessages;
                let out: Result<Vec<Message>, SessionError> = match op {
                    SessionOp::RemoteSdp(d) => match w.handle_sdp(&d) {
                        Ok(()) => Ok(Vec::new()),
                        Err(e) => Err(e),
                    },
                    SessionOp::RemoteIce(m, c) => match w.handle_ice(m, c.as_str()) {
                        Ok(()) => Ok(Vec::new()),
                        Err(e) => Err(e),
                    },
                    SessionOp::LocalSdp(d) => match w.on_local_description(&d) {
                        Ok(()) => Ok(Vec::new()),
                        Err(e) => Err(e),
                    },
                    SessionOp::LocalIce(m, c) => match w.on_local_ice(m, c.as_str()) {
                        Ok(()) => Ok(Vec::new()),
                        Err(e) => Err(e),
                    },
                    SessionOp::Connected => match w.on_connected() {
                        Ok(()) => Ok(Vec::new()),
                        Err(e) => Err(e),
                    },
                    SessionOp::Failure => {
                        w.on_failure();
                        Ok(Vec::new())
                    },
                    SessionOp::TakeMessages => Ok(w.take_messages()),
                };
                let ghost outv = match &out {
                    Ok(v) => Ok::<Seq<Message>, SessionError>(v@),
                    Err(e) => Err(*e),
                };
                assert(op_applied(w0, w, opv, outv));
                assert(!take && out is Ok ==> out->Ok_0@ == Seq::<Message>::empty());
                assert(w.state != WebRtcState::Closed);
                st.sinks.insert(k, Sink::WebRtc(w));
                self.streams.insert(i, st);
                proof {
                    let t = self.streams@;
                    assert(t[i as int].sinks@ =~= s[i as int].sinks@.update(k as int, Sink::WebRtc(w)));
                    assert(t =~= s.update(i as int, t[i as int]));
                    assert(session_replaced(s, t, i as int, k as int));
                    lemma_replace_session_keeps_wf(s, t, i as int, k as int);
                }
                match out {
                    Ok(v) => Ok(v),
                    Err(e) => Err(ManagerError::Session(e)),
                }
            },
            other => {
                proof {
                    assert(false);
                }
                st.sinks.insert(k, other);
                self.streams.insert(i, st);
                Err(ManagerError::NotWebRtc)
            },
        }
    }
    /// Opens a WebRTC session `session_id` on the producer of `bind`: a new
    /// WebRTC sink bound to producer, consumer and session, attached to a
    /// fresh tee pad, whose first queued message is the bind answer.
    /// `outcome` is what the media framework reported for linking it.
    pub fn add_session_with_id(&mut self, bind: &BindOffer, session_id: u128, outcome: LinkOutcome) -> (r: Result<BindAnswer, ManagerError>)
        requires
            old(self).wf(),
        ensures
            final(self).wf(),
            !has_stream(old(self).streams@, bind.producer_id) ==> r == Err::<BindAnswer, ManagerError>(ManagerError::NotFound)
                && final(self).streams@ == old(self).streams@,
            has_stream(old(self).streams@, bind.producer_id) ==> ({
                let i = index_of(old(self).streams@, bind.producer_id);
                let st = old(self).streams@[i];
                let answer = BindAnswer { producer_id: bind.producer_id, consumer_id: bind.consumer_id, session_id };
                &&& has_sink(st.sinks@, session_id) ==> r == Err::<BindAnswer, ManagerError>(ManagerError::Stream(StreamError::DuplicateSink))
                &&& !has_sink(st.sinks@, session_id) && st.pipeline.next_pad == u64::MAX
                    ==> r == Err::<BindAnswer, ManagerError>(ManagerError::Stream(StreamError::PadsExhausted))
                &&& !has_sink(st.sinks@, session_id) && st.pipeline.next_pad < u64::MAX ==> r == (match outcome {
                    LinkOutcome::Linked => Ok(answer),
                    LinkOutcome::AddFailed => Err(ManagerError::Stream(StreamError::AddFailed)),
                    LinkOutcome::LinkFailed => Err(ManagerError::Stream(StreamError::LinkFailed)),
                })
                &&& r is Err ==> final(self).streams@ == old(self).streams@
                &&& r is Ok ==> final(self).streams@.len() == old(self).streams@.len()
                    && (forall|j: int| 0 <= j < old(self).streams@.len() && j != i ==> #[trigger] final(self).streams@[j] == old(self).streams@[j])
                    && final(self).streams@[i].id == st.id
                    && final(self).streams@[i].video_and_stream_information == st.video_and_stream_information
                    && final(self).streams@[i].sinks@.len() == st.sinks@.len() + 1
                    && final(self).streams@[i].sinks@.drop_last() == st.sinks@
                    && (final(self).streams@[i].sinks@.last() matches Sink::WebRtc(w)
                    && fresh_session(w, answer, st.pipeline.next_pad))
            }),
    {
        let i = match self.find(bind.producer_id) {
            None => {
                return Err(ManagerError::NotFound);
            },
            Some(i) => i,
        };
        let ghost s = self.streams@;
        proof {
            assert(s[index_of(s, bind.producer_id)].id == bind.producer_id);
            assert(index_of(s, bind.producer_id) == i as int) by {
                let c = index_of(s, bind.producer_id);
                if c != i as int {
                    assert(compatible(s[c], s[i as int]));
                }
            }
        }
        let answer = BindAnswer { producer_id: bind.producer_id, consumer_id: bind.consumer_id, session_id };
        let w = WebRtcSink::try_new(answer);
        let mut st = self.streams.remove(i);
        let ghost st0 = st;
        let res = st.add_sink(Sink::WebRtc(w), outcome);
        proof {
            if res is Ok {
                assert forall|k: int| 0 <= k < st.sinks@.len() implies match #[trigger] st.sinks@[k] {
                    Sink::WebRtc(x) => x.state != WebRtcState::Closed && x.bind.producer_id == st.id,
                    _ => true,
                } by {
                    assert(sessions_open(st0));
                    if k < st0.sinks@.len() {
                        assert(st.sinks@[k] == st0.sinks@[k]);
                        assert(match st0.sinks@[k] {
                            Sink::WebRtc(x) => x.state != WebRtcState::Closed && x.bind.producer_id == st0.id,
                            _ => true,
                        });
                    }
                }
                lemma_update_stream_keeps_wf(s, i as int, st);
            } else {
                assert(sessions_open(st0));
                assert(st.sinks@ == st0.sinks@);
                assert(sessions_open(st));
                lemma_update_stream_keeps_wf(s, i as int, st);
            }
        }
        self.streams.insert(i, st);
        proof {
            assert(self.streams@ =~= s.update(i as int, st));
            if res is Err {
                assert(self.streams@ =~= s);
            } else {
                assert(st.sinks@.drop_last() =~= st0.sinks@);
            }
        }
        match res {
            Ok(()) => Ok(answer),
            Err(e) => Err(ManagerError::Stream(e)),
        }
    }
    /// Closes session `bind.session_id` of producer `bind.producer_id`: its
    /// sink is detached, its tee pad released, and an end of session queued
    /// for `reason`. A session that is already gone is no error.
    pub fn remove_session(&mut self, bind: &BindAnswer, reason: &str) -> (r: Result<Option<Sink>, ManagerError>)
        requires
            old(self).wf(),
        ensures
            final(self).wf(),
            r is Ok ==> lookup_error(final(self).streams@, bind.producer_id, bind.session_id) == Some(ManagerError::SinkNotFound),
            !has_stream(old(self).streams@, bind.producer_id) ==> (r matches Err(e) && e == ManagerError::NotFound
                && final(self).streams@ == old(self).streams@),
            has_stream(old(self).streams@, bind.producer_id) ==> ({
                let i = index_of(old(self).streams@, bind.producer_id);
                let st = old(self).streams@[i];
                &&& !has_sink(st.sinks@, bind.session_id) ==> (r matches Ok(None) && final(self).streams@ == old(self).streams@)
                &&& has_sink(st.sinks@, bind.session_id) ==> exists|k: int| 0 <= k < st.sinks@.len()
                    && sink_id(#[trigger] st.sinks@[k]) == bind.session_id
                    && if st.sinks@[k] is WebRtc {
                        &&& r matches Ok(Some(x)) && torn_down(st.sinks@[k], x, reason@)
                        &&& final(self).streams@.len() == old(self).streams@.len()
                        &&& forall|j: int| 0 <= j < old(self).streams@.len() && j != i ==> #[trigger] final(self).streams@[j] == old(self).streams@[j]
                        &&& final(self).streams@[i].id == st.id
                        &&& final(self).streams@[i].video_and_stream_information == st.video_and_stream_information
                        &&& final(self).streams@[i].pipeline.state == st.pipeline.state
                        &&& final(self).streams@[i].sinks@ == st.sinks@.remove(k)
                        &&& final(self).streams@[i].pipeline.pads@ == st.pipeline.pads@.remove(k)
                    } else {
                        r matches Err(e) && e == ManagerError::NotWebRtc && final(self).streams@ == old(self).streams@
                    }
            }),
    {
        let i = match self.find(bind.producer_id) {
            None => {
                return Err(ManagerError::NotFound);
            },
            Some(i) => i,
        };
        let ghost s = self.streams@;
        proof {
            assert(s[index_of(s, bind.producer_id)].id == bind.producer_id);
            assert(index_of(s, bind.producer_id) == i as int) by {
                let c = index_of(s, bind.producer_id);
                if c != i as int {
                    assert(compatible(s[c], s[i as int]));
                }
            }
        }
        let k = match self.streams[i].find_sink(bind.session_id) {
            None => {
                proof {
                    lemma_sink_gone(s, i as int, bind.producer_id, bind.session_id);
                }
                return Ok(None);
            },
            Some(k) => k,
        };
        proof {
            let st = s[i as int];
            assert(st.wf());
            assert forall|q: int| 0 <= q < st.sinks@.len() && sink_id(#[trigger] st.sinks@[q]) == bind.session_id implies q == k as int by {
                if q != k as int {
                    assert(sink_id(st.sinks@[q]) != sink_id(st.sinks@[k as int]));
                }
            }
        }
        match &self.streams[i].sinks[k] {
            Sink::WebRtc(_) => {},
            _ => {
                return Err(ManagerError::NotWebRtc);
            },
        }
        let mut st = self.streams.remove(i);
        let ghost st0 = st;
        let removed = st.remove_sink(bind.session_id);
        let mut sink = match removed {
            Ok(x) => x,
            Err(e) => {
                proof {
                    assert(false);
                }
                self.streams.insert(i, st);
                return Err(ManagerError::Stream(e));
            },
        };
        match &mut sink {
            Sink::WebRtc(w) => {
                w.close(reason);
            },
            _ => {},
        }
        proof {
            assert forall|q: int| 0 <= q < st.sinks@.len() implies match #[trigger] st.sinks@[q] {
                Sink::WebRtc(x) => x.state != WebRtcState::Closed && x.bind.producer_id == st.id,
                _ => true,
            } by {
                let q2 = if q < k { q } else { q + 1 };
                assert(st.sinks@[q] == st0.sinks@[q2]);
                assert(sessions_open(st0));
                assert(match st0.sinks@[q2] {
                    Sink::WebRtc(x) => x.state != WebRtcState::Closed && x.bind.producer_id == st0.id,
                    _ => true,
                });
            }
            lemma_update_stream_keeps_wf(s, i as int, st);
        }
        self.streams.insert(i, st);
        proof {
            assert(self.streams@ =~= s.update(i as int, st));
            lemma_sink_gone(self.streams@, i as int, bind.producer_id, bind.session_id);
        }
        Ok(Some(sink))
    }

    /// Applies the peer's session description to session `bind`.
    pub fn handle_sdp(&mut self, bind: &BindAnswer, desc: &RTCSessionDescription) -> (r: Result<(), ManagerError>)
        requires
            old(self).wf(),
        ensures
            final(self).wf(),
            session_outcome(old(self).streams@, final(self).streams@, bind.producer_id, bind.session_id,
                OpView::RemoteSdp(desc.kind), no_messages(r)),
    {
        let r = self.apply_session(bind.producer_id, bind.session_id, SessionOp::RemoteSdp(desc.copy()));
        proof {
            if r is Ok {
                assert(with_messages(r) == no_messages(Ok(())));
            }
        }
        match r {
            Ok(_) => Ok(()),
            Err(e) => Err(e),
        }
    }

    /// Adds the peer's ICE candidate to session `bind`; an empty candidate
    /// marks the end of the candidates.
    pub fn handle_ice(&mut self, bind: &BindAnswer, sdp_m_line_index: u32, candidate: &str) -> (r: Result<(), ManagerError>)
        requires
            old(self).wf(),
        ensures
            final(self).wf(),
            session_outcome(old(self).streams@, final(self).streams@, bind.producer_id, bind.session_id,
                OpView::RemoteIce(sdp_m_line_index, candidate@), no_messages(r)),
    {
        let r = self.apply_session(bind.producer_id, bind.session_id, SessionOp::RemoteIce(sdp_m_line_index, candidate.to_owned()));
        proof {
            if r is Ok {
                assert(with_messages(r) == no_messages(Ok(())));
            }
        }
        match r {
            Ok(_) => Ok(()),
            Err(e) => Err(e),
        }
    }

    /// Queues for the peer the local session description the media
    /// framework made for session `bind`.
    pub fn on_local_description(&mut self, bind: &BindAnswer, desc: &RTCSessionDescription) -> (r: Result<(), ManagerError>)
        requires
            old(self).wf(),
        ensures
            final(self).wf(),
            session_outcome(old(self).streams@, final(self).streams@, bind.producer_id, bind.session_id,
                OpView::LocalSdp(desc.kind, desc.sdp), no_messages(r)),
    {
        let r = self.apply_session(bind.producer_id, bind.session_id, SessionOp::LocalSdp(desc.copy()));
        proof {
            if r is Ok {
                assert(with_messages(r) == no_messages(Ok(())));
            }
        }
        match r {
            Ok(_) => Ok(()),
            Err(e) => Err(e),
        }
    }

    /// Queues for the peer a local ICE candidate the media framework
    /// gathered for session `bind`.
    pub fn on_local_ice(&mut self, bind: &BindAnswer, sdp_m_line_index: u32, candidate: &str) -> (r: Result<(), ManagerError>)
        requires
            old(self).wf(),
        ensures
            final(self).wf(),
            session_outcome(old(self).streams@, final(self).streams@, bind.producer_id, bind.session_id,
                OpView::LocalIce(sdp_m_line_index, candidate@), no_messages(r)),
    {
        let r = self.apply_session(bind.producer_id, bind.session_id, SessionOp::LocalIce(sdp_m_line_index, candidate.to_owned()));
        proof {
            if r is Ok {
                assert(with_messages(r) == no_messages(Ok(())));
            }
        }
        match r {
            Ok(_) => Ok(()),
            Err(e) => Err(e),
        }
    }

    /// Records that the media of session `bind` is negotiated.
    pub fn on_connected(&mut self, bind: &BindAnswer) -> (r: Result<(), ManagerError>)
        requires
            old(self).wf(),
        ensures
            final(self).wf(),
            session_outcome(old(self).streams@, final(self).streams@, bind.producer_id, bind.session_id,
                OpView::Connected, no_messages(r)),
    {
        let r = self.apply_session(bind.producer_id, bind.session_id, SessionOp::Connected);
        proof {
            if r is Ok {
                assert(with_messages(r) == no_messages(Ok(())));
            }
        }
        match r {
            Ok(_) => Ok(()),
            Err(e) => Err(e),
        }
    }

    /// Records that session `bind` failed (a peer timeout, an ICE failure).
    pub fn on_failure(&mut self, bind: &BindAnswer) -> (r: Result<(), ManagerError>)
        requires
            old(self).wf(),
        ensures
            final(self).wf(),
            session_outcome(old(self).streams@, final(self).streams@, bind.producer_id, bind.session_id,
                OpView::Failure, no_messages(r)),
    {
        let r = self.apply_session(bind.producer_id, bind.session_id, SessionOp::Failure);
        proof {
            if r is Ok {
                assert(with_messages(r) == no_messages(Ok(())));
            }
        }
        match r {
            Ok(_) => Ok(()),
            Err(e) => Err(e),
        }
    }

    /// Hands out the messages queued for the peer of session `bind`, oldest
    /// first.
    pub fn take_messages(&mut self, bind: &BindAnswer) -> (r: Result<Vec<Message>, ManagerError>)
        requires
            old(self).wf(),
        ensures
            final(self).wf(),
            session_outcome(old(self).streams@, final(self).streams@, bind.producer_id, bind.session_id,
                OpView::TakeMessages, with_messages(r)),
    {
        self.apply_session(bind.producer_id, bind.session_id, SessionOp::TakeMessages)
    }

    /// The ids of the registered streams.
    fn stream_ids(&self) -> (r: Vec<u128>)
        ensures
            forall|x: u128| r@.contains(x) <==> has_stream(self.streams@, x),
    {
        let mut r: Vec<u128> = Vec::new();
        let mut i: usize = 0;
        while i < self.streams.len()
            invariant
                i <= self.streams@.len(),
                r@.len() == i,
                forall|k: int| 0 <= k < i ==> r@[k] == (#[trigger] self.streams@[k]).id,
            decreases self.streams@.len() - i,
        {
            r.push(self.streams[i].id);
            i = i + 1;
        }
        proof {
            assert forall|x: u128| r@.contains(x) <==> has_stream(self.streams@, x) by {
                if r@.contains(x) {
                    let k = choose|k: int| 0 <= k < r@.len() && r@[k] == x;
                    assert(self.streams@[k].id == x);
                }
                if has_stream(self.streams@, x) {
                    let k = choose|k: int| 0 <= k < self.streams@.len() && (#[trigger] self.streams@[k]).id == x;
                    assert(r@[k] == x);
                }
            }
        }
        r
    }

    /// Opens a WebRTC session on the producer of `bind` under a random
    /// session id that none of its sinks holds, as `add_session_with_id`
    /// does.
    pub fn add_session(&mut self, bind: &BindOffer, outcome: LinkOutcome) -> (r: Result<BindAnswer, ManagerError>)
        requires
            old(self).wf(),
        ensures
            final(self).wf(),
            !has_stream(old(self).streams@, bind.producer_id) ==> r == Err::<BindAnswer, ManagerError>(ManagerError::NotFound)
                && final(self).streams@ == old(self).streams@,
            has_stream(old(self).streams@, bind.producer_id) ==> ({
                let st = old(self).streams@[index_of(old(self).streams@, bind.producer_id)];
                &&& st.pipeline.next_pad == u64::MAX ==> r == Err::<BindAnswer, ManagerError>(ManagerError::Stream(StreamError::PadsExhausted))
                &&& st.pipeline.next_pad < u64::MAX ==> match outcome {
                    LinkOutcome::Linked => r is Ok,
                    LinkOutcome::AddFailed => r == Err::<BindAnswer, ManagerError>(ManagerError::Stream(StreamError::AddFailed)),
                    LinkOutcome::LinkFailed => r == Err::<BindAnswer, ManagerError>(ManagerError::Stream(StreamError::LinkFailed)),
                }
            }),
            r is Err ==> final(self).streams@ == old(self).streams@,
            r matches Ok(a) ==> a.producer_id == bind.producer_id && a.consumer_id == bind.consumer_id
                && sink_exists(final(self).streams@, a.producer_id, a.session_id)
                && session_added(old(self).streams@, final(self).streams@, a),
    {
        let id = match self.find(bind.producer_id) {
            None => {
                return Err(ManagerError::NotFound);
            },
            Some(i) => {
                let taken = self.streams[i].sink_ids();
                crate::ids::fresh_id(&taken)
            },
        };
        let r = self.add_session_with_id(bind, id, outcome);
        proof {
            if r is Ok {
                let s = old(self).streams@;
                let t = self.streams@;
                let i = index_of(s, bind.producer_id);
                let k = t[i].sinks@.len() - 1;
                assert(t[i].sinks@[k] == t[i].sinks@.last());
                assert(located(t, bind.producer_id, id, i, k));
            }
        }
        r
    }

    /// Registers a stream under a random id that no registered stream
    /// holds, as `add_stream` does: it is refused only for an invalid or
    /// unbuildable description or a conflict.
    pub fn add_stream_and_start(&mut self, video_and_stream_information: VideoAndStreamInformation) -> (r: Result<u128, ManagerError>)
        requires
            old(self).wf(),
        ensures
            final(self).wf(),
            backend_result(video_and_stream_information@) matches Err(e) ==> r == Err::<u128, ManagerError>(ManagerError::Backend(e)),
            backend_result(video_and_stream_information@) is Ok && conflict_with_all(old(self).streams@, video_and_stream_information@) is Some
                ==> r == Err::<u128, ManagerError>(ManagerError::Conflict(conflict_with_all(old(self).streams@, video_and_stream_information@)->Some_0)),
            backend_result(video_and_stream_information@) is Ok && conflict_with_all(old(self).streams@, video_and_stream_information@) is None
                ==> r is Ok,
            r is Err ==> final(self).streams@ == old(self).streams@,
            r matches Ok(id) ==> !has_stream(old(self).streams@, id)
                && add_result(old(self).streams@, video_and_stream_information@, id) is Ok
                && final(self).streams@.drop_last() == old(self).streams@
                && final(self).streams@.len() == old(self).streams@.len() + 1
                && final(self).streams@.last().id == id
                && final(self).streams@.last().video_and_stream_information@ == video_and_stream_information@
                && named_once(final(self).streams@, video_and_stream_information@.name),
    {
        let taken = self.stream_ids();
        let id = crate::ids::fresh_id(&taken);
        self.add_stream(video_and_stream_information, id)
    }

    /// Replaces the registry by the stored descriptions: each one whose
    /// source is available (`available[k]`) is added in turn under
    /// `ids[k]`; those refused are left out.
    pub fn start_default_with_ids(&mut self, streams: Vec<VideoAndStreamInformation>, available: &Vec<bool>, ids: &Vec<u128>)
        requires
            old(self).wf(),
        ensures
            final(self).wf(),
            entries_of(final(self).streams@) == reload(views_of(streams@), available@, ids@),
    {
        self.streams = Vec::new();
        let ghost orig = streams@;
        assert(orig.len() == streams.len());
        let mut rest = streams;
        let mut k: usize = 0;
        proof {
            assert(entries_of(self.streams@) =~= Seq::<(u128, InfoView)>::empty());
            assert(views_of(orig).subrange(0, 0) =~= Seq::<InfoView>::empty());
        }
        while rest.len() > 0
            invariant
                self.wf(),
                orig.len() <= usize::MAX,
                k + rest@.len() == orig.len(),
                rest@ == orig.subrange(k as int, orig.len() as int),
                entries_of(self.streams@) == reload(views_of(orig).subrange(0, k as int), available@, ids@),
            decreases rest@.len(),
        {
            let info = rest.remove(0);
            let ghost iv = info@;
            let ghost before = self.streams@;
            assert(iv == views_of(orig)[k as int]);
            proof {
                lemma_reload_unfold(views_of(orig), available@, ids@, k as int);
            }
            if k < available.len() && available[k] && k < ids.len() {
                let _ = self.add_stream(info, ids[k]);
                proof {
                    lemma_add_entries(before, self.streams@, iv, ids@[k as int]);
                }
            }
            k = k + 1;
            assert(rest@ =~= orig.subrange(k as int, orig.len() as int));
        }
        proof {
            assert(views_of(orig).subrange(0, k as int) =~= views_of(orig));
        }
    }

    /// Replaces the registry by the stored descriptions, under fresh
    /// random ids, pairwise distinct, as `start_default_with_ids` does.
    pub fn start_default(&mut self, streams: Vec<VideoAndStreamInformation>, available: &Vec<bool>)
        requires
            old(self).wf(),
        ensures
            final(self).wf(),
            exists|ids: Seq<u128>| ids.len() == streams@.len() && ids.no_duplicates()
                && entries_of(final(self).streams@) == #[trigger] reload(views_of(streams@), available@, ids),
    {
        let ids = crate::ids::fresh_ids(streams.len());
        let ghost v = streams@;
        self.start_default_with_ids(streams, available, &ids);
        assert(entries_of(self.streams@) == reload(views_of(v), available@, ids@));
    }
}

} // verus!
