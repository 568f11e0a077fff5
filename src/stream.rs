//! A stream: one pipeline, the pads of its RTP tee, and the sinks attached
//! to them.
use vstd::prelude::*;
use crate::info::VideoAndStreamInformation;
use crate::sink::{Sink, WebRtcState, Message, sink_id, sink_pad, with_pad};

verus! {

/// State of a media pipeline.
#[derive(Clone, Copy, Debug, PartialEq, Eq, Structural)]
pub enum PipelineState {
    Null,
    Ready,
    Paused,
    Playing,
    Error,
}

/// A pipeline: its description, its state, and the source pads its RTP tee
/// has handed out.
#[derive(Debug)]
pub struct Pipeline {
    pub description: String,
    pub state: PipelineState,
    pub next_pad: u64,
    pub pads: Vec<u64>,
}

/// What the media framework reported when a sink's elements were added and
/// linked to a tee pad.
#[derive(Clone, Copy, Debug, PartialEq, Eq, Structural)]
pub enum LinkOutcome {
    Linked,
    AddFailed,
    LinkFailed,
}

/// Why a sink could not be added to or removed from a stream.
#[derive(Clone, Copy, Debug, PartialEq, Eq, Structural)]
pub enum StreamError {
    DuplicateSink,
    PadsExhausted,
    AlreadyLinked,
    AddFailed,
    LinkFailed,
    SinkNotFound,
}

/// A producer: its identifier, description, pipeline and sinks.
#[derive(Debug)]
pub struct Stream {
    pub id: u128,
    pub video_and_stream_information: VideoAndStreamInformation,
    pub pipeline: Pipeline,
    pub sinks: Vec<Sink>,
}

/// The identifiers of a list of sinks are distinct.
pub open spec fn distinct_sink_ids(sinks: Seq<Sink>) -> bool {
    forall|i: int, j: int| 0 <= i < sinks.len() && 0 <= j < sinks.len() && i != j ==> sink_id(#[trigger] sinks[i]) != sink_id(#[trigger] sinks[j])
}

/// Whether a list of sinks holds one with this identifier.
pub open spec fn has_sink(sinks: Seq<Sink>, id: u128) -> bool {
    exists|i: int| 0 <= i < sinks.len() && sink_id(#[trigger] sinks[i]) == id
}

impl Stream {
    /// The tee has handed out exactly one pad to each sink, in order, each
    /// pad once; sink identifiers are distinct.
    pub open spec fn wf(&self) -> bool {
        &&& self.sinks@.len() == self.pipeline.pads@.len()
        &&& forall|i: int| 0 <= i < self.sinks@.len() ==> sink_pad(#[trigger] self.sinks@[i]) == Some(self.pipeline.pads@[i])
        &&& forall|i: int| 0 <= i < self.pipeline.pads@.len() ==> #[trigger] self.pipeline.pads@[i] < self.pipeline.next_pad
        &&& forall|i: int, j: int| 0 <= i < self.pipeline.pads@.len() && 0 <= j < self.pipeline.pads@.len() && i != j
            ==> #[trigger] self.pipeline.pads@[i] != #[trigger] self.pipeline.pads@[j]
        &&& distinct_sink_ids(self.sinks@)
    }

    /// A new stream on a pipeline that plays, with no sinks.
    pub fn new(id: u128, info: VideoAndStreamInformation, description: String) -> (r: Stream)
        ensures
            r.wf(),
            r.id == id,
            r.video_and_stream_information == info,
            r.pipeline.description == description,
            r.pipeline.state == PipelineState::Playing,
            r.sinks@.len() == 0,
    {
        Stream {
            id,
            video_and_stream_information: info,
            pipeline: Pipeline { description, state: PipelineState::Playing, next_pad: 0, pads: Vec::new() },
            sinks: Vec::new(),
        }
    }

    /// The pipeline plays.
    pub fn is_running(&self) -> (r: bool)
        ensures
            r == (self.pipeline.state == PipelineState::Playing),
    {
        self.pipeline.state == PipelineState::Playing
    }

    /// Marks the pipeline as failed, after an error or an end of stream on
    /// its bus.
    pub fn mark_failed(&mut self)
        requires
            old(self).wf(),
        ensures
            final(self).wf(),
            final(self).pipeline.state == PipelineState::Error,
            final(self).id == old(self).id,
            final(self).video_and_stream_information == old(self).video_and_stream_information,
            final(self).sinks@ == old(self).sinks@,
            final(self).pipeline.pads@ == old(self).pipeline.pads@,
    {
        self.pipeline.state = PipelineState::Error;
    }

    pub(crate) fn find_sink(&self, id: u128) -> (r: Option<usize>)
        ensures
            match r {
                Some(i) => i < self.sinks@.len() && sink_id(self.sinks@[i as int]) == id,
                None => !has_sink(self.sinks@, id),
            },
    {
        let mut i: usize = 0;
        while i < self.sinks.len()
            invariant
                i <= self.sinks@.len(),
                forall|k: int| 0 <= k < i ==> sink_id(#[trigger] self.sinks@[k]) != id,
            decreases self.sinks@.len() - i,
        {
            if self.sinks[i].get_id() == id {
                return Some(i);
            }
            i = i + 1;
        }
        None
    }

    /// The identifiers of the attached sinks.
    pub fn sink_ids(&self) -> (r: Vec<u128>)
        ensures
            forall|x: u128| r@.contains(x) <==> has_sink(self.sinks@, x),
    {
        let mut r: Vec<u128> = Vec::new();
        let mut i: usize = 0;
        while i < self.sinks.len()
            invariant
                i <= self.sinks@.len(),
                r@.len() == i,
                forall|k: int| 0 <= k < i ==> r@[k] == sink_id(#[trigger] self.sinks@[k]),
            decreases self.sinks@.len() - i,
        {
            r.push(self.sinks[i].get_id());
            i = i + 1;
        }
        proof {
            assert forall|x: u128| r@.contains(x) <==> has_sink(self.sinks@, x) by {
                if r@.contains(x) {
                    let k = choose|k: int| 0 <= k < r@.len() && r@[k] == x;
                    assert(sink_id(self.sinks@[k]) == x);
                }
                if has_sink(self.sinks@, x) {
                    let k = choose|k: int| 0 <= k < self.sinks@.len() && sink_id(#[trigger] self.sinks@[k]) == x;
                    assert(r@[k] == x);
                }
            }
        }
        r
    }

    /// Whether a sink with this identifier is attached.
    pub fn contains_sink(&self, id: u128) -> (r: bool)
        ensures
            r == has_sink(self.sinks@, id),
    {
        self.find_sink(id).is_some()
    }

    /// Attaches a sink to a fresh pad of the RTP tee. `outcome` is what the
    /// media framework reported for adding and linking the sink's elements.
    /// On any failure the stream is left as it was: no sink added, no pad
    /// held.
    pub fn add_sink(&mut self, sink: Sink, outcome: LinkOutcome) -> (r: Result<(), StreamError>)
        requires
            old(self).wf(),
        ensures
            final(self).wf(),
            final(self).id == old(self).id,
            final(self).video_and_stream_information == old(self).video_and_stream_information,
            final(self).pipeline.state == old(self).pipeline.state,
            final(self).pipeline.description == old(self).pipeline.description,
            has_sink(old(self).sinks@, sink_id(sink)) ==> r == Err::<(), StreamError>(StreamError::DuplicateSink),
            !has_sink(old(self).sinks@, sink_id(sink)) && old(self).pipeline.next_pad == u64::MAX
                ==> r == Err::<(), StreamError>(StreamError::PadsExhausted),
            !has_sink(old(self).sinks@, sink_id(sink)) && old(self).pipeline.next_pad < u64::MAX && sink_pad(sink) is Some
                ==> r == Err::<(), StreamError>(StreamError::AlreadyLinked),
            !has_sink(old(self).sinks@, sink_id(sink)) && old(self).pipeline.next_pad < u64::MAX && sink_pad(sink) is None
                ==> r == (match outcome {
                    LinkOutcome::Linked => Ok(()),
                    LinkOutcome::AddFailed => Err(StreamError::AddFailed),
                    LinkOutcome::LinkFailed => Err(StreamError::LinkFailed),
                }),
            r is Ok ==> final(self).sinks@ == old(self).sinks@.push(with_pad(sink, Some(old(self).pipeline.next_pad)))
                && final(self).pipeline.pads@ == old(self).pipeline.pads@.push(old(self).pipeline.next_pad)
                && final(self).pipeline.next_pad == old(self).pipeline.next_pad + 1,
            r is Err ==> *final(self) == *old(self),
    {
        let mut sink = sink;
        if self.contains_sink(sink.get_id()) {
            return Err(StreamError::DuplicateSink);
        }
        if self.pipeline.next_pad == u64::MAX {
            return Err(StreamError::PadsExhausted);
        }
        let pad = self.pipeline.next_pad;
        match sink.link(pad) {
            Err(_) => {
                return Err(StreamError::AlreadyLinked);
            },
            Ok(()) => {},
        }
        match outcome {
            LinkOutcome::AddFailed => {
                return Err(StreamError::AddFailed);
            },
            LinkOutcome::LinkFailed => {
                return Err(StreamError::LinkFailed);
            },
            LinkOutcome::Linked => {},
        }
        proof {
            assert(sink_id(sink) == sink_id(with_pad(sink, None)));
        }
        self.sinks.push(sink);
        self.pipeline.pads.push(pad);
        self.pipeline.next_pad = pad + 1;
        Ok(())
    }

    /// Detaches the sink with this identifier and hands it back unlinked,
    /// its tee pad released.
    pub fn remove_sink(&mut self, id: u128) -> (r: Result<Sink, StreamError>)
        requires
            old(self).wf(),
        ensures
            final(self).wf(),
            final(self).id == old(self).id,
            final(self).video_and_stream_information == old(self).video_and_stream_information,
            final(self).pipeline.state == old(self).pipeline.state,
            final(self).pipeline.description == old(self).pipeline.description,
            final(self).pipeline.next_pad == old(self).pipeline.next_pad,
            match r {
                Ok(s) => exists|i: int| 0 <= i < old(self).sinks@.len() && sink_id(old(self).sinks@[i]) == id
                    && s == with_pad(old(self).sinks@[i], None)
                    && final(self).sinks@ == old(self).sinks@.remove(i)
                    && final(self).pipeline.pads@ == old(self).pipeline.pads@.remove(i),
                Err(e) => e == StreamError::SinkNotFound && !has_sink(old(self).sinks@, id)
                    && final(self).sinks@ == old(self).sinks@
                    && final(self).pipeline.pads@ == old(self).pipeline.pads@,
            },
            !has_sink(final(self).sinks@, id),
    {
        match self.find_sink(id) {
            None => Err(StreamError::SinkNotFound),
            Some(i) => {
                let ghost old_sinks = self.sinks@;
                let ghost old_pads = self.pipeline.pads@;
                let mut s = self.sinks.remove(i);
                self.pipeline.pads.remove(i);
                s.unlink();
                proof {
                    assert forall|a: int, b: int| 0 <= a < self.sinks@.len() && 0 <= b < self.sinks@.len() && a != b
                        implies sink_id(#[trigger] self.sinks@[a]) != sink_id(#[trigger] self.sinks@[b]) by {
                        let a2 = if a < i { a } else { a + 1 };
                        let b2 = if b < i { b } else { b + 1 };
                        assert(self.sinks@[a] == old_sinks[a2]);
                        assert(self.sinks@[b] == old_sinks[b2]);
                    }
                    assert forall|a: int, b: int| 0 <= a < self.pipeline.pads@.len() && 0 <= b < self.pipeline.pads@.len() && a != b
                        implies #[trigger] self.pipeline.pads@[a] != #[trigger] self.pipeline.pads@[b] by {
                        let a2 = if a < i { a } else { a + 1 };
                        let b2 = if b < i { b } else { b + 1 };
                        assert(self.pipeline.pads@[a] == old_pads[a2]);
                        assert(self.pipeline.pads@[b] == old_pads[b2]);
                    }
                    assert forall|a: int| 0 <= a < self.sinks@.len() implies sink_pad(#[trigger] self.sinks@[a]) == Some(self.pipeline.pads@[a]) by {
                        let a2 = if a < i { a } else { a + 1 };
                        assert(self.sinks@[a] == old_sinks[a2]);
                        assert(self.pipeline.pads@[a] == old_pads[a2]);
                    }
                    assert forall|a: int| 0 <= a < self.pipeline.pads@.len() implies #[trigger] self.pipeline.pads@[a] < self.pipeline.next_pad by {
                        let a2 = if a < i { a } else { a + 1 };
                        assert(self.pipeline.pads@[a] == old_pads[a2]);
                    }
                    assert forall|a: int| 0 <= a < self.sinks@.len() implies sink_id(#[trigger] self.sinks@[a]) != id by {
                        let a2 = if a < i { a } else { a + 1 };
                        assert(self.sinks@[a] == old_sinks[a2]);
                        assert(a2 != i);
                    }
                }
                Ok(s)
            },
        }
    }
}

/// `after` is `before` detached from its tee pad, with its session, if it
/// has one, closed for `reason`.
pub open spec fn torn_down(before: Sink, after: Sink, reason: Seq<char>) -> bool {
    &&& sink_id(after) == sink_id(before)
    &&& sink_pad(after) is None
    &&& match (before, after) {
        (Sink::WebRtc(b), Sink::WebRtc(a)) => {
            &&& a.state == WebRtcState::Closed
            &&& a.bind == b.bind
            &&& (b.state != WebRtcState::Closed ==> a.outbox@.len() == b.outbox@.len() + 1
                && a.outbox@.drop_last() == b.outbox@
                && (a.outbox@.last() matches Message::EndSession(x, why) && x == b.bind && why@ == reason))
            &&& (b.state == WebRtcState::Closed ==> a.outbox@ == b.outbox@)
        },
        (Sink::WebRtc(_), _) => false,
        (_, Sink::WebRtc(_)) => false,
        _ => true,
    }
}

impl Stream {
    /// Stops the pipeline and detaches every sink, closing their sessions
    /// for `reason`; the sinks are handed back in order, none holding a
    /// tee pad, and the tee holds no pad.
    pub fn shut_down(&mut self, reason: &str) -> (r: Vec<Sink>)
        requires
            old(self).wf(),
        ensures
            final(self).wf(),
            final(self).id == old(self).id,
            final(self).video_and_stream_information == old(self).video_and_stream_information,
            final(self).pipeline.description == old(self).pipeline.description,
            final(self).pipeline.state == PipelineState::Null,
            final(self).sinks@.len() == 0,
            final(self).pipeline.pads@.len() == 0,
            r@.len() == old(self).sinks@.len(),
            forall|i: int| 0 <= i < r@.len() ==> torn_down(old(self).sinks@[i], #[trigger] r@[i], reason@),
    {
        self.pipeline.state = PipelineState::Null;
        let mut rest: Vec<Sink> = Vec::new();
        std::mem::swap(&mut rest, &mut self.sinks);
        self.pipeline.pads = Vec::new();
        let ghost orig = rest@;
        let mut out: Vec<Sink> = Vec::new();
        while rest.len() > 0
            invariant
                out@.len() + rest@.len() == orig.len(),
                rest@ == orig.subrange(out@.len() as int, orig.len() as int),
                forall|k: int| 0 <= k < out@.len() ==> torn_down(orig[k], #[trigger] out@[k], reason@),
            decreases rest@.len(),
        {
            let ghost k = out@.len() as int;
            let mut s = rest.remove(0);
            assert(s == orig[k]);
            match &mut s {
                Sink::WebRtc(w) => {
                    w.close(reason);
                },
                _ => {},
            }
            s.unlink();
            out.push(s);
            assert(rest@ =~= orig.subrange(out@.len() as int, orig.len() as int));
        }
        out
    }
}

} // verus!
