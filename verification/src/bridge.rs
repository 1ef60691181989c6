//! Streaming bridge: turns translated events into wire frames for one
//! client, and persists the assistant's full reply exactly once.
//!
//! The bridge decouples "consuming the model's output" from "writing frames
//! to one client": delivery is a bounded channel, and a failed write (client
//! disconnected) stops consumption immediately.  The assistant turn is
//! persisted upon observing `Done`, before the `Done` frame is forwarded, and
//! never when the loop stops early or ends in an error.

use vstd::prelude::*;
use vstd::string::StringExecFns;

use crate::history::history_new;
use crate::history::HistoryModel;
use crate::history::DEFAULT_MAX_TURNS;
use crate::store::append_assistant;
use crate::store::upsert_user;
use crate::store::AppState;
use crate::translator::ChatStreamEvent;
use crate::translator::EventModel;

verus! {

/// Request body for the chat endpoint: an optional session id (a new session
/// is created when absent) and the user's message.
#[derive(Debug)]
pub struct ChatRequest {
    /// Optional session ID.  If not provided, a new session will be created.
    pub session_id: Option<String>,
    /// The user's message.
    pub message: String,
}

/// One push-protocol frame sent to the client, tagged by kind.
#[derive(Debug)]
pub enum SseEventData {
    /// Text delta from the assistant.
    Text { content: String },
    /// Stream completed; carries the session id for future requests.
    Done { session_id: String },
    /// Error occurred during processing.
    Error { message: String },
}

/// Mathematical model of a wire frame.
pub ghost enum FrameModel {
    Text(Seq<char>),
    Done(Seq<char>),
    Error(Seq<char>),
}

impl View for SseEventData {
    type V = FrameModel;

    open spec fn view(&self) -> FrameModel {
        match self {
            SseEventData::Text { content } => FrameModel::Text(content@),
            SseEventData::Done { session_id } => FrameModel::Done(session_id@),
            SseEventData::Error { message } => FrameModel::Error(message@),
        }
    }
}

/// Result of a whole bridge run: the store afterwards, and the frames the
/// client received.
pub ghost struct BridgeRun {
    pub store: Map<Seq<char>, HistoryModel>,
    pub frames: Seq<FrameModel>,
}

/// One producer run, continued from the middle: `acc` is the text
/// accumulated so far and `sent` the number of frames already delivered to a
/// client that accepts `capacity` frames in all.  A write past the capacity
/// fails, and the run stops at the first failed write.  Observing `Done`
/// persists the accumulated text before the `Done` frame is attempted.
pub open spec fn bridge_run_from(
    m: Map<Seq<char>, HistoryModel>,
    sid: Seq<char>,
    events: Seq<EventModel>,
    capacity: nat,
    acc: Seq<char>,
    sent: nat,
) -> BridgeRun
    decreases events.len(),
{
    if events.len() == 0 {
        BridgeRun { store: m, frames: Seq::empty() }
    } else {
        match events[0] {
            EventModel::TextDelta(t) => {
                if sent >= capacity {
                    BridgeRun { store: m, frames: Seq::empty() }
                } else {
                    let rest = bridge_run_from(m, sid, events.skip(1), capacity, acc + t, sent + 1);
                    BridgeRun { store: rest.store, frames: seq![FrameModel::Text(t)] + rest.frames }
                }
            },
            EventModel::Done => {
                let persisted = append_assistant(m, sid, acc);
                if sent >= capacity {
                    BridgeRun { store: persisted, frames: Seq::empty() }
                } else {
                    BridgeRun { store: persisted, frames: seq![FrameModel::Done(sid)] }
                }
            },
            EventModel::Error(msg) => {
                if sent >= capacity {
                    BridgeRun { store: m, frames: Seq::empty() }
                } else {
                    BridgeRun { store: m, frames: seq![FrameModel::Error(msg)] }
                }
            },
        }
    }
}

/// A whole bridge run from the start.
pub open spec fn bridge_run(
    m: Map<Seq<char>, HistoryModel>,
    sid: Seq<char>,
    events: Seq<EventModel>,
    capacity: nat,
) -> BridgeRun {
    bridge_run_from(m, sid, events, capacity, Seq::empty(), 0)
}

/// Producer-side state for one in-flight turn: the assistant text
/// accumulated, in arrival order, from the deltas seen so far.
pub struct BridgeState {
    accumulated: String,
}

impl View for BridgeState {
    type V = Seq<char>;

    closed spec fn view(&self) -> Seq<char> {
        self.accumulated@
    }
}

/// What the driver of the producer loop must do after one event.
pub enum BridgeCommand {
    /// Deliver this frame and continue with the next event; a failed
    /// delivery means the client is gone and the loop stops.
    Emit(SseEventData),
    /// Persist the carried text as the assistant turn, then deliver this
    /// frame and stop.
    Complete(String, SseEventData),
    /// Deliver this frame and stop without persisting anything.
    Fail(SseEventData),
}

impl BridgeState {
    /// A fresh producer state with nothing accumulated.
    pub fn new() -> (r: Self)
        ensures
            r@ == Seq::<char>::empty(),
    {
        BridgeState { accumulated: String::new() }
    }

    /// Advance the producer by one translated event.
    pub fn step(&mut self, event: ChatStreamEvent, session_id: &str) -> (c: BridgeCommand)
        ensures
            event matches ChatStreamEvent::TextDelta(t) ==> final(self)@ == old(self)@ + t@ && (
            c matches BridgeCommand::Emit(f) && f@ == FrameModel::Text(t@)),
            event is Done ==> final(self)@ == old(self)@ && (c matches BridgeCommand::Complete(
                text,
                f,
            ) && text@ == old(self)@ && f@ == FrameModel::Done(session_id@)),
            event matches ChatStreamEvent::Error(m) ==> final(self)@ == old(self)@ && (
            c matches BridgeCommand::Fail(f) && f@ == FrameModel::Error(m@)),
    {
        match event {
            ChatStreamEvent::TextDelta(t) => {
                self.accumulated.append(t.as_str());
                BridgeCommand::Emit(SseEventData::Text { content: t })
            },
            ChatStreamEvent::Done => BridgeCommand::Complete(
                self.accumulated.clone(),
                SseEventData::Done { session_id: session_id.to_owned() },
            ),
            ChatStreamEvent::Error(m) => BridgeCommand::Fail(SseEventData::Error { message: m }),
        }
    }
}

/// Get or create the session named by the request and append the user turn,
/// returning the session id the turn went to.
pub fn begin_chat_turn(store: &mut AppState, request: &ChatRequest) -> (id: String)
    requires
        old(store).wf(),
    ensures
        final(store).wf(),
        final(store)@.contains_key(id@),
        match request.session_id {
            Some(s) => id@ == s@ && final(store)@ == upsert_user(
                old(store)@,
                s@,
                request.message@,
            ),
            None => final(store)@ == upsert_user(
                old(store)@.insert(id@, history_new(DEFAULT_MAX_TURNS as nat)),
                id@,
                request.message@,
            ),
        },
{
    let id = match &request.session_id {
        Some(s) => s.clone(),
        None => store.create_session(),
    };
    store.add_user_message(id.as_str(), request.message.as_str());
    id
}

/// Run the producer loop over a recorded event stream against a client that
/// accepts `capacity` frames, returning the frames the client received.  The
/// session must exist: the bridge is only invoked after the user turn was
/// appended.
pub fn run_bridge(
    store: &mut AppState,
    session_id: &str,
    events: &Vec<ChatStreamEvent>,
    capacity: usize,
) -> (frames: Vec<SseEventData>)
    requires
        old(store).wf(),
        old(store)@.contains_key(session_id@),
    ensures
        final(store).wf(),
        final(store)@ == bridge_run(
            old(store)@,
            session_id@,
            events@.map_values(|e: ChatStreamEvent| e@),
            capacity as nat,
        ).store,
        frames@.map_values(|f: SseEventData| f@) == bridge_run(
            old(store)@,
            session_id@,
            events@.map_values(|e: ChatStreamEvent| e@),
            capacity as nat,
        ).frames,
{
    let ghost evs = events@.map_values(|e: ChatStreamEvent| e@);
    let ghost target = bridge_run(old(store)@, session_id@, evs, capacity as nat);
    let mut acc = String::new();
    let mut sent: usize = 0;
    let mut frames: Vec<SseEventData> = Vec::new();
    let mut i: usize = 0;
    proof {
        assert(evs.skip(0) =~= evs);
        assert(frames@.map_values(|f: SseEventData| f@) =~= Seq::<FrameModel>::empty());
        assert(Seq::<FrameModel>::empty() + target.frames =~= target.frames);
    }
    while i < events.len()
        invariant
            i <= events@.len(),
            sent <= capacity,
            evs == events@.map_values(|e: ChatStreamEvent| e@),
            store.wf(),
            store@.contains_key(session_id@),
            target == bridge_run(old(store)@, session_id@, evs, capacity as nat),
            target.store == bridge_run_from(
                store@,
                session_id@,
                evs.skip(i as int),
                capacity as nat,
                acc@,
                sent as nat,
            ).store,
            target.frames == frames@.map_values(|f: SseEventData| f@) + bridge_run_from(
                store@,
                session_id@,
                evs.skip(i as int),
                capacity as nat,
                acc@,
                sent as nat,
            ).frames,
        decreases events@.len() - i,
    {
        let ghost pre_frames = frames@.map_values(|f: SseEventData| f@);
        proof {
            assert(evs.skip(i as int).len() > 0);
            assert(evs.skip(i as int)[0] == evs[i as int]);
            assert(evs.skip(i as int).skip(1) =~= evs.skip(i as int + 1));
        }
        match &events[i] {
            ChatStreamEvent::TextDelta(t) => {
                if sent == capacity {
                    // the client is gone: the write fails and the producer
                    // stops without draining the rest of the model stream
                    proof {
                        assert(target.frames =~= pre_frames);
                    }
                    return frames;
                }
                acc.append(t.as_str());
                frames.push(SseEventData::Text { content: t.clone() });
                sent = sent + 1;
                proof {
                    assert(frames@.map_values(|f: SseEventData| f@) =~= pre_frames.push(
                        FrameModel::Text(t@),
                    ));
                    assert(pre_frames + (seq![FrameModel::Text(t@)] + bridge_run_from(
                        store@,
                        session_id@,
                        evs.skip(i as int + 1),
                        capacity as nat,
                        acc@,
                        sent as nat,
                    ).frames) =~= pre_frames.push(FrameModel::Text(t@)) + bridge_run_from(
                        store@,
                        session_id@,
                        evs.skip(i as int + 1),
                        capacity as nat,
                        acc@,
                        sent as nat,
                    ).frames);
                }
            },
            ChatStreamEvent::Done => {
                // persist the accumulated assistant turn before the Done
                // frame is attempted, so a client that sees completion sees
                // an already-updated history
                store.add_assistant_message(session_id, acc.as_str());
                if sent == capacity {
                    proof {
                        assert(target.frames =~= pre_frames);
                    }
                    return frames;
                }
                frames.push(SseEventData::Done { session_id: session_id.to_owned() });
                proof {
                    assert(frames@.map_values(|f: SseEventData| f@) =~= pre_frames.push(
                        FrameModel::Done(session_id@),
                    ));
                    assert(target.frames =~= frames@.map_values(|f: SseEventData| f@));
                }
                return frames;
            },
            ChatStreamEvent::Error(m) => {
                // fail-fast: the error frame is terminal and the turn is not
                // persisted
                if sent == capacity {
                    proof {
                        assert(target.frames =~= pre_frames);
                    }
                    return frames;
                }
                frames.push(SseEventData::Error { message: m.clone() });
                proof {
                    assert(frames@.map_values(|f: SseEventData| f@) =~= pre_frames.push(
                        FrameModel::Error(m@),
                    ));
                    assert(target.frames =~= frames@.map_values(|f: SseEventData| f@));
                }
                return frames;
            },
        }
        i += 1;
    }
    proof {
        assert(evs.skip(i as int) =~= Seq::<EventModel>::empty());
        assert(target.frames =~= frames@.map_values(|f: SseEventData| f@));
    }
    frames
}

} // verus!
