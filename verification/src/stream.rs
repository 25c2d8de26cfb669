//! Streamed job: the state machine that decides what is sent on the output
//! channel, and when.
//!
//! A session goes from `Idle` through `Initializing` to `Running`, where it
//! sends the text of each frame as soon as it is there. At the end of the
//! input it waits in `Finishing` for the frames that are still with the OCR
//! engine, sends the end-of-stream marker, and is `Done`. The channel and the
//! OCR calls are outside: the session is told what happened and answers with
//! the messages to send, in order.

use crate::batch::FramePolicy;
use crate::report::{RecognisedText, RecognisedTextView};
use vstd::prelude::*;

verus! {

/// Where a session stands.
#[derive(Clone, Copy, Debug, PartialEq, Eq, Structural)]
pub enum Phase {
    /// No job yet.
    Idle,
    /// The transform chain is being built.
    Initializing,
    /// Frames are accepted.
    Running,
    /// The input has ended; frames are still with the OCR engine.
    Finishing,
    /// The end-of-stream marker was sent.
    Done,
    /// The job failed; nothing more is sent.
    Failed,
}

/// What happened outside the session.
#[derive(Debug)]
pub enum Event {
    /// A job arrived.
    Start,
    /// The transform chain was built.
    ChainBuilt,
    /// The transform chain could not be built.
    ChainFailed,
    /// A frame that the sampling rate keeps cannot be read.
    FrameUnreadable,
    /// A frame was handed to the OCR engine.
    FrameSubmitted,
    /// The OCR engine returned the text of a frame.
    TextReady(RecognisedText),
    /// The OCR engine failed on a frame.
    RecognitionFailed,
    /// The decoder reached the end of the input.
    EndOfInput,
}

/// What is sent on the output channel.
#[derive(Debug)]
pub enum Message {
    /// The text of one frame.
    Frame(RecognisedText),
    /// The marker that ends the stream.
    EndOfStream,
}

/// An `Event` as a mathematical value.
pub enum EventView {
    Start,
    ChainBuilt,
    ChainFailed,
    FrameUnreadable,
    FrameSubmitted,
    TextReady(RecognisedTextView),
    RecognitionFailed,
    EndOfInput,
}

/// A `Message` as a mathematical value.
pub enum MessageView {
    Frame(RecognisedTextView),
    EndOfStream,
}

impl View for Event {
    type V = EventView;

    open spec fn view(&self) -> EventView {
        match self {
            Event::Start => EventView::Start,
            Event::ChainBuilt => EventView::ChainBuilt,
            Event::ChainFailed => EventView::ChainFailed,
            Event::FrameUnreadable => EventView::FrameUnreadable,
            Event::FrameSubmitted => EventView::FrameSubmitted,
            Event::TextReady(text) => EventView::TextReady(text@),
            Event::RecognitionFailed => EventView::RecognitionFailed,
            Event::EndOfInput => EventView::EndOfInput,
        }
    }
}

impl View for Message {
    type V = MessageView;

    open spec fn view(&self) -> MessageView {
        match self {
            Message::Frame(text) => MessageView::Frame(text@),
            Message::EndOfStream => MessageView::EndOfStream,
        }
    }
}

/// The messages of a list as mathematical values.
pub open spec fn messages_view(messages: Seq<Message>) -> Seq<MessageView> {
    messages.map_values(|message: Message| message@)
}

/// A session as a mathematical value.
pub struct SessionView {
    /// Where the session stands.
    pub phase: Phase,
    /// How many frames are with the OCR engine.
    pub in_flight: nat,
    /// What a frame on which OCR fails does to the job.
    pub policy: FramePolicy,
}

impl SessionView {
    /// A session before its job.
    pub open spec fn initial(policy: FramePolicy) -> SessionView {
        SessionView { phase: Phase::Idle, in_flight: 0, policy }
    }

    /// What holds of every session: frames are with the OCR engine only
    /// while the session runs or finishes, and a session that finishes still
    /// waits for one.
    pub open spec fn wf(self) -> bool {
        &&& self.in_flight <= u64::MAX
        &&& self.phase == Phase::Finishing ==> self.in_flight > 0
        &&& self.phase == Phase::Idle || self.phase == Phase::Initializing || self.phase
            == Phase::Done ==> self.in_flight == 0
    }

    /// The session and the messages after a frame has left the OCR engine
    /// and `sent` was sent for it: the last frame of a finishing session is
    /// followed by the marker.
    pub open spec fn settled(self, sent: Seq<MessageView>) -> (SessionView, Seq<MessageView>) {
        let in_flight = (self.in_flight - 1) as nat;
        if self.phase == Phase::Finishing && in_flight == 0 {
            (SessionView { phase: Phase::Done, in_flight, ..self }, sent.push(MessageView::EndOfStream))
        } else {
            (SessionView { in_flight, ..self }, sent)
        }
    }

    /// The session after an event, and the messages to send for it, in
    /// order; nothing where the event has no place in the session's phase.
    /// The end of the input has a place before any job: there is nothing to
    /// end then, nothing is sent and the session stays idle. A frame that
    /// cannot be read, or on which OCR fails, is left out or fails the job,
    /// as the policy says.
    pub open spec fn step(self, event: EventView) -> Option<(SessionView, Seq<MessageView>)> {
        match (self.phase, event) {
            (Phase::Idle, EventView::Start) => Some(
                (SessionView { phase: Phase::Initializing, ..self }, Seq::empty()),
            ),
            (Phase::Idle, EventView::EndOfInput) => Some((self, Seq::empty())),
            (Phase::Running, EventView::FrameUnreadable) => if self.policy == FramePolicy::AbortJob {
                Some((SessionView { phase: Phase::Failed, ..self }, Seq::empty()))
            } else {
                Some((self, Seq::empty()))
            },
            (Phase::Initializing, EventView::ChainBuilt) => Some(
                (SessionView { phase: Phase::Running, ..self }, Seq::empty()),
            ),
            (Phase::Initializing, EventView::ChainFailed) => Some(
                (SessionView { phase: Phase::Failed, ..self }, Seq::empty()),
            ),
            (Phase::Running, EventView::FrameSubmitted) => if self.in_flight < u64::MAX {
                Some((SessionView { in_flight: self.in_flight + 1, ..self }, Seq::empty()))
            } else {
                None
            },
            (Phase::Running, EventView::TextReady(text)) | (
                Phase::Finishing,
                EventView::TextReady(text),
            ) => if self.in_flight > 0 {
                Some(self.settled(seq![MessageView::Frame(text)]))
            } else {
                None
            },
            (Phase::Running, EventView::RecognitionFailed) | (
                Phase::Finishing,
                EventView::RecognitionFailed,
            ) => if self.in_flight == 0 {
                None
            } else if self.policy == FramePolicy::AbortJob {
                Some((SessionView { phase: Phase::Failed, ..self }, Seq::empty()))
            } else {
                Some(self.settled(Seq::empty()))
            },
            (Phase::Running, EventView::EndOfInput) => if self.in_flight == 0 {
                Some((SessionView { phase: Phase::Done, ..self }, seq![MessageView::EndOfStream]))
            } else {
                Some((SessionView { phase: Phase::Finishing, ..self }, Seq::empty()))
            },
            _ => None,
        }
    }

    /// The session after a sequence of events, and everything that was sent
    /// for them, in order. An event that has no place is passed over.
    pub open spec fn run(self, events: Seq<EventView>) -> (SessionView, Seq<MessageView>)
        decreases events.len(),
    {
        if events.len() == 0 {
            (self, Seq::empty())
        } else {
            match self.step(events[0]) {
                None => self.run(events.drop_first()),
                Some((next, sent)) => {
                    let (end, rest) = next.run(events.drop_first());
                    (end, sent + rest)
                },
            }
        }
    }
}

/// The marker occurs nowhere in `trace` but, possibly, at its end.
pub open spec fn marker_only_last(trace: Seq<MessageView>) -> bool {
    forall|i: int| 0 <= i < trace.len() && #[trigger] trace[i] is EndOfStream ==> i == trace.len() - 1
}

/// `trace` ends with the marker.
pub open spec fn ends_with_marker(trace: Seq<MessageView>) -> bool {
    trace.len() > 0 && trace.last() is EndOfStream
}

/// The state of one streamed job.
#[derive(Debug)]
pub struct StreamSession {
    phase: Phase,
    in_flight: u64,
    policy: FramePolicy,
}

impl View for StreamSession {
    type V = SessionView;

    closed spec fn view(&self) -> SessionView {
        SessionView { phase: self.phase, in_flight: self.in_flight as nat, policy: self.policy }
    }
}

impl StreamSession {
    #[verifier::type_invariant]
    spec fn consistent(self) -> bool {
        self@.wf()
    }

    /// A session before its job.
    pub fn new(policy: FramePolicy) -> (session: StreamSession)
        ensures
            session@ == SessionView::initial(policy),
    {
        StreamSession { phase: Phase::Idle, in_flight: 0, policy }
    }

    /// Where the session stands.
    pub fn phase(&self) -> (phase: Phase)
        ensures
            phase == self@.phase,
            self@.wf(),
    {
        proof {
            use_type_invariant(self);
        }
        self.phase
    }

    /// How many frames are with the OCR engine.
    pub fn frames_in_flight(&self) -> (n: u64)
        ensures
            n == self@.in_flight,
            self@.wf(),
    {
        proof {
            use_type_invariant(self);
        }
        self.in_flight
    }

    /// The session after a frame has left the OCR engine.
    fn settle(&mut self, sent: &mut Vec<Message>)
        requires
            old(self)@.in_flight > 0,
            old(self)@.phase == Phase::Running || old(self)@.phase == Phase::Finishing,
        ensures
            (final(self)@, messages_view(final(sent)@)) == old(self)@.settled(
                messages_view(old(sent)@),
            ),
    {
        proof {
            use_type_invariant(&*self);
        }
        let in_flight = self.in_flight - 1;
        let last = in_flight == 0 && match self.phase {
            Phase::Finishing => true,
            _ => false,
        };
        if last {
            *self = StreamSession { phase: Phase::Done, in_flight, policy: self.policy };
            sent.push(Message::EndOfStream);
            assert(messages_view(sent@) =~= messages_view(old(sent)@).push(
                MessageView::EndOfStream,
            ));
        } else {
            self.in_flight = in_flight;
        }
    }

    /// Tells the session what happened. The answer is the list of messages
    /// to send on the output channel, in order; there is none where the
    /// event has no place in the session's phase, and the session then
    /// stays as it is.
    pub fn step(&mut self, event: Event) -> (r: Option<Vec<Message>>)
        ensures
            final(self)@.wf(),
            match old(self)@.step(event@) {
                Some((next, sent)) => r matches Some(messages) && messages_view(messages@) == sent
                    && messages@.len() == sent.len() && final(self)@ == next,
                None => r is None && final(self)@ == old(self)@,
            },
    {
        proof {
            use_type_invariant(&*self);
        }
        let mut sent: Vec<Message> = Vec::new();
        assert(messages_view(sent@) =~= Seq::<MessageView>::empty());
        match (self.phase, event) {
            (Phase::Idle, Event::Start) => {
                self.phase = Phase::Initializing;
                Some(sent)
            },
            (Phase::Idle, Event::EndOfInput) => Some(sent),
            (Phase::Running, Event::FrameUnreadable) => {
                match self.policy {
                    FramePolicy::AbortJob => {
                        self.phase = Phase::Failed;
                    },
                    FramePolicy::SkipFrame => {},
                }
                Some(sent)
            },
            (Phase::Initializing, Event::ChainBuilt) => {
                self.phase = Phase::Running;
                Some(sent)
            },
            (Phase::Initializing, Event::ChainFailed) => {
                self.phase = Phase::Failed;
                Some(sent)
            },
            (Phase::Running, Event::FrameSubmitted) => {
                if self.in_flight < u64::MAX {
                    self.in_flight = self.in_flight + 1;
                    Some(sent)
                } else {
                    None
                }
            },
            (Phase::Running, Event::TextReady(text)) | (Phase::Finishing, Event::TextReady(text)) => {
                if self.in_flight > 0 {
                    sent.push(Message::Frame(text));
                    assert(messages_view(sent@) =~= seq![MessageView::Frame(text@)]);
                    self.settle(&mut sent);
                    Some(sent)
                } else {
                    None
                }
            },
            (Phase::Running, Event::RecognitionFailed) | (
                Phase::Finishing,
                Event::RecognitionFailed,
            ) => {
                if self.in_flight == 0 {
                    None
                } else {
                    match self.policy {
                        FramePolicy::AbortJob => {
                            self.phase = Phase::Failed;
                            Some(sent)
                        },
                        FramePolicy::SkipFrame => {
                            self.settle(&mut sent);
                            Some(sent)
                        },
                    }
                }
            },
            (Phase::Running, Event::EndOfInput) => {
                if self.in_flight == 0 {
                    self.phase = Phase::Done;
                    sent.push(Message::EndOfStream);
                    assert(messages_view(sent@) =~= seq![MessageView::EndOfStream]);
                    Some(sent)
                } else {
                    self.phase = Phase::Finishing;
                    Some(sent)
                }
            },
            _ => None,
        }
    }
}

/// One step keeps a session well-formed. It sends the marker at most once,
/// as the last message of the step, and exactly in the step that makes the
/// session `Done`; a session that is `Done` or `Failed` sends nothing more.
pub proof fn lemma_step_sends_marker_on_completion(state: SessionView, event: EventView)
    requires
        state.wf(),
    ensures
        match state.step(event) {
            None => true,
            Some((next, sent)) => {
                &&& next.wf()
                &&& next.policy == state.policy
                &&& state.phase != Phase::Done && state.phase != Phase::Failed
                &&& marker_only_last(sent)
                &&& ends_with_marker(sent) <==> next.phase == Phase::Done
            },
        },
{
}

/// Whatever happens to a session, the marker is sent at most once and
/// nothing follows it: it occurs only at the end of what was sent. It is
/// there exactly when the session is `Done`, and then no frame is left with
/// the OCR engine.
pub proof fn lemma_marker_is_sent_once_and_last(state: SessionView, events: Seq<EventView>)
    requires
        state.wf(),
        state.phase != Phase::Done,
    ensures
        ({
            let (end, trace) = state.run(events);
            &&& end.wf()
            &&& marker_only_last(trace)
            &&& ends_with_marker(trace) <==> end.phase == Phase::Done
            &&& end.phase == Phase::Done ==> end.in_flight == 0
        }),
    decreases events.len(),
{
    if events.len() > 0 {
        let rest = events.drop_first();
        lemma_step_sends_marker_on_completion(state, events[0]);
        match state.step(events[0]) {
            None => {
                lemma_marker_is_sent_once_and_last(state, rest);
            },
            Some((next, sent)) => {
                let (end, tail) = next.run(rest);
                if next.phase == Phase::Done {
                    lemma_done_session_is_silent(next, rest);
                    assert(sent + tail =~= sent);
                } else {
                    lemma_marker_is_sent_once_and_last(next, rest);
                    let trace = sent + tail;
                    assert forall|i: int| 0 <= i < trace.len() && #[trigger] trace[i] is EndOfStream implies i
                        == trace.len() - 1 by {
                        if i < sent.len() {
                            assert(trace[i] == sent[i]);
                        } else {
                            assert(trace[i] == tail[i - sent.len()]);
                        }
                    }
                    if tail.len() > 0 {
                        assert(trace.last() == tail.last());
                    } else {
                        assert(trace =~= sent);
                    }
                }
            },
        }
    }
}

/// A session that is `Done` or `Failed` stays so and sends nothing,
/// whatever happens.
pub proof fn lemma_done_session_is_silent(state: SessionView, events: Seq<EventView>)
    requires
        state.phase == Phase::Done || state.phase == Phase::Failed,
    ensures
        state.run(events) == (state, Seq::<MessageView>::empty()),
    decreases events.len(),
{
    if events.len() > 0 {
        lemma_done_session_is_silent(state, events.drop_first());
    }
}

/// From the start of a job to its end: after any sequence of events that
/// leaves a new session `Done`, exactly one marker was sent, as the last
/// message, after the text of every frame that was sent.
pub proof fn lemma_stream_ends_with_one_marker(policy: FramePolicy, events: Seq<EventView>)
    ensures
        ({
            let (end, trace) = SessionView::initial(policy).run(events);
            &&& marker_only_last(trace)
            &&& end.phase == Phase::Done ==> ends_with_marker(trace) && end.in_flight == 0
            &&& end.phase != Phase::Done ==> forall|i: int|
                0 <= i < trace.len() ==> #[trigger] trace[i] is Frame
        }),
{
    lemma_marker_is_sent_once_and_last(SessionView::initial(policy), events);
}

} // verus!
