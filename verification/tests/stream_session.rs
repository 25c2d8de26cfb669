use text_recognition::batch::FramePolicy;
use text_recognition::report::RecognisedText;
use text_recognition::stream::{Event, Message, Phase, StreamSession};

fn text(pts: u64) -> Event {
    Event::TextReady(RecognisedText::new(pts, format!("frame at {}", pts)))
}

fn running(policy: FramePolicy) -> StreamSession {
    let mut session = StreamSession::new(policy);
    assert!(session.step(Event::Start).unwrap().is_empty());
    assert!(session.step(Event::ChainBuilt).unwrap().is_empty());
    assert_eq!(session.phase(), Phase::Running);
    session
}

fn is_frame(message: &Message, pts: u64) -> bool {
    match message {
        Message::Frame(text) => text.pts == pts && text.text == format!("frame at {}", pts),
        Message::EndOfStream => false,
    }
}

fn is_marker(message: &Message) -> bool {
    matches!(message, Message::EndOfStream)
}

#[test]
fn session_goes_from_idle_to_running() {
    let mut session = StreamSession::new(FramePolicy::SkipFrame);
    assert_eq!(session.phase(), Phase::Idle);
    assert_eq!(session.frames_in_flight(), 0);
    assert!(session.step(Event::Start).unwrap().is_empty());
    assert_eq!(session.phase(), Phase::Initializing);
    assert!(session.step(Event::ChainBuilt).unwrap().is_empty());
    assert_eq!(session.phase(), Phase::Running);
}

#[test]
fn failed_construction_never_runs() {
    let mut session = StreamSession::new(FramePolicy::SkipFrame);
    session.step(Event::Start).unwrap();
    assert!(session.step(Event::ChainFailed).unwrap().is_empty());
    assert_eq!(session.phase(), Phase::Failed);
    assert!(session.step(Event::ChainBuilt).is_none());
    assert!(session.step(Event::FrameSubmitted).is_none());
    assert!(session.step(Event::EndOfInput).is_none());
    assert_eq!(session.phase(), Phase::Failed);
}

#[test]
fn marker_follows_all_frames_exactly_once() {
    let mut session = running(FramePolicy::SkipFrame);
    let mut sent = Vec::new();
    for pts in [0u64, 40, 80] {
        sent.extend(session.step(Event::FrameSubmitted).unwrap());
        sent.extend(session.step(text(pts)).unwrap());
    }
    sent.extend(session.step(Event::EndOfInput).unwrap());
    assert_eq!(session.phase(), Phase::Done);
    assert_eq!(sent.len(), 4);
    assert!(is_frame(&sent[0], 0));
    assert!(is_frame(&sent[1], 40));
    assert!(is_frame(&sent[2], 80));
    assert!(is_marker(&sent[3]));
    assert_eq!(sent.iter().filter(|message| is_marker(message)).count(), 1);
}

#[test]
fn marker_waits_for_the_frames_in_flight() {
    let mut session = running(FramePolicy::SkipFrame);
    session.step(Event::FrameSubmitted).unwrap();
    session.step(Event::FrameSubmitted).unwrap();
    assert_eq!(session.frames_in_flight(), 2);
    assert!(session.step(Event::EndOfInput).unwrap().is_empty());
    assert_eq!(session.phase(), Phase::Finishing);
    let first = session.step(text(80)).unwrap();
    assert_eq!(first.len(), 1);
    assert!(is_frame(&first[0], 80));
    assert_eq!(session.phase(), Phase::Finishing);
    let last = session.step(text(40)).unwrap();
    assert_eq!(last.len(), 2);
    assert!(is_frame(&last[0], 40));
    assert!(is_marker(&last[1]));
    assert_eq!(session.phase(), Phase::Done);
    assert_eq!(session.frames_in_flight(), 0);
}

#[test]
fn stream_without_frames_ends_with_the_marker_alone() {
    let mut session = running(FramePolicy::AbortJob);
    let sent = session.step(Event::EndOfInput).unwrap();
    assert_eq!(sent.len(), 1);
    assert!(is_marker(&sent[0]));
    assert_eq!(session.phase(), Phase::Done);
}

#[test]
fn nothing_is_sent_after_the_marker() {
    let mut session = running(FramePolicy::SkipFrame);
    session.step(Event::EndOfInput).unwrap();
    assert!(session.step(Event::EndOfInput).is_none());
    assert!(session.step(Event::FrameSubmitted).is_none());
    assert!(session.step(text(0)).is_none());
    assert!(session.step(Event::RecognitionFailed).is_none());
    assert!(session.step(Event::Start).is_none());
    assert_eq!(session.phase(), Phase::Done);
}

#[test]
fn frames_are_not_accepted_while_finishing() {
    let mut session = running(FramePolicy::SkipFrame);
    session.step(Event::FrameSubmitted).unwrap();
    session.step(Event::EndOfInput).unwrap();
    assert!(session.step(Event::FrameSubmitted).is_none());
    assert!(session.step(Event::EndOfInput).is_none());
    assert_eq!(session.frames_in_flight(), 1);
    assert_eq!(session.phase(), Phase::Finishing);
}

#[test]
fn text_without_a_frame_in_flight_is_not_sent() {
    let mut session = running(FramePolicy::SkipFrame);
    assert!(session.step(text(0)).is_none());
    assert!(session.step(Event::RecognitionFailed).is_none());
    session.step(Event::FrameSubmitted).unwrap();
    assert_eq!(session.step(text(0)).unwrap().len(), 1);
    assert!(session.step(text(0)).is_none());
}

#[test]
fn events_before_the_job_have_no_place() {
    let mut session = StreamSession::new(FramePolicy::SkipFrame);
    assert!(session.step(Event::ChainBuilt).is_none());
    assert!(session.step(Event::ChainFailed).is_none());
    assert!(session.step(Event::FrameSubmitted).is_none());
    assert!(session.step(text(0)).is_none());
    assert!(session.step(Event::FrameUnreadable).is_none());
    assert!(session.step(Event::RecognitionFailed).is_none());
    assert_eq!(session.phase(), Phase::Idle);
    session.step(Event::Start).unwrap();
    assert!(session.step(Event::Start).is_none());
    assert!(session.step(Event::FrameSubmitted).is_none());
    assert_eq!(session.phase(), Phase::Initializing);
}

#[test]
fn failed_frame_is_skipped_and_the_stream_goes_on() {
    let mut session = running(FramePolicy::SkipFrame);
    session.step(Event::FrameSubmitted).unwrap();
    assert!(session.step(Event::RecognitionFailed).unwrap().is_empty());
    assert_eq!(session.phase(), Phase::Running);
    assert_eq!(session.frames_in_flight(), 0);
    session.step(Event::FrameSubmitted).unwrap();
    assert_eq!(session.step(text(40)).unwrap().len(), 1);
}

#[test]
fn failure_of_the_last_frame_in_flight_ends_a_finishing_stream() {
    let mut session = running(FramePolicy::SkipFrame);
    session.step(Event::FrameSubmitted).unwrap();
    session.step(Event::EndOfInput).unwrap();
    let sent = session.step(Event::RecognitionFailed).unwrap();
    assert_eq!(sent.len(), 1);
    assert!(is_marker(&sent[0]));
    assert_eq!(session.phase(), Phase::Done);
}

#[test]
fn failed_frame_fails_a_job_that_is_to_abort() {
    let mut session = running(FramePolicy::AbortJob);
    session.step(Event::FrameSubmitted).unwrap();
    session.step(Event::FrameSubmitted).unwrap();
    assert!(session.step(Event::RecognitionFailed).unwrap().is_empty());
    assert_eq!(session.phase(), Phase::Failed);
    assert!(session.step(text(0)).is_none());
    assert!(session.step(Event::EndOfInput).is_none());
    assert_eq!(session.phase(), Phase::Failed);
}

#[test]
fn ending_a_stream_that_never_started_sends_nothing() {
    let mut session = StreamSession::new(FramePolicy::AbortJob);
    assert!(session.step(Event::EndOfInput).unwrap().is_empty());
    assert_eq!(session.phase(), Phase::Idle);
    assert_eq!(session.frames_in_flight(), 0);
    assert!(session.step(Event::EndOfInput).unwrap().is_empty());
    assert!(session.step(Event::Start).unwrap().is_empty());
    assert_eq!(session.phase(), Phase::Initializing);
    assert!(session.step(Event::EndOfInput).is_none());
}

#[test]
fn unreadable_frame_is_left_out_of_a_stream_that_goes_on() {
    let mut session = running(FramePolicy::SkipFrame);
    session.step(Event::FrameSubmitted).unwrap();
    assert!(session.step(Event::FrameUnreadable).unwrap().is_empty());
    assert_eq!(session.phase(), Phase::Running);
    assert_eq!(session.frames_in_flight(), 1);
    assert_eq!(session.step(text(0)).unwrap().len(), 1);
    let sent = session.step(Event::EndOfInput).unwrap();
    assert_eq!(sent.len(), 1);
    assert!(is_marker(&sent[0]));
}

#[test]
fn unreadable_frame_fails_a_job_that_is_to_abort() {
    let mut session = running(FramePolicy::AbortJob);
    assert!(session.step(Event::FrameUnreadable).unwrap().is_empty());
    assert_eq!(session.phase(), Phase::Failed);
    assert!(session.step(Event::FrameSubmitted).is_none());
    assert!(session.step(Event::FrameUnreadable).is_none());
    assert!(session.step(Event::EndOfInput).is_none());
}

#[test]
fn unreadable_frame_has_no_place_once_the_input_has_ended() {
    let mut session = running(FramePolicy::SkipFrame);
    session.step(Event::FrameSubmitted).unwrap();
    session.step(Event::EndOfInput).unwrap();
    assert!(session.step(Event::FrameUnreadable).is_none());
    assert_eq!(session.phase(), Phase::Finishing);
}
