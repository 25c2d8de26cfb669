use text_recognition::batch::{BatchJob, FramePolicy, JobError};
use text_recognition::buffer::{FrameGeometry, GeometryError};
use text_recognition::frame::Admission;
use text_recognition::region_of_interest::Coordinates;
use text_recognition::report::{BatchReport, FrameAnalysis, RecognisedText};
use text_recognition::sampler::SampleRate;

const FRAME_WIDTH: i32 = 640;
const FRAME_HEIGHT: i32 = 480;

fn frame() -> FrameGeometry {
    FrameGeometry { width: FRAME_WIDTH, height: FRAME_HEIGHT, bits_per_pixel: 24, row_stride: 1920 }
}

fn broken_frame() -> FrameGeometry {
    FrameGeometry { width: FRAME_WIDTH, height: FRAME_HEIGHT, bits_per_pixel: 24, row_stride: 100 }
}

fn job(sample_rate: usize, region: Option<Coordinates>, policy: FramePolicy) -> BatchJob {
    BatchJob::new(SampleRate::new(sample_rate).unwrap(), region, policy)
}

/// Offers `frames` frames and records a text for each one that is to be read.
fn run(job: &mut BatchJob, frames: usize) {
    for _ in 0..frames {
        match job.offer(&frame()).unwrap() {
            Admission::Skipped { .. } => {}
            Admission::Recognize { sequence_number, .. } => {
                assert_eq!(job.record(format!("text {}", sequence_number)), Ok(sequence_number));
            }
            Admission::Dropped { .. } => unreachable!(),
        }
    }
}

#[test]
fn ten_frames_at_rate_two_give_five_entries_over_the_full_frame() {
    let mut job = job(2, None, FramePolicy::SkipFrame);
    run(&mut job, 10);
    assert_eq!(job.frames_seen(), 10);
    assert_eq!(job.frames_recorded(), 5);
    let report = job.finish();
    assert_eq!(report.len(), 5);
    let frames: Vec<usize> = report.iter().map(|entry| entry.frame).collect();
    assert_eq!(frames, vec![0, 2, 4, 6, 8]);
    for entry in &report {
        assert_eq!(entry.coordinates, (0, FRAME_HEIGHT as u32, 0, FRAME_WIDTH as u32));
        assert_eq!(entry.confidence, "NA");
        assert_eq!(entry.text, format!("text {}", entry.frame));
    }
}

#[test]
fn entries_of_a_job_with_a_region_report_the_region() {
    let region = Coordinates { top: 10, left: 30, width: 200, height: 100 };
    let mut job = job(1, Some(region), FramePolicy::SkipFrame);
    run(&mut job, 3);
    let report = job.finish();
    assert_eq!(report.len(), 3);
    for entry in &report {
        assert_eq!(entry.coordinates, (10, 100, 30, 200));
    }
}

#[test]
fn job_without_frames_has_an_empty_report() {
    let job = job(3, None, FramePolicy::AbortJob);
    assert_eq!(job.frames_seen(), 0);
    assert_eq!(job.frames_recorded(), 0);
    assert!(!job.is_aborted());
    assert!(job.finish().is_empty());
}

#[test]
fn skipped_frames_take_a_sequence_number() {
    let mut job = job(3, None, FramePolicy::SkipFrame);
    assert!(matches!(job.offer(&frame()), Ok(Admission::Recognize { sequence_number: 0, .. })));
    assert_eq!(job.record("a".to_string()), Ok(0));
    assert_eq!(job.offer(&frame()), Ok(Admission::Skipped { sequence_number: 1 }));
    assert_eq!(job.offer(&frame()), Ok(Admission::Skipped { sequence_number: 2 }));
    assert_eq!(
        job.offer(&frame()),
        Ok(Admission::Recognize { sequence_number: 3, layout: frame().layout().unwrap() })
    );
    assert_eq!(job.frames_seen(), 4);
}

#[test]
fn frame_waits_for_its_text_before_the_next_one_is_taken() {
    let mut job = job(1, None, FramePolicy::SkipFrame);
    assert!(job.offer(&frame()).is_ok());
    assert_eq!(job.offer(&frame()), Err(JobError::FramePending));
    assert_eq!(job.frames_seen(), 1);
    assert_eq!(job.record("first".to_string()), Ok(0));
    assert!(matches!(job.offer(&frame()), Ok(Admission::Recognize { sequence_number: 1, .. })));
}

#[test]
fn text_without_a_pending_frame_is_refused() {
    let mut job = job(2, None, FramePolicy::SkipFrame);
    assert_eq!(job.record("early".to_string()), Err(JobError::NothingPending));
    assert_eq!(job.fail_frame(), Err(JobError::NothingPending));
    run(&mut job, 2);
    assert_eq!(job.record("late".to_string()), Err(JobError::NothingPending));
    assert_eq!(job.frames_recorded(), 1);
}

#[test]
fn failed_frame_is_left_out_and_the_job_goes_on() {
    let mut job = job(1, None, FramePolicy::SkipFrame);
    run(&mut job, 1);
    assert!(job.offer(&frame()).is_ok());
    assert_eq!(job.fail_frame(), Ok(1));
    assert!(!job.is_aborted());
    run(&mut job, 1);
    let frames: Vec<usize> = job.finish().iter().map(|entry| entry.frame).collect();
    assert_eq!(frames, vec![0, 2]);
}

#[test]
fn failed_frame_aborts_a_job_that_is_to_abort() {
    let mut job = job(1, None, FramePolicy::AbortJob);
    run(&mut job, 2);
    assert!(job.offer(&frame()).is_ok());
    assert_eq!(job.fail_frame(), Err(JobError::RecognitionFailed { sequence_number: 2 }));
    assert!(job.is_aborted());
    assert_eq!(job.offer(&frame()), Err(JobError::Aborted));
    assert_eq!(job.record("late".to_string()), Err(JobError::Aborted));
    assert_eq!(job.fail_frame(), Err(JobError::Aborted));
    assert_eq!(job.frames_seen(), 3);
    let frames: Vec<usize> = job.finish().iter().map(|entry| entry.frame).collect();
    assert_eq!(frames, vec![0, 1]);
}

#[test]
fn unreadable_frame_is_dropped_and_the_job_goes_on() {
    let mut job = job(2, None, FramePolicy::SkipFrame);
    assert_eq!(
        job.offer(&broken_frame()),
        Ok(Admission::Dropped { sequence_number: 0, error: GeometryError::RowTooShort })
    );
    assert_eq!(job.offer(&broken_frame()), Ok(Admission::Skipped { sequence_number: 1 }));
    assert!(matches!(job.offer(&frame()), Ok(Admission::Recognize { sequence_number: 2, .. })));
    assert_eq!(job.record("two".to_string()), Ok(2));
    let frames: Vec<usize> = job.finish().iter().map(|entry| entry.frame).collect();
    assert_eq!(frames, vec![2]);
}

#[test]
fn unreadable_frame_aborts_a_job_that_is_to_abort() {
    let mut job = job(2, None, FramePolicy::AbortJob);
    run(&mut job, 1);
    assert_eq!(job.offer(&broken_frame()), Ok(Admission::Skipped { sequence_number: 1 }));
    assert_eq!(
        job.offer(&broken_frame()),
        Err(JobError::BadFrame { sequence_number: 2, error: GeometryError::RowTooShort })
    );
    assert!(job.is_aborted());
    assert_eq!(job.offer(&frame()), Err(JobError::Aborted));
    assert_eq!(job.frames_recorded(), 1);
}

#[test]
fn report_keeps_the_order_in_which_entries_were_recorded() {
    let layout = frame().layout().unwrap();
    let mut report = BatchReport::new();
    assert_eq!(report.len(), 0);
    report.record(FrameAnalysis::new(7, None, &layout, "seven".to_string()));
    report.record(FrameAnalysis::new(3, None, &layout, "three".to_string()));
    assert_eq!(report.len(), 2);
    let entries = report.into_entries();
    assert_eq!(entries[0].frame, 7);
    assert_eq!(entries[0].text, "seven");
    assert_eq!(entries[1].frame, 3);
    assert_eq!(entries[1].text, "three");
}

#[test]
fn entry_holds_the_placeholder_for_the_confidence() {
    let layout = frame().layout().unwrap();
    let entry = FrameAnalysis::new(12, None, &layout, String::new());
    assert_eq!(entry.confidence, "NA");
    assert_eq!(entry.frame, 12);
    assert_eq!(entry.text, "");
    assert_eq!(entry.coordinates, (0, 480, 0, 640));
    let region = Coordinates { top: 1, left: 2, width: 3, height: 4 };
    let cropped = FrameAnalysis::new(13, Some(region), &layout, "x".to_string());
    assert_eq!(cropped.coordinates, (1, 4, 2, 3));
}

#[test]
fn recognised_text_holds_timestamp_and_text() {
    let message = RecognisedText::new(90000, "Breaking news".to_string());
    assert_eq!(message.pts, 90000);
    assert_eq!(message.text, "Breaking news");
}
