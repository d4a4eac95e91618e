use video_sampler::progress::progress_event;
use video_sampler::progress::terminal_failure_event;
use video_sampler::task::TaskError;

#[test]
fn progress_event_carries_exact_fraction() {
    let e = progress_event(9, 2, 3);
    assert_eq!(e.ref_idx, 9);
    let frac = e.progress.unwrap();
    assert_eq!(frac.done, 2);
    assert_eq!(frac.total, 3);
}

#[test]
fn terminal_event_has_no_fraction() {
    let e = terminal_failure_event(4);
    assert_eq!(e.ref_idx, 4);
    assert!(e.progress.is_none());
}

#[test]
fn error_descriptions_name_the_stage() {
    assert_eq!(TaskError::PipelineBuild.describe(), "failed to build pipeline");
    assert_eq!(TaskError::NoVideoStream.describe(), "no video dimension found");
    assert_eq!(TaskError::DurationUnavailable.describe(), "failed to get duration");
    assert_eq!(TaskError::Seek.describe(), "failed to seek and pull a frame");
    assert_eq!(TaskError::Encode.describe(), "failed to encode image");
}
