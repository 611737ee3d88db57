use sada::host::{is_usable_host_v4, select_host_address};
use sada::media::{AudioSink, DumpProgress, PROGRESS_INTERVAL_SAMPLES};

#[test]
fn frames_are_counted_and_sampled_for_logging() {
    let mut sink = AudioSink::new();
    let mut logged = Vec::new();
    for n in 1..=1000u64 {
        let notice = sink.handle_frame(20);
        if notice.log_frame {
            logged.push(n);
        }
        assert_eq!(notice.report_dump_error, n <= 3 || n % 100 == 0);
    }
    assert_eq!(logged, vec![1, 2, 3, 4, 5, 500, 1000]);
    assert_eq!(sink.frame_count(), 1000);
    assert_eq!(sink.byte_count(), 20_000);
}

#[test]
fn dump_progress_reports_every_five_seconds() {
    let mut progress = DumpProgress::new();
    let mut reports = 0;
    for _ in 0..(240_000 / 960 * 2) {
        if progress.record(960) {
            reports += 1;
        }
    }
    assert_eq!(progress.sample_count(), 2 * PROGRESS_INTERVAL_SAMPLES);
    assert_eq!(reports, 2);
    assert!(!progress.record(0));
}

#[test]
fn host_address_skips_unusable() {
    assert!(!is_usable_host_v4([127, 0, 0, 1]));
    assert!(!is_usable_host_v4([169, 254, 3, 4]));
    assert!(!is_usable_host_v4([255, 255, 255, 255]));
    assert!(is_usable_host_v4([169, 253, 3, 4]));
    let candidates = [None, Some([127, 0, 0, 1]), Some([169, 254, 1, 1]), Some([192, 168, 1, 20]), Some([10, 0, 0, 1])];
    assert_eq!(select_host_address(&candidates), Some([192, 168, 1, 20]));
    assert_eq!(select_host_address(&candidates[..3]), None);
    assert_eq!(select_host_address(&[]), None);
}

#[test]
fn counts_add_up_over_frames_of_different_lengths() {
    let mut sink = AudioSink::new();
    for len in [3usize, 0, 17, 250] {
        sink.handle_frame(len);
    }
    assert_eq!(sink.frame_count(), 4);
    assert_eq!(sink.byte_count(), 270);
}
