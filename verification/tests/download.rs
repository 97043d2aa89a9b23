use download_manager::download::controller::{Controller, FailureReason, Message, RequestError};
use download_manager::download::channel::emit_all;
use download_manager::download::transfer::Transfer;
use download_manager::download::worker::{file_name_of, tmp_file_name, RequestUrl, Worker};

fn url(text: &str, segments: &[&str]) -> RequestUrl {
    RequestUrl {
        text: text.to_string(),
        segments: segments.iter().map(|s| s.to_string()).collect(),
    }
}

#[test]
fn normal_download_event_sequence() {
    // A server that declares length 1000 and sends chunks 400, 400, 200.
    let mut events: Vec<Message> = Vec::new();
    let (mut t, first) = Transfer::start(1, Some(1000));
    events.extend(first);
    events.extend(t.on_chunk(400, true));
    events.extend(t.on_chunk(400, true));
    // The throttle interval has not elapsed, but the final byte forces a tick.
    events.extend(t.on_chunk(200, false));
    events.push(t.on_stream_end());
    assert_eq!(
        events,
        vec![
            Message::Total(1, 1000),
            Message::Downloaded(1, 400),
            Message::Downloaded(1, 800),
            Message::Downloaded(1, 1000),
            Message::Done(1),
        ]
    );
    assert_eq!(t.downloaded, 1000);
    assert!(t.finished);
}

#[test]
fn throttled_chunk_emits_nothing() {
    let (mut t, _) = Transfer::start(4, Some(100));
    assert_eq!(t.on_chunk(10, false), None);
    assert_eq!(t.on_chunk(20, true), Some(Message::Downloaded(4, 30)));
}

#[test]
fn pause_mid_stream_resumes_at_same_byte() {
    let (mut t, _) = Transfer::start(2, Some(1000));
    assert_eq!(t.on_chunk(400, true), Some(Message::Downloaded(2, 400)));
    // A toggle signal arrives: the worker pauses and says so.
    assert_eq!(t.on_toggle(), Message::Paused(2, true));
    assert!(t.paused);
    assert_eq!(t.downloaded, 400, "pausing loses no byte");
    // A second toggle resumes; streaming continues from byte 400.
    assert_eq!(t.on_toggle(), Message::Paused(2, false));
    assert!(!t.paused);
    assert_eq!(t.downloaded, 400);
    assert_eq!(t.on_chunk(600, false), Some(Message::Downloaded(2, 1000)));
}

#[test]
fn toggle_alternates_state_each_signal() {
    let (mut t, _) = Transfer::start(9, None);
    let _ = t.on_chunk(50, false);
    for n in 1..=5u32 {
        t.on_toggle();
        assert_eq!(t.paused, n % 2 == 1);
        assert_eq!(t.downloaded, 50);
    }
}

#[test]
fn speed_sliding_window_averages_three_samples() {
    let (mut t, _) = Transfer::start(3, None);
    // Per-interval deltas of 100, 200 and 300 bytes.
    let _ = t.on_chunk(100, false);
    assert_eq!(t.on_speed_tick(), Message::Speed(3, 33)); // (0 + 0 + 100) / 3
    let _ = t.on_chunk(200, false);
    assert_eq!(t.on_speed_tick(), Message::Speed(3, 100)); // (0 + 100 + 200) / 3
    let _ = t.on_chunk(300, false);
    // After the third sample the window is exactly [100, 200, 300].
    assert_eq!(t.on_speed_tick(), Message::Speed(3, 200)); // (100 + 200 + 300) / 3
}

#[test]
fn unknown_length_never_emits_total() {
    let (mut t, first) = Transfer::start(5, None);
    assert_eq!(first, None, "no content length, no Total event");
    assert_eq!(t.total_size, 0);
    // Nothing equals the (unknown) total, so only the throttle emits.
    assert_eq!(t.on_chunk(700, false), None);
    assert_eq!(t.on_chunk(300, true), Some(Message::Downloaded(5, 1000)));
    // Done still fires on stream exhaustion.
    assert_eq!(t.on_stream_end(), Message::Done(5));
}

#[test]
fn failure_is_terminal_and_named() {
    let (mut t, _) = Transfer::start(6, Some(10));
    let _ = t.on_chunk(4, false);
    assert_eq!(
        t.on_failure(FailureReason::Network),
        Message::Failed(6, FailureReason::Network)
    );
    assert!(t.finished);
}

#[test]
fn ratio_is_clamped_fixed_point() {
    let (tx, _rx) = tokio::sync::mpsc::unbounded_channel();
    let mut w = Worker::new(0, "https://x.test/a.bin".to_string(), "a.bin".to_string(), tx);
    // Unknown total: ratio is 0.
    assert_eq!(w.ratio(), 0);
    w.downloaded = 500;
    assert_eq!(w.ratio(), 0);
    // Known total: the truncated proportion in thousandths.
    w.total_size = 1000;
    assert_eq!(w.ratio(), 500);
    w.downloaded = 1;
    w.total_size = 3;
    assert_eq!(w.ratio(), 333);
    // Complete, and over-complete (a misreported length), clamp to 1000.
    w.downloaded = 3;
    assert_eq!(w.ratio(), 1000);
    w.downloaded = 4;
    assert_eq!(w.ratio(), 1000);
}

#[test]
fn file_name_is_last_path_segment() {
    let u = url("https://x.test/dir/file.zip", &["dir", "file.zip"]);
    assert_eq!(file_name_of(&u), Some("file.zip".to_string()));
}

#[test]
fn url_without_file_name_is_refused() {
    assert_eq!(file_name_of(&url("https://x.test", &[])), None);
    assert_eq!(file_name_of(&url("https://x.test/dir/", &["dir", ""])), None);

    let mut c = Controller::new();
    assert!(matches!(
        c.download(url("https://x.test/dir/", &["dir", ""])),
        Err(RequestError::MissingFileName)
    ));
    assert_eq!(c.workers.len(), 0, "no record exists for a refused request");
}

#[test]
fn temp_name_splices_before_extension() {
    assert_eq!(tmp_file_name("file.zip"), "file.tmp.zip");
    assert_eq!(tmp_file_name("archive.tar.gz"), "archive.tar.tmp.gz");
    assert_eq!(tmp_file_name("trailing."), "trailing.tmp.");
    // No extension: a bare name, and a dotfile.
    assert_eq!(tmp_file_name("README"), "README.tmp");
    assert_eq!(tmp_file_name(".bashrc"), ".bashrc.tmp");
}

#[test]
fn concurrent_requests_get_distinct_fresh_identities() {
    let mut c = Controller::new();
    let a = c.download(url("https://x.test/a.bin", &["a.bin"])).unwrap();
    let b = c.download(url("https://x.test/b.bin", &["b.bin"])).unwrap();
    assert_eq!(a.id, 0);
    assert_eq!(b.id, 1);
    assert_ne!(a.id, b.id);
    assert_eq!(c.workers.len(), 2);
    assert_eq!(c.get_worker(0).file_name, "a.bin");
    assert_eq!(c.get_worker(1).file_name, "b.bin");
    assert_eq!(c.get_worker(1).url, "https://x.test/b.bin");
}

#[test]
fn fresh_record_is_zeroed() {
    let mut c = Controller::new();
    let _ = c.download(url("https://x.test/a.bin", &["a.bin"])).unwrap();
    let w = c.get_worker(0);
    assert_eq!(w.total_size, 0);
    assert_eq!(w.downloaded, 0);
    assert_eq!(w.speed, 0);
    assert!(!w.paused);
    assert!(!w.done);
    assert!(!w.failed);
}

#[test]
fn reducer_applies_one_field_per_event() {
    let mut c = Controller::new();
    let _ = c.download(url("https://x.test/a.bin", &["a.bin"])).unwrap();
    let _ = c.download(url("https://x.test/b.bin", &["b.bin"])).unwrap();
    c.apply(Message::Total(1, 9000));
    c.apply(Message::Downloaded(1, 512));
    c.apply(Message::Speed(1, 256));
    c.apply(Message::Paused(1, true));
    let w = c.get_worker(1);
    assert_eq!(w.total_size, 9000);
    assert_eq!(w.downloaded, 512);
    assert_eq!(w.speed, 256);
    assert!(w.paused);
    assert!(!w.done);
    // The other record is untouched.
    let other = c.get_worker(0);
    assert_eq!(other.downloaded, 0);
    assert!(!other.paused);
    // Terminal events.
    c.apply(Message::Done(1));
    assert!(c.get_worker(1).done);
    c.apply(Message::Failed(0, FailureReason::Filesystem));
    assert!(c.get_worker(0).failed);
}

#[test]
fn events_reach_the_controller_in_order() {
    let mut c = Controller::new();
    let task = c.download(url("https://x.test/a.bin", &["a.bin"])).unwrap();
    // What a worker sends on its status handle arrives on the controller's
    // receiving end, in send order.
    let sent = vec![
        Message::Total(0, 1000),
        Message::Downloaded(0, 400),
        Message::Done(0),
    ];
    assert!(emit_all(&task.tx, &sent));
    let mut got = Vec::new();
    while let Ok(m) = c.rx.try_recv() {
        got.push(m);
    }
    assert_eq!(got, sent);
}

#[test]
fn pause_handle_feeds_the_workers_control_channel() {
    let mut c = Controller::new();
    let mut task = c.download(url("https://x.test/a.bin", &["a.bin"])).unwrap();
    // The controller-side record holds the sending end of the private control
    // channel of exactly that worker's task.
    assert!(c.get_worker(0).pause_tx.send(()).is_ok());
    assert!(task.pause_rx.try_recv().is_ok());
    assert!(task.pause_rx.try_recv().is_err(), "one signal, one delivery");
}
