use mic_capture::config::CaptureConfig;
use mic_capture::platform::PlatformStream;
use mic_capture::scripted::ScriptedStream;

#[test]
fn scripted_stream_starts_closed() {
    let stream = ScriptedStream::new(vec![Some(vec![1])]);
    assert!(!stream.is_open());
    assert_eq!(stream.served_count(), 0);
}

#[test]
fn scripted_stream_grants_one_open_at_a_time() {
    let mut stream = ScriptedStream::new(vec![]);
    assert!(stream.open(&CaptureConfig::new()));
    assert!(stream.is_open());
    assert!(!stream.open(&CaptureConfig::new()));
    assert!(stream.is_open());
    stream.close();
    assert!(!stream.is_open());
    assert!(stream.open(&CaptureConfig::new()));
}

#[test]
fn unavailable_stream_is_never_granted() {
    let mut stream = ScriptedStream::unavailable();
    assert!(!stream.open(&CaptureConfig::new()));
    assert!(!stream.open(&CaptureConfig::new()));
    assert!(!stream.is_open());
}

#[test]
fn scripted_reads_follow_the_script_then_run_dry() {
    let mut stream = ScriptedStream::new(vec![Some(vec![1, 2]), None, Some(vec![]), Some(vec![3])]);
    assert!(stream.open(&CaptureConfig::new()));
    assert_eq!(stream.read(), Some(vec![1, 2]));
    assert_eq!(stream.read(), None);
    assert_eq!(stream.read(), Some(vec![]));
    assert_eq!(stream.read(), Some(vec![3]));
    assert_eq!(stream.served_count(), 4);
    assert_eq!(stream.read(), Some(vec![]));
    assert_eq!(stream.read(), Some(vec![]));
    assert_eq!(stream.served_count(), 4);
}

#[test]
fn closed_scripted_stream_is_invalid_and_keeps_its_script() {
    let mut stream = ScriptedStream::new(vec![Some(vec![9])]);
    assert_eq!(stream.read(), None);
    assert_eq!(stream.served_count(), 0);
    assert!(stream.open(&CaptureConfig::new()));
    stream.close();
    assert_eq!(stream.read(), None);
    assert_eq!(stream.served_count(), 0);
    assert!(stream.open(&CaptureConfig::new()));
    assert_eq!(stream.read(), Some(vec![9]));
}
