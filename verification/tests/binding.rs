use mic_capture::binding::{CaptureBinding, CaptureHandle};
use mic_capture::config::CaptureConfig;
use mic_capture::error::CaptureError;
use mic_capture::platform::PlatformStream;

/// A platform that counts what is asked of it.
struct Counting {
    grant: bool,
    valid: bool,
    pending: Vec<i16>,
    opens: u32,
    reads: u32,
    closes: u32,
    last_chunk_bytes: usize,
}

impl Counting {
    fn granting() -> Self {
        Counting {
            grant: true,
            valid: true,
            pending: Vec::new(),
            opens: 0,
            reads: 0,
            closes: 0,
            last_chunk_bytes: 0,
        }
    }

    fn denying() -> Self {
        let mut platform = Counting::granting();
        platform.grant = false;
        platform
    }
}

impl PlatformStream for Counting {
    fn open(&mut self, config: &CaptureConfig) -> bool {
        self.opens += 1;
        self.last_chunk_bytes = config.chunk_bytes();
        self.grant
    }

    fn read(&mut self) -> Option<Vec<i16>> {
        self.reads += 1;
        if self.valid {
            Some(std::mem::take(&mut self.pending))
        } else {
            None
        }
    }

    fn close(&mut self) {
        self.closes += 1;
    }
}

#[test]
fn new_binding_holds_no_stream() {
    let binding = CaptureBinding::new(Counting::granting());
    assert_eq!(binding.live(), None);
    assert_eq!(binding.open_count(), 0);
    assert_eq!(binding.platform().opens, 0);
}

#[test]
fn open_asks_the_platform_with_the_configuration() {
    let mut binding = CaptureBinding::new(Counting::granting());
    let handle = binding.open(&CaptureConfig::new());
    assert_eq!(handle, Ok(CaptureHandle(0)));
    assert_eq!(binding.live(), Some(CaptureHandle(0)));
    assert_eq!(binding.open_count(), 1);
    assert_eq!(binding.platform().opens, 1);
    assert_eq!(binding.platform().last_chunk_bytes, 8192);
}

#[test]
fn open_denied_by_the_platform_is_platform_unavailable() {
    let mut binding = CaptureBinding::new(Counting::denying());
    assert_eq!(binding.open(&CaptureConfig::new()), Err(CaptureError::PlatformUnavailable));
    assert_eq!(binding.live(), None);
    assert_eq!(binding.open_count(), 0);
    assert_eq!(binding.platform().opens, 1);
}

#[test]
fn open_while_live_is_already_open_and_leaves_the_platform_alone() {
    let mut binding = CaptureBinding::new(Counting::granting());
    let first = binding.open(&CaptureConfig::new()).unwrap();
    assert_eq!(binding.open(&CaptureConfig::new()), Err(CaptureError::AlreadyOpen));
    assert_eq!(binding.open(&CaptureConfig::new()), Err(CaptureError::AlreadyOpen));
    assert_eq!(binding.live(), Some(first));
    assert_eq!(binding.open_count(), 1);
    assert_eq!(binding.platform().opens, 1);
}

#[test]
fn handles_are_numbered_in_opening_order() {
    let mut binding = CaptureBinding::new(Counting::granting());
    let first = binding.open(&CaptureConfig::new()).unwrap();
    binding.close(&first);
    let second = binding.open(&CaptureConfig::new()).unwrap();
    binding.close(&second);
    let third = binding.open(&CaptureConfig::new()).unwrap();
    assert_eq!(first, CaptureHandle(0));
    assert_eq!(second, CaptureHandle(1));
    assert_eq!(third, CaptureHandle(2));
    assert_eq!(binding.open_count(), 3);
}

#[test]
fn read_hands_over_what_the_platform_buffered() {
    let mut platform = Counting::granting();
    platform.pending = vec![1, -2, 3];
    let mut binding = CaptureBinding::new(platform);
    let handle = binding.open(&CaptureConfig::new()).unwrap();
    assert_eq!(binding.read(&handle), Ok(vec![1, -2, 3]));
    assert_eq!(binding.platform().reads, 1);
}

#[test]
fn read_with_nothing_buffered_is_an_empty_chunk() {
    let mut binding = CaptureBinding::new(Counting::granting());
    let handle = binding.open(&CaptureConfig::new()).unwrap();
    assert_eq!(binding.read(&handle), Ok(vec![]));
    assert_eq!(binding.read(&handle), Ok(vec![]));
    assert_eq!(binding.live(), Some(handle));
}

#[test]
fn read_of_an_invalid_stream_is_device_error() {
    let mut platform = Counting::granting();
    platform.valid = false;
    let mut binding = CaptureBinding::new(platform);
    let handle = binding.open(&CaptureConfig::new()).unwrap();
    assert_eq!(binding.read(&handle), Err(CaptureError::DeviceError));
    assert_eq!(binding.platform().reads, 1);
    assert_eq!(binding.live(), Some(handle));
}

#[test]
fn read_on_a_handle_that_is_not_live_never_reaches_the_platform() {
    let mut binding = CaptureBinding::new(Counting::granting());
    assert_eq!(binding.read(&CaptureHandle(0)), Err(CaptureError::DeviceError));
    let handle = binding.open(&CaptureConfig::new()).unwrap();
    assert_eq!(binding.read(&CaptureHandle(5)), Err(CaptureError::DeviceError));
    binding.close(&handle);
    assert_eq!(binding.read(&handle), Err(CaptureError::DeviceError));
    assert_eq!(binding.platform().reads, 0);
}

#[test]
fn close_releases_the_stream_once() {
    let mut binding = CaptureBinding::new(Counting::granting());
    let handle = binding.open(&CaptureConfig::new()).unwrap();
    binding.close(&handle);
    assert_eq!(binding.live(), None);
    assert_eq!(binding.platform().closes, 1);
    binding.close(&handle);
    binding.close(&handle);
    assert_eq!(binding.live(), None);
    assert_eq!(binding.platform().closes, 1);
}

#[test]
fn close_of_another_handle_leaves_the_live_stream_open() {
    let mut binding = CaptureBinding::new(Counting::granting());
    let handle = binding.open(&CaptureConfig::new()).unwrap();
    binding.close(&CaptureHandle(99));
    assert_eq!(binding.live(), Some(handle));
    assert_eq!(binding.platform().closes, 0);
}

#[test]
fn close_without_a_stream_does_nothing() {
    let mut binding = CaptureBinding::new(Counting::granting());
    binding.close(&CaptureHandle(0));
    assert_eq!(binding.live(), None);
    assert_eq!(binding.platform().closes, 0);
}

#[test]
fn a_closed_binding_can_be_opened_again() {
    let mut binding = CaptureBinding::new(Counting::granting());
    let first = binding.open(&CaptureConfig::new()).unwrap();
    binding.close(&first);
    let second = binding.open(&CaptureConfig::new());
    assert!(second.is_ok());
    assert_ne!(second, Ok(first));
    assert_eq!(binding.platform().opens, 2);
}
