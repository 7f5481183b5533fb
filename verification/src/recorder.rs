//! The recording session: it drives a capture binding through start, poll and
//! stop, and turns what was captured into one waveform per recording.

use vstd::prelude::*;
use crate::binding::{chunk_view, platform_answer, BindingView, CaptureBinding, CaptureHandle};
use crate::config::CaptureConfig;
use crate::error::CaptureError;
use crate::platform::PlatformStream;
use crate::session::{delivered, SessionState, SessionView};
use crate::waveform::{encodes, Waveform};

verus! {

/// A recorder as the contracts see it: the binding it drives and the state
/// of its session.
pub struct RecorderView<P> {
    pub binding: BindingView<P>,
    pub session: SessionView,
}

impl<P: PlatformStream> RecorderView<P> {
    /// The session and its binding agree: while recording, the session's
    /// handle names the binding's live stream, and while idle the binding
    /// holds no stream open. Every recorder starts out like this and every
    /// operation keeps it so.
    pub open spec fn in_step(self) -> bool {
        match self.session {
            SessionView::Idle => self.binding.live is None,
            SessionView::Recording { handle, .. } => self.binding.live == Some(handle),
        }
    }

    /// What one start may do: take the recorder from `self` to `after` and
    /// report `result`.
    ///
    /// While recording, a start changes nothing and succeeds; in particular
    /// the binding is left as it was, so no second stream is opened. From
    /// idle, the binding is asked to open exactly once, in the supported
    /// format, and its answer decides both the next state and the result.
    pub open spec fn start_step(self, after: Self, result: Result<(), CaptureError>) -> bool {
        if self.session.is_recording() {
            after == self && result is Ok
        } else {
            exists|outcome: Result<CaptureHandle, CaptureError>|
                {
                    &&& #[trigger] self.binding.open_step(
                        CaptureConfig::standard(),
                        after.binding,
                        outcome,
                    )
                    &&& after.session == SessionView::opened(outcome)
                    &&& result == SessionView::start_result(outcome)
                }
        }
    }

    /// What one poll may do: take the recorder from `self` to `after` and
    /// report `result`.
    ///
    /// While idle, nothing changes and the chunk is empty. While recording,
    /// the binding is read exactly once on the session's handle; what it
    /// answers is the result, and a chunk is appended to the recording.
    pub open spec fn read_step(self, after: Self, result: Result<Seq<i16>, CaptureError>) -> bool {
        match self.session {
            SessionView::Idle => after == self && result == Ok::<Seq<i16>, CaptureError>(
                Seq::empty(),
            ),
            SessionView::Recording { handle, .. } => {
                &&& self.binding.read_step(handle, after.binding, result)
                &&& after.session == self.session.polled(result)
            },
        }
    }

    /// What one stop may do: take the recorder from `self` to `after` and
    /// return `wave`.
    ///
    /// While idle, nothing changes and the waveform is empty. While
    /// recording, the binding is read one last time, and closed from the
    /// state that this read left it in; the waveform converts the samples
    /// gathered so far followed by what the last read delivered; and the
    /// recorder is idle afterwards.
    pub open spec fn stop_step(self, after: Self, wave: Seq<u32>) -> bool {
        match self.session {
            SessionView::Idle => after == self && wave.len() == 0,
            SessionView::Recording { handle, .. } => exists|
                drained: Result<Seq<i16>, CaptureError>,
                closing: BindingView<P>,
            |
                {
                    &&& #[trigger] self.binding.read_step(handle, closing, drained)
                    &&& closing.close_step(handle, after.binding)
                    &&& after.session == SessionView::Idle
                    &&& encodes(wave, self.session.captured(drained))
                },
        }
    }
}

/// Records from the microphone through a capture binding.
///
/// The recorder is idle or recording. It opens the binding when a recording
/// starts, drains it while the recording runs, and on stop drains it once
/// more, closes it, and converts everything drained into a waveform.
///
/// Every operation takes the recorder exclusively, so a stop can never
/// interleave with a poll; callers that share a recorder between threads keep
/// it behind one lock.
///
/// A recorder runs no code of its own when it is dropped. An owner that may
/// let go of it in the middle of a recording calls `stop` first, which is
/// safe in either state and as often as it likes.
pub struct AndroidAudioRecorder<P: PlatformStream> {
    binding: CaptureBinding<P>,
    session: SessionState,
}

impl<P: PlatformStream> View for AndroidAudioRecorder<P> {
    type V = RecorderView<P>;

    closed spec fn view(&self) -> RecorderView<P> {
        RecorderView { binding: self.binding@, session: self.session@ }
    }
}

impl<P: PlatformStream> AndroidAudioRecorder<P> {
    /// An idle recorder with a binding of its own over `platform`. Nothing
    /// is asked of the platform yet, and making a recorder never fails.
    pub fn new(platform: P) -> (made: Result<Self, CaptureError>)
        ensures
            made matches Ok(recorder) && recorder@ == (RecorderView {
                binding: BindingView { platform, live: None, opened: 0 },
                session: SessionView::Idle,
            }) && recorder@.in_step(),
    {
        Ok(
            AndroidAudioRecorder {
                binding: CaptureBinding::new(platform),
                session: SessionState::new(),
            },
        )
    }

    /// Whether a recording is running.
    pub fn is_recording(&self) -> (recording: bool)
        ensures
            recording == self@.session.is_recording(),
    {
        self.session.is_recording()
    }

    /// The number of raw samples gathered since the recording started; zero
    /// while idle.
    pub fn buffered(&self) -> (count: usize)
        ensures
            count == match self@.session {
                SessionView::Idle => 0,
                SessionView::Recording { raw, .. } => raw.len(),
            },
    {
        self.session.buffered()
    }

    /// The binding, for inspection.
    pub fn binding(&self) -> (binding: &CaptureBinding<P>)
        ensures
            binding@ == self@.binding,
    {
        &self.binding
    }

    /// Starts a recording.
    ///
    /// From idle, the binding is asked once for a stream in the supported
    /// format. If it provides one the recorder is recording, with an empty
    /// buffer; if it fails the recorder stays idle and reports the binding's
    /// failure unchanged.
    ///
    /// While a recording is already running, start succeeds without doing
    /// anything: the binding is not touched, so a second stream is never
    /// opened, and the samples gathered so far are kept.
    pub fn start(&mut self) -> (result: Result<(), CaptureError>)
        ensures
            old(self)@.start_step(final(self)@, result),
            old(self)@.in_step() ==> final(self)@.in_step(),
    {
        if self.session.is_recording() {
            return Ok(());
        }
        let config = CaptureConfig::new();
        let outcome = self.binding.open(&config);
        let result = self.session.apply_open(outcome);
        assert(old(self)@.binding.open_step(CaptureConfig::standard(), self@.binding, outcome));
        result
    }

    /// Drains the samples that became available since the last drain.
    ///
    /// While recording, the binding is read once. A chunk is appended to the
    /// recording and also returned; it may be empty. A failure is returned
    /// unchanged, the recording stays open and keeps what it has, so a later
    /// stop still returns it.
    ///
    /// While idle nothing is read and the result is an empty chunk.
    pub fn read_audio(&mut self) -> (result: Result<Vec<i16>, CaptureError>)
        ensures
            old(self)@.read_step(final(self)@, chunk_view(result)),
            old(self)@.in_step() ==> final(self)@.in_step(),
    {
        match self.session.handle() {
            None => Ok(Vec::new()),
            Some(handle) => {
                let outcome = self.binding.read(&handle);
                self.session.apply_read(outcome)
            },
        }
    }

    /// Stops the recording and returns its waveform. Stop never fails.
    ///
    /// While recording, the binding is first read one last time and only
    /// then closed. The waveform is the conversion of every sample gathered
    /// since the start followed by what that last read delivered; if the last
    /// read fails, the samples gathered before it are returned all the same.
    /// Afterwards the recorder is idle and holds no sample.
    ///
    /// While idle the binding is not touched and the waveform is empty.
    pub fn stop(&mut self) -> (result: Result<Waveform, CaptureError>)
        ensures
            result matches Ok(wave) && old(self)@.stop_step(final(self)@, wave@),
            old(self)@.in_step() ==> final(self)@.in_step(),
    {
        match self.session.handle() {
            None => Ok(Waveform::empty()),
            Some(handle) => {
                let drained = self.binding.read(&handle);
                let ghost closing = self.binding@;
                self.binding.close(&handle);
                let wave = self.session.finish(drained);
                assert(old(self)@.binding.read_step(handle, closing, chunk_view(drained)));
                Ok(wave)
            },
        }
    }
}

/// After any stop the recorder is idle, whatever state it was stopped in.
pub proof fn lemma_stop_ends_idle<P: PlatformStream>(
    before: RecorderView<P>,
    after: RecorderView<P>,
    wave: Seq<u32>,
)
    requires
        before.stop_step(after, wave),
    ensures
        after.session == SessionView::Idle,
{
}

/// Stopping twice in a row: the second stop returns an empty waveform and
/// leaves the recorder, binding and platform included, exactly as the first
/// stop left it.
pub proof fn lemma_second_stop_is_empty<P: PlatformStream>(
    before: RecorderView<P>,
    between: RecorderView<P>,
    after: RecorderView<P>,
    first: Seq<u32>,
    second: Seq<u32>,
)
    requires
        before.stop_step(between, first),
        between.stop_step(after, second),
    ensures
        second.len() == 0,
        after == between,
{
}

/// A start while recording opens nothing: binding, platform and the samples
/// gathered so far are exactly as before, and the start succeeds.
pub proof fn lemma_start_while_recording_is_inert<P: PlatformStream>(
    before: RecorderView<P>,
    after: RecorderView<P>,
    result: Result<(), CaptureError>,
)
    requires
        before.session.is_recording(),
        before.start_step(after, result),
    ensures
        after == before,
        result is Ok,
{
}

/// One platform stream per recording. A start that takes the recorder from
/// idle to recording has asked the platform for a stream exactly once and
/// was granted it: the recorder then records on a fresh handle, with an
/// empty buffer and one more stream counted. A start from idle that fails
/// reports `PlatformUnavailable` and leaves the recorder idle with no stream
/// live; the platform was asked once and denied the stream, unless every
/// handle had been used, in which case it was not asked at all.
pub proof fn lemma_start_opens_exactly_once<P: PlatformStream>(
    before: RecorderView<P>,
    after: RecorderView<P>,
    result: Result<(), CaptureError>,
)
    requires
        before.in_step(),
        !before.session.is_recording(),
        before.start_step(after, result),
    ensures
        result is Ok ==> {
            &&& before.binding.platform.open_step(
                CaptureConfig::standard(),
                &after.binding.platform,
                true,
            )
            &&& after.binding.opened == before.binding.opened + 1
            &&& after.session == (SessionView::Recording {
                handle: CaptureHandle(before.binding.opened as u64),
                raw: Seq::empty(),
            })
        },
        result is Err ==> {
            &&& result == Err::<(), CaptureError>(CaptureError::PlatformUnavailable)
            &&& after.session == SessionView::Idle
            &&& after.binding.live is None
            &&& after.binding.opened == before.binding.opened
            &&& if before.binding.opened < u64::MAX {
                before.binding.platform.open_step(
                    CaptureConfig::standard(),
                    &after.binding.platform,
                    false,
                )
            } else {
                after == before
            }
        },
{
}

/// A start succeeds exactly when it leaves the recorder recording; a failed
/// start from idle leaves it idle.
pub proof fn lemma_start_succeeds_iff_recording<P: PlatformStream>(
    before: RecorderView<P>,
    after: RecorderView<P>,
    result: Result<(), CaptureError>,
)
    requires
        before.start_step(after, result),
    ensures
        result is Ok <==> after.session.is_recording(),
{
}

/// A poll while recording reads the platform exactly once. If the platform
/// reports the stream invalid, the poll fails with `DeviceError`, and the
/// recorder keeps recording with every sample it had.
pub proof fn lemma_poll_reads_exactly_once<P: PlatformStream>(
    before: RecorderView<P>,
    after: RecorderView<P>,
    result: Result<Seq<i16>, CaptureError>,
)
    requires
        before.in_step(),
        before.session.is_recording(),
        before.read_step(after, result),
    ensures
        before.binding.platform.read_step(&after.binding.platform, platform_answer(result)),
        after.session.is_recording(),
        after.binding.live == before.binding.live,
        result matches Err(error) ==> error == CaptureError::DeviceError && after.session
            == before.session,
{
    if result is Err {
        assert(before.session->raw + delivered(result) =~= before.session->raw);
    }
}

/// Drain before close. A stop while recording reads the platform one last
/// time, closes the platform's stream from the state that this read left
/// it in, and returns the conversion of the samples gathered so far followed
/// by what that last read delivered. Afterwards no stream is live.
pub proof fn lemma_stop_drains_then_closes<P: PlatformStream>(
    before: RecorderView<P>,
    after: RecorderView<P>,
    wave: Seq<u32>,
)
    requires
        before.in_step(),
        before.session.is_recording(),
        before.stop_step(after, wave),
    ensures
        after.binding.live is None,
        after.binding.opened == before.binding.opened,
        exists|drained: Result<Seq<i16>, CaptureError>, closing: P|
            {
                &&& #[trigger] before.binding.platform.read_step(
                    &closing,
                    platform_answer(drained),
                )
                &&& closing.close_step(&after.binding.platform)
                &&& encodes(wave, before.session->raw + delivered(drained))
            },
{
    let handle = before.session->handle;
    let (drained, closing) = choose|
        drained: Result<Seq<i16>, CaptureError>,
        closing: BindingView<P>,
    |
        {
            &&& #[trigger] before.binding.read_step(handle, closing, drained)
            &&& closing.close_step(handle, after.binding)
            &&& after.session == SessionView::Idle
            &&& encodes(wave, before.session.captured(drained))
        };
    assert(before.binding.platform.read_step(&closing.platform, platform_answer(drained)));
}

/// Nothing leaks from one recording into the next. After a stop, a start
/// that succeeds and a second stop with no poll in between, the second
/// waveform converts what its own final read delivered and nothing else; if
/// that read delivered nothing, the waveform is empty.
pub proof fn lemma_no_leak_between_recordings<P: PlatformStream>(
    first: RecorderView<P>,
    stopped: RecorderView<P>,
    restarted: RecorderView<P>,
    last: RecorderView<P>,
    first_wave: Seq<u32>,
    second_wave: Seq<u32>,
)
    requires
        first.stop_step(stopped, first_wave),
        stopped.start_step(restarted, Ok(())),
        restarted.stop_step(last, second_wave),
    ensures
        restarted.session matches SessionView::Recording { handle, raw } && raw.len() == 0
            && exists|drained: Result<Seq<i16>, CaptureError>, closing: BindingView<P>|
            {
                &&& #[trigger] restarted.binding.read_step(handle, closing, drained)
                &&& closing.close_step(handle, last.binding)
                &&& encodes(second_wave, delivered(drained))
                &&& delivered(drained).len() == 0 ==> second_wave.len() == 0
            },
{
    let handle = restarted.session->handle;
    let (drained, closing) = choose|
        drained: Result<Seq<i16>, CaptureError>,
        closing: BindingView<P>,
    |
        {
            &&& #[trigger] restarted.binding.read_step(handle, closing, drained)
            &&& closing.close_step(handle, last.binding)
            &&& last.session == SessionView::Idle
            &&& encodes(second_wave, restarted.session.captured(drained))
        };
    assert(restarted.session.captured(drained) =~= delivered(drained));
}

/// What a poll delivered is part of what the next stop returns: samples
/// appended by a successful poll come back, in order, ahead of the final
/// drain, and a failed poll loses nothing that was gathered before it.
pub proof fn lemma_polled_samples_reach_the_waveform<P: PlatformStream>(
    before: RecorderView<P>,
    polled: RecorderView<P>,
    after: RecorderView<P>,
    chunk: Result<Seq<i16>, CaptureError>,
    wave: Seq<u32>,
)
    requires
        before.session.is_recording(),
        before.read_step(polled, chunk),
        polled.stop_step(after, wave),
    ensures
        exists|drained: Result<Seq<i16>, CaptureError>|
            encodes(
                wave,
                before.session->raw + delivered(chunk) + #[trigger] delivered(drained),
            ),
{
    let handle = polled.session->handle;
    let (drained, closing) = choose|
        drained: Result<Seq<i16>, CaptureError>,
        closing: BindingView<P>,
    |
        {
            &&& #[trigger] polled.binding.read_step(handle, closing, drained)
            &&& closing.close_step(handle, after.binding)
            &&& after.session == SessionView::Idle
            &&& encodes(wave, polled.session.captured(drained))
        };
    assert(polled.session.captured(drained) == before.session->raw + delivered(chunk) + delivered(
        drained,
    ));
}

} // verus!
