//! The state of a recording session, apart from the binding it drives: one
//! bundle that is either idle or recording, and while recording owns the
//! capture handle together with the raw samples gathered so far.
//!
//! Every transition takes the binding's answer as an argument, so what the
//! session makes of each possible answer is stated here, for all of them.

use vstd::prelude::*;
use crate::binding::{chunk_view, CaptureHandle};
use crate::error::CaptureError;
use crate::waveform::{encodes, Waveform};

verus! {

/// A session as the contracts see it.
pub enum SessionView {
    /// No capture stream is held and no sample is kept.
    Idle,
    /// The stream named by `handle` is held; `raw` are the samples drained
    /// from it so far, oldest first.
    Recording { handle: CaptureHandle, raw: Seq<i16> },
}

/// The samples a read contributed: the chunk, or nothing where it failed.
pub open spec fn delivered(outcome: Result<Seq<i16>, CaptureError>) -> Seq<i16> {
    match outcome {
        Ok(chunk) => chunk,
        Err(_) => Seq::empty(),
    }
}

impl SessionView {
    /// Whether a capture stream is held.
    pub open spec fn is_recording(self) -> bool {
        self is Recording
    }

    /// The session after the binding answered an open request with
    /// `outcome`: recording on the new handle with nothing buffered, or idle
    /// where the request failed.
    pub open spec fn opened(outcome: Result<CaptureHandle, CaptureError>) -> SessionView {
        match outcome {
            Ok(handle) => SessionView::Recording { handle, raw: Seq::empty() },
            Err(_) => SessionView::Idle,
        }
    }

    /// What a start reports for the binding's answer: the binding's own
    /// failure, unchanged, or success.
    pub open spec fn start_result(outcome: Result<CaptureHandle, CaptureError>) -> Result<
        (),
        CaptureError,
    > {
        match outcome {
            Ok(_) => Ok(()),
            Err(error) => Err(error),
        }
    }

    /// The session after a read while recording ended with `outcome`: the
    /// chunk is appended; a failure changes nothing.
    pub open spec fn polled(self, outcome: Result<Seq<i16>, CaptureError>) -> SessionView {
        match self {
            SessionView::Idle => SessionView::Idle,
            SessionView::Recording { handle, raw } => SessionView::Recording {
                handle,
                raw: raw + delivered(outcome),
            },
        }
    }

    /// The samples a stop converts when its final drain ended with `drained`:
    /// everything gathered so far, then what the drain delivered.
    pub open spec fn captured(self, drained: Result<Seq<i16>, CaptureError>) -> Seq<i16> {
        match self {
            SessionView::Idle => Seq::empty(),
            SessionView::Recording { raw, .. } => raw + delivered(drained),
        }
    }
}

/// The recording flag, the capture handle and the raw buffer, kept as one
/// value so that no two of them can ever disagree.
pub struct SessionState {
    handle: Option<CaptureHandle>,
    raw: Vec<i16>,
}

impl View for SessionState {
    type V = SessionView;

    closed spec fn view(&self) -> SessionView {
        match self.handle {
            None => SessionView::Idle,
            Some(handle) => SessionView::Recording { handle, raw: self.raw@ },
        }
    }
}

impl SessionState {
    /// A session that has not started.
    pub fn new() -> (state: SessionState)
        ensures
            state@ == SessionView::Idle,
    {
        SessionState { handle: None, raw: Vec::new() }
    }

    /// The handle of the stream being recorded from, if there is one.
    pub fn handle(&self) -> (handle: Option<CaptureHandle>)
        ensures
            handle == match self@ {
                SessionView::Idle => None,
                SessionView::Recording { handle, .. } => Some(handle),
            },
    {
        self.handle
    }

    /// Whether the session is recording.
    pub fn is_recording(&self) -> (recording: bool)
        ensures
            recording == self@.is_recording(),
    {
        self.handle.is_some()
    }

    /// The number of raw samples gathered since the recording started.
    pub fn buffered(&self) -> (count: usize)
        ensures
            count == match self@ {
                SessionView::Idle => 0,
                SessionView::Recording { raw, .. } => raw.len(),
            },
    {
        if self.handle.is_some() {
            self.raw.len()
        } else {
            0
        }
    }

    /// Takes in the binding's answer to the open request of a start.
    ///
    /// On a handle the session begins recording with an empty buffer; on a
    /// failure it stays idle and reports that same failure.
    pub fn apply_open(&mut self, outcome: Result<CaptureHandle, CaptureError>) -> (result: Result<
        (),
        CaptureError,
    >)
        requires
            !old(self)@.is_recording(),
        ensures
            final(self)@ == SessionView::opened(outcome),
            result == SessionView::start_result(outcome),
    {
        match outcome {
            Ok(handle) => {
                self.raw = Vec::new();
                self.handle = Some(handle);
                Ok(())
            },
            Err(error) => Err(error),
        }
    }

    /// Takes in the binding's answer to a read while recording.
    ///
    /// A chunk is appended to the buffer and also handed back, for live
    /// monitoring. A failure is handed back as it is; the session keeps
    /// recording and keeps every sample it already has.
    pub fn apply_read(&mut self, outcome: Result<Vec<i16>, CaptureError>) -> (result: Result<
        Vec<i16>,
        CaptureError,
    >)
        requires
            old(self)@.is_recording(),
        ensures
            final(self)@ == old(self)@.polled(chunk_view(outcome)),
            chunk_view(result) == chunk_view(outcome),
    {
        match outcome {
            Ok(chunk) => {
                append_samples(&mut self.raw, &chunk);
                Ok(chunk)
            },
            Err(error) => Err(error),
        }
    }

    /// Ends the recording, given the binding's answer to the final drain.
    ///
    /// The waveform holds every sample gathered during the recording followed
    /// by what the drain delivered. A failed drain delivers nothing and costs
    /// nothing: the samples gathered before it are still returned. The raw
    /// buffer is emptied and the session is idle afterwards.
    pub fn finish(&mut self, drained: Result<Vec<i16>, CaptureError>) -> (wave: Waveform)
        requires
            old(self)@.is_recording(),
        ensures
            final(self)@ == SessionView::Idle,
            encodes(wave@, old(self)@.captured(chunk_view(drained))),
    {
        let mut raw: Vec<i16> = Vec::new();
        core::mem::swap(&mut self.raw, &mut raw);
        self.handle = None;
        match drained {
            Ok(chunk) => {
                append_samples(&mut raw, &chunk);
            },
            Err(_) => {},
        }
        Waveform::from_samples(&raw)
    }
}

/// Appends a copy of `chunk` to `buffer`, keeping the order of both.
fn append_samples(buffer: &mut Vec<i16>, chunk: &Vec<i16>)
    ensures
        final(buffer)@ == old(buffer)@ + chunk@,
{
    let mut i: usize = 0;
    while i < chunk.len()
        invariant
            i <= chunk.len(),
            buffer@ == old(buffer)@ + chunk@.subrange(0, i as int),
        decreases chunk.len() - i,
    {
        buffer.push(chunk[i]);
        i = i + 1;
    }
}

} // verus!
