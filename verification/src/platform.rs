//! The operating system's microphone interface, reduced to what a capture
//! binding asks of it.

use vstd::prelude::*;
use crate::config::CaptureConfig;

verus! {

/// What a raw read produced, with the chunk as a sequence.
pub open spec fn read_view(outcome: Option<Vec<i16>>) -> Option<Seq<i16>> {
    match outcome {
        Some(chunk) => Some(chunk@),
        None => None,
    }
}

/// The platform's audio input: one stream that can be opened, read and
/// closed. Implementations do the platform's marshaling and nothing else;
/// handles, error kinds and the rule of one live stream are the binding's
/// business.
///
/// The three `*_step` relations say what a call may do to the platform. An
/// implementation that says nothing leaves them at "anything", which claims
/// nothing about it. Contracts further up are stated over these relations,
/// so they show which platform calls are made, in which order, and what
/// becomes of each answer, whatever the platform is.
pub trait PlatformStream: Sized {
    /// `open` may take the platform from `self` to `after` and grant the
    /// stream or not.
    open spec fn open_step(&self, config: CaptureConfig, after: &Self, granted: bool) -> bool {
        true
    }

    /// `read` may take the platform from `self` to `after` and produce
    /// `outcome`.
    open spec fn read_step(&self, after: &Self, outcome: Option<Seq<i16>>) -> bool {
        true
    }

    /// `close` may take the platform from `self` to `after`.
    open spec fn close_step(&self, after: &Self) -> bool {
        true
    }

    /// Asks the platform for a capture stream that holds at least one chunk
    /// of `config`. The answer is whether the stream was granted; it is not
    /// where there is no microphone, no permission, or the device is busy.
    fn open(&mut self, config: &CaptureConfig) -> (granted: bool)
        ensures
            old(self).open_step(*config, final(self), granted),
    ;

    /// Takes the samples the platform has buffered, without waiting for
    /// more; there may be none. `None` says the stream is no longer valid.
    fn read(&mut self) -> (outcome: Option<Vec<i16>>)
        ensures
            old(self).read_step(final(self), read_view(outcome)),
    ;

    /// Gives the stream back to the platform.
    fn close(&mut self)
        ensures
            old(self).close_step(final(self)),
    ;
}

} // verus!
