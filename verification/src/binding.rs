//! The platform capture binding: open, read and close over the device's
//! audio input, with the handle discipline and the failure kinds that a
//! recording session relies on.

use vstd::prelude::*;
use crate::config::CaptureConfig;
use crate::error::CaptureError;
use crate::platform::PlatformStream;

verus! {

/// Names one open capture stream. Handles are numbered in the order the
/// streams were opened, so no two streams of a binding share one.
#[derive(Clone, Copy, Debug, PartialEq, Eq, Structural)]
pub struct CaptureHandle(pub u64);

/// What a read produced, with the chunk as a sequence.
pub open spec fn chunk_view(outcome: Result<Vec<i16>, CaptureError>) -> Result<
    Seq<i16>,
    CaptureError,
> {
    match outcome {
        Ok(chunk) => Ok(chunk@),
        Err(error) => Err(error),
    }
}

/// What the platform must have produced for a read to end in `outcome`.
pub open spec fn platform_answer(outcome: Result<Seq<i16>, CaptureError>) -> Option<Seq<i16>> {
    match outcome {
        Ok(chunk) => Some(chunk),
        Err(_) => None,
    }
}

/// A binding as the contracts see it.
pub struct BindingView<P> {
    /// The platform underneath.
    pub platform: P,
    /// The stream that is open, if one is.
    pub live: Option<CaptureHandle>,
    /// How many streams have been opened so far.
    pub opened: nat,
}

impl<P: PlatformStream> BindingView<P> {
    /// What one open may do: take the binding from `self` to `after` and
    /// report `outcome`.
    ///
    /// While a stream is live the request is refused with `AlreadyOpen`
    /// and nothing changes; the platform is not even asked. The same goes,
    /// with `PlatformUnavailable`, once every handle has been used.
    /// Otherwise the platform is asked exactly once. If it grants the
    /// stream, the stream is live under the next handle in order; if not,
    /// the failure is `PlatformUnavailable` and no stream is live.
    pub open spec fn open_step(
        self,
        config: CaptureConfig,
        after: Self,
        outcome: Result<CaptureHandle, CaptureError>,
    ) -> bool {
        if self.live is Some {
            after == self && outcome == Err::<CaptureHandle, CaptureError>(
                CaptureError::AlreadyOpen,
            )
        } else if self.opened >= u64::MAX {
            after == self && outcome == Err::<CaptureHandle, CaptureError>(
                CaptureError::PlatformUnavailable,
            )
        } else {
            &&& self.platform.open_step(config, &after.platform, outcome is Ok)
            &&& match outcome {
                Ok(handle) => {
                    &&& handle == CaptureHandle(self.opened as u64)
                    &&& after.live == Some(handle)
                    &&& after.opened == self.opened + 1
                },
                Err(error) => {
                    &&& error == CaptureError::PlatformUnavailable
                    &&& after.live is None
                    &&& after.opened == self.opened
                },
            }
        }
    }

    /// What one read on `handle` may do: take the binding from `self` to
    /// `after` and report `outcome`.
    ///
    /// A handle that does not name the live stream is refused with
    /// `DeviceError` and nothing changes. Otherwise the platform is read
    /// exactly once: its chunk is the result, and if it reports the stream
    /// invalid the failure is `DeviceError`. Reading never opens or closes
    /// a stream.
    pub open spec fn read_step(
        self,
        handle: CaptureHandle,
        after: Self,
        outcome: Result<Seq<i16>, CaptureError>,
    ) -> bool {
        if self.live != Some(handle) {
            after == self && outcome == Err::<Seq<i16>, CaptureError>(CaptureError::DeviceError)
        } else {
            &&& self.platform.read_step(&after.platform, platform_answer(outcome))
            &&& after.live == self.live
            &&& after.opened == self.opened
            &&& outcome matches Err(error) ==> error == CaptureError::DeviceError
        }
    }

    /// What one close of `handle` may do: take the binding from `self` to
    /// `after`.
    ///
    /// Closing the live stream closes the platform's stream exactly once
    /// and leaves no stream live. Closing any other handle, one that was
    /// closed before included, changes nothing.
    pub open spec fn close_step(self, handle: CaptureHandle, after: Self) -> bool {
        if self.live == Some(handle) {
            &&& self.platform.close_step(&after.platform)
            &&& after.live is None
            &&& after.opened == self.opened
        } else {
            after == self
        }
    }
}

/// A capture binding over a platform stream.
pub struct CaptureBinding<P: PlatformStream> {
    platform: P,
    live: Option<CaptureHandle>,
    opened: u64,
}

impl<P: PlatformStream> View for CaptureBinding<P> {
    type V = BindingView<P>;

    closed spec fn view(&self) -> BindingView<P> {
        BindingView { platform: self.platform, live: self.live, opened: self.opened as nat }
    }
}

impl<P: PlatformStream> CaptureBinding<P> {
    /// A binding over `platform`, with no stream open.
    pub fn new(platform: P) -> (binding: Self)
        ensures
            binding@ == (BindingView { platform, live: None, opened: 0 }),
    {
        CaptureBinding { platform, live: None, opened: 0 }
    }

    /// The platform underneath, for inspection.
    pub fn platform(&self) -> (platform: &P)
        ensures
            *platform == self@.platform,
    {
        &self.platform
    }

    /// The stream that is open, if one is.
    pub fn live(&self) -> (live: Option<CaptureHandle>)
        ensures
            live == self@.live,
    {
        self.live
    }

    /// How many streams have been opened so far.
    pub fn open_count(&self) -> (count: u64)
        ensures
            count == self@.opened,
    {
        self.opened
    }

    /// Requests a capture stream sized to hold at least one chunk of
    /// `config`. Fails with `AlreadyOpen` while a stream is live, and with
    /// `PlatformUnavailable` where the platform denies the request.
    pub fn open(&mut self, config: &CaptureConfig) -> (outcome: Result<
        CaptureHandle,
        CaptureError,
    >)
        ensures
            old(self)@.open_step(*config, final(self)@, outcome),
    {
        if self.live.is_some() {
            return Err(CaptureError::AlreadyOpen);
        }
        if self.opened == u64::MAX {
            return Err(CaptureError::PlatformUnavailable);
        }
        if self.platform.open(config) {
            let handle = CaptureHandle(self.opened);
            self.opened = self.opened + 1;
            self.live = Some(handle);
            Ok(handle)
        } else {
            Err(CaptureError::PlatformUnavailable)
        }
    }

    /// Hands over the samples buffered since the last read, without
    /// waiting for more: an empty chunk is no failure. Fails with
    /// `DeviceError` where the stream is no longer valid.
    pub fn read(&mut self, handle: &CaptureHandle) -> (outcome: Result<Vec<i16>, CaptureError>)
        ensures
            old(self)@.read_step(*handle, final(self)@, chunk_view(outcome)),
    {
        if !self.holds(handle) {
            return Err(CaptureError::DeviceError);
        }
        match self.platform.read() {
            Some(chunk) => Ok(chunk),
            None => Err(CaptureError::DeviceError),
        }
    }

    /// Releases the stream. Closing a stream that is already closed does
    /// nothing, and closing cannot fail.
    pub fn close(&mut self, handle: &CaptureHandle)
        ensures
            old(self)@.close_step(*handle, final(self)@),
    {
        if self.holds(handle) {
            self.platform.close();
            self.live = None;
        }
    }

    /// Whether `handle` names the live stream.
    fn holds(&self, handle: &CaptureHandle) -> (held: bool)
        ensures
            held == (self@.live == Some(*handle)),
    {
        match self.live {
            Some(live) => live.0 == handle.0,
            None => false,
        }
    }
}

/// While a stream is live no second one is opened: the request fails with
/// `AlreadyOpen`, the platform is left alone, and the live stream stays.
pub proof fn lemma_open_while_live_is_refused<P: PlatformStream>(
    before: BindingView<P>,
    config: CaptureConfig,
    after: BindingView<P>,
    outcome: Result<CaptureHandle, CaptureError>,
)
    requires
        before.live is Some,
        before.open_step(config, after, outcome),
    ensures
        outcome == Err::<CaptureHandle, CaptureError>(CaptureError::AlreadyOpen),
        after == before,
{
}

/// An open succeeds exactly when it leaves a stream live that was not live
/// before, and that stream is the one its handle names.
pub proof fn lemma_open_grants_the_live_stream<P: PlatformStream>(
    before: BindingView<P>,
    config: CaptureConfig,
    after: BindingView<P>,
    outcome: Result<CaptureHandle, CaptureError>,
)
    requires
        before.open_step(config, after, outcome),
    ensures
        outcome matches Ok(handle) ==> before.live is None && after.live == Some(handle),
        outcome is Err ==> after.live == before.live,
        outcome matches Err(error) ==> error != CaptureError::DeviceError,
{
}

/// Handles are never reused: a stream opened later has a larger handle than
/// any stream that this binding opened before.
pub proof fn lemma_handles_are_fresh<P: PlatformStream>(
    before: BindingView<P>,
    config: CaptureConfig,
    after: BindingView<P>,
    handle: CaptureHandle,
)
    requires
        before.open_step(config, after, Ok(handle)),
    ensures
        handle.0 == before.opened,
        after.opened == before.opened + 1,
{
}

/// Closing is idempotent: a second close of the same handle changes nothing,
/// and after the first no read on that handle reaches the platform.
pub proof fn lemma_close_twice_is_close_once<P: PlatformStream>(
    before: BindingView<P>,
    handle: CaptureHandle,
    closed: BindingView<P>,
    again: BindingView<P>,
)
    requires
        before.close_step(handle, closed),
        closed.close_step(handle, again),
    ensures
        closed.live != Some(handle),
        again == closed,
{
}

/// A handle that was closed is no longer valid: reading from it fails with
/// `DeviceError` and touches neither the binding nor the platform.
pub proof fn lemma_read_after_close_fails<P: PlatformStream>(
    before: BindingView<P>,
    handle: CaptureHandle,
    closed: BindingView<P>,
    after: BindingView<P>,
    outcome: Result<Seq<i16>, CaptureError>,
)
    requires
        before.close_step(handle, closed),
        closed.read_step(handle, after, outcome),
    ensures
        outcome == Err::<Seq<i16>, CaptureError>(CaptureError::DeviceError),
        after == closed,
{
}

} // verus!
