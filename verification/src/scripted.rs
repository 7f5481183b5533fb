//! A platform stream that plays a script instead of a microphone: each read
//! of the open stream delivers the next scripted chunk, or reports the
//! stream invalid where the script has a fault. It needs no platform at all
//! and answers the same way every time, which makes it the stream to test a
//! binding or a session against.

use vstd::prelude::*;
use crate::config::CaptureConfig;
use crate::platform::{read_view, PlatformStream};

verus! {

/// A scripted stream as the contracts see it.
pub struct ScriptedView {
    /// What reads of the open stream deliver, in order: a chunk, or `None`
    /// for a fault.
    pub script: Seq<Option<Seq<i16>>>,
    /// How many script entries have been used.
    pub served: nat,
    /// Whether the platform grants the stream when asked.
    pub available: bool,
    /// Whether the stream is open.
    pub open: bool,
}

impl ScriptedView {
    /// Whether an open request is granted: the platform must be willing,
    /// and the stream not already taken.
    pub open spec fn grants(self) -> bool {
        self.available && !self.open
    }

    /// The stream after an open request.
    pub open spec fn after_open(self) -> ScriptedView {
        if self.grants() {
            ScriptedView { open: true, ..self }
        } else {
            self
        }
    }

    /// What a read produces: nothing valid unless the stream is open; then
    /// the next entry of the script; and an empty chunk once the script has
    /// run out.
    pub open spec fn read_answer(self) -> Option<Seq<i16>> {
        if !self.open {
            None
        } else if self.served < self.script.len() {
            self.script[self.served as int]
        } else {
            Some(Seq::empty())
        }
    }

    /// The stream after a read: one script entry further, if one was used.
    pub open spec fn after_read(self) -> ScriptedView {
        if self.open && self.served < self.script.len() {
            ScriptedView { served: self.served + 1, ..self }
        } else {
            self
        }
    }

    /// The stream after a close.
    pub open spec fn after_close(self) -> ScriptedView {
        ScriptedView { open: false, ..self }
    }
}

/// A script with each chunk as a sequence.
pub open spec fn script_view(script: Seq<Option<Vec<i16>>>) -> Seq<Option<Seq<i16>>> {
    Seq::new(script.len(), |i: int| read_view(script[i]))
}

/// A platform stream that answers from a script.
pub struct ScriptedStream {
    script: Vec<Option<Vec<i16>>>,
    served: usize,
    available: bool,
    open: bool,
}

impl View for ScriptedStream {
    type V = ScriptedView;

    closed spec fn view(&self) -> ScriptedView {
        ScriptedView {
            script: script_view(self.script@),
            served: self.served as nat,
            available: self.available,
            open: self.open,
        }
    }
}

impl ScriptedStream {
    /// A stream that the platform grants and whose reads answer from
    /// `script`: `Some` chunk is delivered, `None` is a fault.
    pub fn new(script: Vec<Option<Vec<i16>>>) -> (stream: ScriptedStream)
        ensures
            stream@ == (ScriptedView {
                script: script_view(script@),
                served: 0,
                available: true,
                open: false,
            }),
    {
        ScriptedStream { script, served: 0, available: true, open: false }
    }

    /// A stream that the platform never grants: there is no microphone, or
    /// no permission to use it.
    pub fn unavailable() -> (stream: ScriptedStream)
        ensures
            stream@ == (ScriptedView {
                script: Seq::empty(),
                served: 0,
                available: false,
                open: false,
            }),
    {
        let stream = ScriptedStream {
            script: Vec::new(),
            served: 0,
            available: false,
            open: false,
        };
        assert(stream@.script =~= Seq::empty());
        stream
    }

    /// How many script entries have been used so far.
    pub fn served_count(&self) -> (count: usize)
        ensures
            count == self@.served,
    {
        self.served
    }

    /// Whether the stream is open.
    pub fn is_open(&self) -> (open: bool)
        ensures
            open == self@.open,
    {
        self.open
    }
}

impl PlatformStream for ScriptedStream {
    open spec fn open_step(&self, config: CaptureConfig, after: &Self, granted: bool) -> bool {
        granted == self@.grants() && after@ == self@.after_open()
    }

    open spec fn read_step(&self, after: &Self, outcome: Option<Seq<i16>>) -> bool {
        outcome == self@.read_answer() && after@ == self@.after_read()
    }

    open spec fn close_step(&self, after: &Self) -> bool {
        after@ == self@.after_close()
    }

    fn open(&mut self, config: &CaptureConfig) -> (granted: bool) {
        if self.available && !self.open {
            self.open = true;
            true
        } else {
            false
        }
    }

    fn read(&mut self) -> (outcome: Option<Vec<i16>>) {
        if !self.open {
            return None;
        }
        if self.served < self.script.len() {
            let answer = match &self.script[self.served] {
                Some(chunk) => Some(copy_samples(chunk)),
                None => None,
            };
            self.served = self.served + 1;
            answer
        } else {
            Some(Vec::new())
        }
    }

    fn close(&mut self) {
        self.open = false;
    }
}

/// A copy of `chunk`, sample for sample.
fn copy_samples(chunk: &Vec<i16>) -> (copy: Vec<i16>)
    ensures
        copy@ == chunk@,
{
    let mut copy: Vec<i16> = Vec::new();
    let mut i: usize = 0;
    while i < chunk.len()
        invariant
            i <= chunk.len(),
            copy@ == chunk@.subrange(0, i as int),
        decreases chunk.len() - i,
    {
        copy.push(chunk[i]);
        i = i + 1;
    }
    copy
}

} // verus!
