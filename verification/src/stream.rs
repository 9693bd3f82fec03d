//! Streaming a fixed number of random bytes in chunks of bounded size.
//!
//! A [`Streamer`] owns the one chunk buffer and decides what is to be done
//! next; whoever drives it does the writing and reports how it went:
//!
//! ```text
//! Fill --Filled--> Write --Written--> Fill ... --> Finish
//!   \--FillFailed--> Abort    \--WriteFailed--> Abort
//! ```

use vstd::prelude::*;
use vstd::slice::slice_subrange;
use crate::entropy::os_fill;

verus! {

/// The most bytes that are held in memory at a time: 1 MiB.
pub const CHUNK_LIMIT: usize = 1048576;

/// The size of the chunk buffer for a stream of `total` bytes.
pub open spec fn capacity(total: usize) -> usize {
    if total < CHUNK_LIMIT {
        total
    } else {
        CHUNK_LIMIT
    }
}

/// Why a stream was given up.
#[derive(Clone, Copy, Debug, PartialEq, Eq, Structural)]
pub enum StreamError {
    /// The operating system did not provide random bytes.
    EntropyFailure,
    /// The sink did not take a chunk.
    WriteFailure,
}

/// What is to be done next for a stream.
#[derive(Clone, Copy, Debug, PartialEq, Eq, Structural)]
pub enum Action {
    /// Fill the first `len` bytes of the buffer with random bytes.
    Fill { len: usize },
    /// Write the first `len` bytes of the buffer to the sink, all of them.
    Write { len: usize },
    /// Nothing: every byte has been written.
    Finish,
    /// Nothing: the stream has failed.
    Abort { error: StreamError },
}

/// What came of the last action.
#[derive(Clone, Copy, Debug, PartialEq, Eq, Structural)]
pub enum Event {
    /// The chunk was filled with random bytes.
    Filled,
    /// The random source failed.
    FillFailed,
    /// The sink took the whole chunk.
    Written,
    /// The sink failed.
    WriteFailed,
}

/// How far a stream has come.
#[derive(Clone, Copy, Debug, PartialEq, Eq, Structural)]
pub struct Progress {
    /// The bytes asked for.
    pub total: usize,
    /// The bytes that the sink has taken.
    pub written: usize,
    /// The bytes that are in the buffer and not yet written.
    pub ready: usize,
    /// Set once the stream has failed.
    pub failure: Option<StreamError>,
}

impl Progress {
    /// A stream of `total` bytes of which nothing has been done.
    pub open spec fn start(total: usize) -> Progress {
        Progress { total, written: 0, ready: 0, failure: None }
    }

    /// What holds of every stream: the bytes written and those waiting are
    /// among the bytes asked for, and those waiting fit in the buffer.
    pub open spec fn wf(self) -> bool {
        &&& self.written + self.ready <= self.total
        &&& self.ready <= capacity(self.total)
    }

    /// The bytes that the sink has yet to take.
    pub open spec fn remaining(self) -> nat {
        (self.total - self.written) as nat
    }

    /// The action that is due.
    pub open spec fn next(self) -> Action {
        if let Some(error) = self.failure {
            Action::Abort { error }
        } else if self.ready > 0 {
            Action::Write { len: self.ready }
        } else if self.written == self.total {
            Action::Finish
        } else if self.total - self.written < capacity(self.total) {
            Action::Fill { len: (self.total - self.written) as usize }
        } else {
            Action::Fill { len: capacity(self.total) }
        }
    }

    /// The stream after `event`. An event that does not answer the action
    /// that is due changes nothing.
    pub open spec fn after(self, event: Event) -> Progress {
        match (self.next(), event) {
            (Action::Fill { len }, Event::Filled) => Progress { ready: len, ..self },
            (Action::Fill { .. }, Event::FillFailed) => Progress {
                failure: Some(StreamError::EntropyFailure),
                ..self
            },
            (Action::Write { len }, Event::Written) => Progress {
                written: (self.written + len) as usize,
                ready: 0,
                ..self
            },
            (Action::Write { .. }, Event::WriteFailed) => Progress {
                failure: Some(StreamError::WriteFailure),
                ..self
            },
            _ => self,
        }
    }
}

/// A stream of random bytes under way, with its chunk buffer.
pub struct Streamer {
    progress: Progress,
    buffer: Vec<u8>,
}

impl View for Streamer {
    type V = Progress;

    closed spec fn view(&self) -> Progress {
        self.progress
    }
}

impl Streamer {
    /// What every streamer that this module hands out meets, and every
    /// method keeps: its progress is well formed, and its buffer has the
    /// size that goes with the bytes asked for.
    pub open spec fn wf(&self) -> bool {
        &&& self@.wf()
        &&& self.contents().len() == capacity(self@.total)
    }

    /// The bytes in the chunk buffer.
    pub closed spec fn contents(&self) -> Seq<u8> {
        self.buffer@
    }

    /// The bytes that wait to be written: the part of the buffer that was
    /// filled last.
    pub open spec fn pending(&self) -> Seq<u8> {
        self.contents().take(self@.ready as int)
    }

    /// A stream of `total` bytes. Its buffer holds `total` bytes, or
    /// [`CHUNK_LIMIT`] if that is less, and is never made larger.
    pub fn new(total: usize) -> (s: Streamer)
        ensures
            s.wf(),
            s@ == Progress::start(total),
            s.contents() == Seq::new(capacity(total) as nat, |i: int| 0u8),
    {
        let size = if total < CHUNK_LIMIT {
            total
        } else {
            CHUNK_LIMIT
        };
        Streamer {
            progress: Progress { total, written: 0, ready: 0, failure: None },
            buffer: vec![0u8; size],
        }
    }

    /// How far the stream has come.
    pub fn progress(&self) -> (p: Progress)
        ensures
            p == self@,
    {
        self.progress
    }

    /// The size of the chunk buffer.
    pub fn buffer_size(&self) -> (n: usize)
        ensures
            n == self.contents().len(),
    {
        self.buffer.len()
    }

    /// The action that is due.
    pub fn action(&self) -> (a: Action)
        requires
            self.wf(),
        ensures
            a == self@.next(),
    {
        let p = &self.progress;
        if let Some(error) = p.failure {
            Action::Abort { error }
        } else if p.ready > 0 {
            Action::Write { len: p.ready }
        } else if p.written == p.total {
            Action::Finish
        } else if p.total - p.written < self.buffer.len() {
            Action::Fill { len: p.total - p.written }
        } else {
            Action::Fill { len: self.buffer.len() }
        }
    }

    /// The bytes to write when the action that is due is `Write`; no bytes
    /// otherwise.
    pub fn chunk(&self) -> (bytes: &[u8])
        requires
            self.wf(),
        ensures
            bytes@ == self.pending(),
            bytes@.len() == self@.ready,
    {
        slice_subrange(self.buffer.as_slice(), 0, self.progress.ready)
    }

    /// Does the action that is due if it is `Fill`, with random bytes of the
    /// operating system, and takes note of what came of it; does nothing
    /// otherwise. Gives the action that is due after that.
    ///
    /// No other source is tried where the operating system fails.
    pub fn fill(&mut self) -> (a: Action)
        requires
            old(self).wf(),
        ensures
            final(self).wf(),
            old(self)@.next() is Fill ==> final(self)@ == old(self)@.after(Event::Filled)
                || final(self)@ == old(self)@.after(Event::FillFailed),
            !(old(self)@.next() is Fill) ==> final(self)@ == old(self)@ && final(self).contents()
                == old(self).contents(),
            final(self).contents().len() == old(self).contents().len(),
            a == final(self)@.next(),
    {
        if let Action::Fill { len } = self.action() {
            let (head, _) = self.buffer.as_mut_slice().split_at_mut(len);
            let drawn = os_fill(head);
            match drawn {
                Ok(()) => self.handle(Event::Filled),
                Err(_) => self.handle(Event::FillFailed),
            }
        }
        self.action()
    }

    /// Takes note of what came of the action that was due. A driver reports
    /// its writes here; [`Streamer::fill`] reports what came of drawing the
    /// random bytes itself.
    pub fn handle(&mut self, event: Event)
        requires
            old(self).wf(),
        ensures
            final(self).wf(),
            final(self)@ == old(self)@.after(event),
            final(self).contents() == old(self).contents(),
    {
        match (self.action(), event) {
            (Action::Fill { len }, Event::Filled) => {
                self.progress.ready = len;
            },
            (Action::Fill { .. }, Event::FillFailed) => {
                self.progress.failure = Some(StreamError::EntropyFailure);
            },
            (Action::Write { len }, Event::Written) => {
                self.progress.ready = 0;
                self.progress.written = self.progress.written + len;
            },
            (Action::Write { .. }, Event::WriteFailed) => {
                self.progress.failure = Some(StreamError::WriteFailure);
            },
            _ => {},
        }
    }
}

} // verus!
