//! The line framer: a read accumulator that turns the bytes of a stream into
//! CR LF lines, and a write accumulator that holds bytes until the stream
//! takes them.
//!
//! The framer makes no I/O of its own. Whoever owns the stream hands it the
//! bytes that were read ([`LineFramer::fill`]), tells it when the stream
//! reported closure ([`LineFramer::mark_closed`]), and reports how many bytes
//! a write took ([`LineFramer::written`]); the framer decides what is a line,
//! what is left to write, and when a write broke the transport's contract.
use crate::buf::{buf_bytes, buf_extend, buf_new, buf_slice, buf_split_to, buf_truncate};
use crate::wire::{crlf_at, find_terminator, first_crlf, has_crlf, lemma_first_crlf, lines_of, rest_of};
use bytes::BytesMut;
use vstd::prelude::*;

verus! {

/// Outcome of asking the framer for the next line.
pub enum LinePoll {
    /// A complete line, terminator stripped.
    Line(BytesMut),
    /// No complete line yet; the stream may still bring one.
    NeedMoreInput,
    /// The stream closed and no complete line is left. An unterminated tail
    /// is dropped, never delivered.
    EndOfStream,
}

/// State of the write accumulator after a flush step.
#[derive(PartialEq, Eq, Structural, Clone, Copy, Debug)]
pub enum FlushPoll {
    /// Nothing is left to write.
    Flushed,
    /// Bytes are still waiting for the stream.
    PartiallyFlushed,
}

/// A broken transport contract seen by the framer.
#[derive(PartialEq, Eq, Structural, Clone, Copy, Debug)]
pub enum FramerError {
    /// The stream reported room to write and then took no byte.
    ZeroLengthWrite,
}

/// Line framing over one duplex byte stream.
pub struct LineFramer {
    rd: BytesMut,
    wr: BytesMut,
    eof: bool,
}

impl LineFramer {
    /// The bytes read and not yet consumed as lines.
    pub closed spec fn input(&self) -> Seq<u8> {
        buf_bytes(self.rd)
    }

    /// The bytes queued and not yet written.
    pub closed spec fn output(&self) -> Seq<u8> {
        buf_bytes(self.wr)
    }

    /// The stream has reported closure.
    pub closed spec fn at_eof(&self) -> bool {
        self.eof
    }

    /// A framer with both accumulators empty, over an open stream.
    pub fn new() -> (r: Self)
        ensures
            r.input() == Seq::<u8>::empty(),
            r.output() == Seq::<u8>::empty(),
            !r.at_eof(),
    {
        LineFramer { rd: buf_new(), wr: buf_new(), eof: false }
    }

    /// Appends bytes that were read from the stream to the read accumulator.
    pub fn fill(&mut self, data: &[u8])
        requires
            old(self).input().len() + data@.len() <= usize::MAX,
        ensures
            final(self).input() == old(self).input() + data@,
            final(self).output() == old(self).output(),
            final(self).at_eof() == old(self).at_eof(),
    {
        buf_extend(&mut self.rd, data);
    }

    /// Records that the stream reported closure (a zero-length read).
    pub fn mark_closed(&mut self)
        ensures
            final(self).input() == old(self).input(),
            final(self).output() == old(self).output(),
            final(self).at_eof(),
    {
        self.eof = true;
    }

    /// Takes the next complete line out of the read accumulator.
    ///
    /// A line is returned only once both terminator bytes are in the
    /// accumulator. When a line is found the call returns it even if the
    /// stream has closed; end of stream is reported by a later call.
    pub fn next_line(&mut self) -> (r: LinePoll)
        ensures
            final(self).output() == old(self).output(),
            final(self).at_eof() == old(self).at_eof(),
            r is Line <==> lines_of(old(self).input()).len() > 0,
            match r {
                LinePoll::Line(line) => {
                    &&& has_crlf(old(self).input())
                    &&& first_crlf(old(self).input()) matches Some(p)
                    &&& crlf_at(old(self).input(), p)
                    &&& buf_bytes(line) == old(self).input().subrange(0, p)
                    &&& final(self).input() == old(self).input().subrange(
                        p + 2,
                        old(self).input().len() as int,
                    )
                    &&& lines_of(old(self).input()) == seq![buf_bytes(line)] + lines_of(
                        final(self).input(),
                    )
                    &&& rest_of(old(self).input()) == rest_of(final(self).input())
                },
                LinePoll::NeedMoreInput => {
                    &&& !has_crlf(old(self).input())
                    &&& !old(self).at_eof()
                    &&& final(self).input() == old(self).input()
                },
                LinePoll::EndOfStream => {
                    &&& !has_crlf(old(self).input())
                    &&& old(self).at_eof()
                    &&& final(self).input() == Seq::<u8>::empty()
                },
            },
    {
        let ghost s = self.input();
        proof {
            lemma_first_crlf(s);
        }
        let bytes = buf_slice(&self.rd);
        let len = bytes.len();
        let found = find_terminator(bytes);
        match found {
            Some(p) => {
                assert(p + 2 <= len);
                let mut line = buf_split_to(&mut self.rd, p + 2);
                buf_truncate(&mut line, p);
                assert(buf_bytes(line) =~= s.subrange(0, p as int));
                assert(lines_of(s) == seq![buf_bytes(line)] + lines_of(self.input()));
                LinePoll::Line(line)
            },
            None => {
                if self.eof {
                    buf_truncate(&mut self.rd, 0);
                    LinePoll::EndOfStream
                } else {
                    LinePoll::NeedMoreInput
                }
            },
        }
    }

    /// The number of bytes read and not yet taken as lines.
    pub fn buffered(&self) -> (r: usize)
        ensures
            r == self.input().len(),
    {
        buf_slice(&self.rd).len()
    }

    /// Appends bytes to the write accumulator; nothing is written yet.
    pub fn enqueue(&mut self, bytes: &[u8])
        requires
            old(self).output().len() + bytes@.len() <= usize::MAX,
        ensures
            final(self).output() == old(self).output() + bytes@,
            final(self).input() == old(self).input(),
            final(self).at_eof() == old(self).at_eof(),
    {
        buf_extend(&mut self.wr, bytes);
    }

    /// The bytes waiting to be written, for the next write attempt.
    pub fn pending(&self) -> (r: &[u8])
        ensures
            r@ == self.output(),
    {
        buf_slice(&self.wr)
    }

    /// Where a flush stands before any write: an empty write accumulator is
    /// already fully flushed, and asking changes nothing.
    pub fn flush_state(&self) -> (r: FlushPoll)
        ensures
            r == FlushPoll::Flushed <==> self.output().len() == 0,
    {
        if buf_slice(&self.wr).len() == 0 {
            FlushPoll::Flushed
        } else {
            FlushPoll::PartiallyFlushed
        }
    }

    /// Records that a write attempt, made with room reported, took `n` bytes
    /// from the front of the write accumulator.
    ///
    /// Taking no byte is a broken transport contract: it is reported, not
    /// retried, and the accumulator is left as it was.
    pub fn written(&mut self, n: usize) -> (r: Result<FlushPoll, FramerError>)
        requires
            n <= old(self).output().len(),
        ensures
            final(self).input() == old(self).input(),
            final(self).at_eof() == old(self).at_eof(),
            n == 0 <==> r == Err::<FlushPoll, FramerError>(FramerError::ZeroLengthWrite),
            n == 0 ==> final(self).output() == old(self).output(),
            n > 0 ==> r is Ok,
            n > 0 ==> final(self).output() == old(self).output().subrange(
                n as int,
                old(self).output().len() as int,
            ),
            r == Ok::<FlushPoll, FramerError>(FlushPoll::Flushed) <==> (n > 0 && n
                == old(self).output().len()),
    {
        if n == 0 {
            return Err(FramerError::ZeroLengthWrite);
        }
        let _sent = buf_split_to(&mut self.wr, n);
        if buf_slice(&self.wr).len() == 0 {
            Ok(FlushPoll::Flushed)
        } else {
            Ok(FlushPoll::PartiallyFlushed)
        }
    }
}

} // verus!
