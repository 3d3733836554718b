//! The per-connection session: join, relay, close.
//!
//! A session is a state machine driven by whoever owns the connection. Each
//! call of [`PeerSession::step`] hands it one event (bytes read, a write's
//! outcome, a message from the inbound channel, ...) and returns the one
//! action to perform next. Within one scheduling turn of an active session
//! the actions come in a fixed order: drain the inbound channel into the
//! write buffer, flush the write buffer, then read and relay lines until the
//! stream has none, and only then yield.
use crate::buf::{buf_bytes, buf_extend, buf_freeze, buf_new, buf_slice, shared_bytes, shared_slice};
use crate::framer::{FlushPoll, LineFramer, LinePoll};
use crate::wire::{encode_line, has_crlf, lines_of, CR, LF};
use bytes::{Bytes, BytesMut};
use vstd::prelude::*;

verus! {

/// First byte of the separator between a nickname and the relayed line.
pub const COLON: u8 = 58;

/// Second byte of the separator between a nickname and the relayed line.
pub const SPACE: u8 = 32;

/// The bytes relayed for `line` sent by the peer called `nick`:
/// `nick`, then `": "`, then the line and its terminator.
pub open spec fn relay_message(nick: Seq<u8>, line: Seq<u8>) -> Seq<u8> {
    nick + seq![COLON, SPACE] + encode_line(line)
}

/// Builds the message relayed for `line` sent by the peer called `nick`,
/// once, as a handle that every recipient shares.
pub fn format_message(nick: &[u8], line: &[u8]) -> (r: Bytes)
    requires
        nick@.len() + line@.len() + 4 <= usize::MAX,
    ensures
        shared_bytes(r) == relay_message(nick@, line@),
{
    let mut out = buf_new();
    buf_extend(&mut out, nick);
    let sep: [u8; 2] = [COLON, SPACE];
    buf_extend(&mut out, sep.as_slice());
    buf_extend(&mut out, line);
    let term: [u8; 2] = [CR, LF];
    buf_extend(&mut out, term.as_slice());
    assert(buf_bytes(out) =~= relay_message(nick@, line@));
    buf_freeze(out)
}

/// Where a session stands, that is which event it waits for.
#[derive(PartialEq, Eq, Structural, Clone, Copy, Debug)]
pub enum Stage {
    /// Created; waits for `Resume` to start reading its nickname.
    Start,
    /// Waits for the outcome of a read.
    Reading,
    /// Waits for the next message of the inbound channel, or for its end.
    Draining,
    /// Waits for the outcome of a write.
    Flushing,
    /// Just joined; waits for `Resume` once it is registered.
    AfterJoin,
    /// Just produced a message; waits for `Resume` once it is broadcast.
    AfterLine,
    /// Yielded; waits for `Resume` when something may be ready.
    Idle,
    /// Over; takes no more events.
    Closed,
}

/// Why a session ended.
#[derive(PartialEq, Eq, Structural, Clone, Copy, Debug)]
pub enum CloseReason {
    /// The peer closed its stream; an unterminated tail was dropped.
    EndOfStream,
    /// The stream reported an I/O error.
    IoError,
    /// The stream reported room to write and then took no byte.
    ZeroLengthWrite,
}

/// What happened since the last action.
pub enum SessionEvent {
    /// Go on: at the start, after registering, after broadcasting, or on a
    /// wake-up after yielding. Until the nickname has arrived only the
    /// stream is read; after that each wake-up starts a full turn.
    Resume,
    /// A message taken from the inbound channel.
    Inbound(Bytes),
    /// The inbound channel has nothing more for now.
    InboxEmpty,
    /// A write took this many bytes from the front of the pending output.
    Wrote(usize),
    /// The stream has no room to write now.
    WriteBlocked,
    /// A read brought these bytes.
    Received(Vec<u8>),
    /// The stream has nothing to read now.
    ReadBlocked,
    /// A read returned no byte: the peer closed the stream.
    ReadClosed,
    /// The stream reported an I/O error.
    Failed,
}

/// What to do next.
pub enum SessionAction {
    /// Read from the stream and report the outcome.
    Read,
    /// Take the next message of the inbound channel, without waiting.
    PollInbox,
    /// Write the pending output and report how much was taken.
    Write,
    /// Register this session's channel under its id, then `Resume`.
    Register,
    /// Broadcast this message from this session's id, then `Resume`.
    Broadcast(Bytes),
    /// Nothing is ready: wait until the stream or the channel is, then
    /// `Resume`.
    Yield,
    /// The session is over: unregister it and drop the connection.
    Close(CloseReason),
}

/// One connection's session.
pub struct PeerSession {
    id: u64,
    nickname: Option<BytesMut>,
    framer: LineFramer,
    stage: Stage,
}

impl PeerSession {
    /// The connection id.
    pub closed spec fn conn(&self) -> u64 {
        self.id
    }

    /// The nickname, once the first line has arrived.
    pub closed spec fn nick(&self) -> Option<Seq<u8>> {
        match self.nickname {
            Some(n) => Some(buf_bytes(n)),
            None => None,
        }
    }

    /// The stage, that is which event the session waits for.
    pub closed spec fn stage(&self) -> Stage {
        self.stage
    }

    /// Bytes read and not yet taken as lines.
    pub closed spec fn input(&self) -> Seq<u8> {
        self.framer.input()
    }

    /// Bytes waiting to be written.
    pub closed spec fn output(&self) -> Seq<u8> {
        self.framer.output()
    }

    /// The stream has reported closure.
    pub closed spec fn at_eof(&self) -> bool {
        self.framer.at_eof()
    }

    /// The length of the nickname, zero before it is known.
    pub open spec fn nick_len(&self) -> nat {
        match self.nick() {
            Some(n) => n.len(),
            None => 0,
        }
    }

    /// Room is left to build a message from the nickname and any line that
    /// the read buffer can still give.
    pub open spec fn wf(&self) -> bool {
        self.nick_len() + self.input().len() + 4 <= usize::MAX
    }

    /// The event is one that the session waits for in its stage.
    pub open spec fn expects(&self, ev: SessionEvent) -> bool {
        match self.stage() {
            Stage::Start | Stage::AfterJoin | Stage::AfterLine | Stage::Idle => ev is Resume,
            Stage::Draining => ev is Inbound || ev is InboxEmpty,
            Stage::Flushing => ev is Wrote || ev is WriteBlocked || ev is Failed,
            Stage::Reading => ev is Received || ev is ReadBlocked || ev is ReadClosed
                || ev is Failed,
            Stage::Closed => false,
        }
    }

    /// The event fits the buffers: what it adds fits in memory, and a write
    /// takes no more than was pending.
    pub open spec fn has_room(&self, ev: SessionEvent) -> bool {
        match ev {
            SessionEvent::Received(d) => self.nick_len() + self.input().len() + d@.len() + 4
                <= usize::MAX,
            SessionEvent::Inbound(m) => self.output().len() + shared_bytes(m).len() <= usize::MAX,
            SessionEvent::Wrote(n) => n <= self.output().len(),
            _ => true,
        }
    }

    /// Same connection, nickname and buffers.
    pub open spec fn same_buffers(&self, other: &Self) -> bool {
        &&& self.conn() == other.conn()
        &&& self.nick() == other.nick()
        &&& self.input() == other.input()
        &&& self.output() == other.output()
        &&& self.at_eof() == other.at_eof()
    }

    /// `next` and `r` are what taking the next line out of `self`'s read
    /// buffer gives, the stream having just closed when `closing`: the first
    /// line becomes the nickname if there is none yet, or else a message to
    /// broadcast; with no line, the session yields, or ends if the stream
    /// has closed.
    pub open spec fn takes_line(&self, next: &Self, r: SessionAction, closing: bool) -> bool {
        let eof = self.at_eof() || closing;
        &&& next.conn() == self.conn()
        &&& next.output() == self.output()
        &&& next.at_eof() == eof
        &&& if has_crlf(self.input()) {
            let line = lines_of(self.input())[0];
            &&& self.input() == encode_line(line) + next.input()
            &&& lines_of(self.input()) == seq![line] + lines_of(next.input())
            &&& match self.nick() {
                Some(n) => {
                    &&& r matches SessionAction::Broadcast(msg) && shared_bytes(msg)
                        == relay_message(n, line)
                    &&& next.nick() == self.nick()
                    &&& next.stage() == Stage::AfterLine
                },
                None => {
                    &&& r is Register
                    &&& next.nick() == Some(line)
                    &&& next.stage() == Stage::AfterJoin
                },
            }
        } else if eof {
            &&& r == SessionAction::Close(CloseReason::EndOfStream)
            &&& next.nick() == self.nick()
            &&& next.input() == Seq::<u8>::empty()
            &&& next.stage() == Stage::Closed
        } else {
            &&& r is Yield
            &&& next.nick() == self.nick()
            &&& next.input() == self.input()
            &&& next.stage() == Stage::Idle
        }
    }

    /// A session for connection `id`, before its nickname is known.
    pub fn new(id: u64) -> (r: Self)
        ensures
            r.conn() == id,
            r.nick() is None,
            r.stage() == Stage::Start,
            r.input() == Seq::<u8>::empty(),
            r.output() == Seq::<u8>::empty(),
            !r.at_eof(),
            r.wf(),
    {
        PeerSession { id, nickname: None, framer: LineFramer::new(), stage: Stage::Start }
    }

    /// The connection id.
    pub fn id(&self) -> (r: u64)
        ensures
            r == self.conn(),
    {
        self.id
    }

    /// The nickname, once joined.
    pub fn nickname(&self) -> (r: Option<&[u8]>)
        ensures
            match r {
                Some(n) => self.nick() == Some(n@),
                None => self.nick() is None,
            },
    {
        match &self.nickname {
            Some(n) => Some(buf_slice(n)),
            None => None,
        }
    }

    /// The bytes to hand to the next write.
    pub fn pending(&self) -> (r: &[u8])
        ensures
            r@ == self.output(),
    {
        self.framer.pending()
    }

    /// Whether `step` may be given `ev` now.
    pub fn accepts(&self, ev: &SessionEvent) -> (r: bool)
        requires
            self.wf(),
        ensures
            r == (self.expects(*ev) && self.has_room(*ev)),
    {
        let expected = match self.stage {
            Stage::Start | Stage::AfterJoin | Stage::AfterLine | Stage::Idle => {
                matches!(ev, SessionEvent::Resume)
            },
            Stage::Draining => matches!(ev, SessionEvent::Inbound(_) | SessionEvent::InboxEmpty),
            Stage::Flushing => matches!(
                ev,
                SessionEvent::Wrote(_) | SessionEvent::WriteBlocked | SessionEvent::Failed
            ),
            Stage::Reading => matches!(
                ev,
                SessionEvent::Received(_) | SessionEvent::ReadBlocked | SessionEvent::ReadClosed
                    | SessionEvent::Failed
            ),
            Stage::Closed => false,
        };
        if !expected {
            return false;
        }
        let nick_len: usize = match &self.nickname {
            Some(n) => buf_slice(n).len(),
            None => 0,
        };
        let used = nick_len + self.framer.buffered() + 4;
        match ev {
            SessionEvent::Received(d) => d.len() <= usize::MAX - used,
            SessionEvent::Inbound(m) => shared_slice(m).len() <= usize::MAX
                - self.framer.pending().len(),
            SessionEvent::Wrote(n) => *n <= self.framer.pending().len(),
            _ => true,
        }
    }

    /// Takes the next line out of the read buffer and decides on it.
    fn take_line(&mut self) -> (r: SessionAction)
        requires
            old(self).wf(),
        ensures
            final(self).wf(),
            old(self).takes_line(&*final(self), r, false),
    {
        let ghost before = self.input();
        match self.framer.next_line() {
            LinePoll::Line(line) => {
                assert(before =~= encode_line(buf_bytes(line)) + self.input());
                assert(lines_of(before)[0] == buf_bytes(line));
                match &self.nickname {
                    Some(n) => {
                        let msg = format_message(buf_slice(n), buf_slice(&line));
                        self.stage = Stage::AfterLine;
                        SessionAction::Broadcast(msg)
                    },
                    None => {
                        self.nickname = Some(line);
                        self.stage = Stage::AfterJoin;
                        SessionAction::Register
                    },
                }
            },
            LinePoll::NeedMoreInput => {
                self.stage = Stage::Idle;
                SessionAction::Yield
            },
            LinePoll::EndOfStream => {
                self.stage = Stage::Closed;
                SessionAction::Close(CloseReason::EndOfStream)
            },
        }
    }

    /// Hands the session one event and returns the action to perform next.
    pub fn step(&mut self, ev: SessionEvent) -> (r: SessionAction)
        requires
            old(self).wf(),
            old(self).expects(ev),
            old(self).has_room(ev),
        ensures
            final(self).wf(),
            match ev {
                SessionEvent::Resume => {
                    &&& final(self).same_buffers(&*old(self))
                    &&& if old(self).stage() == Stage::Start || old(self).stage()
                        == Stage::AfterLine || old(self).nick() is None {
                        r is Read && final(self).stage() == Stage::Reading
                    } else {
                        r is PollInbox && final(self).stage() == Stage::Draining
                    }
                },
                SessionEvent::Inbound(m) => {
                    &&& r is PollInbox
                    &&& final(self).stage() == Stage::Draining
                    &&& final(self).output() == old(self).output() + shared_bytes(m)
                    &&& final(self).conn() == old(self).conn()
                    &&& final(self).nick() == old(self).nick()
                    &&& final(self).input() == old(self).input()
                    &&& final(self).at_eof() == old(self).at_eof()
                },
                SessionEvent::InboxEmpty => {
                    &&& final(self).same_buffers(&*old(self))
                    &&& if old(self).output().len() == 0 {
                        r is Read && final(self).stage() == Stage::Reading
                    } else {
                        r is Write && final(self).stage() == Stage::Flushing
                    }
                },
                SessionEvent::Wrote(n) => if n == 0 {
                    &&& r == SessionAction::Close(CloseReason::ZeroLengthWrite)
                    &&& final(self).stage() == Stage::Closed
                    &&& final(self).same_buffers(&*old(self))
                } else {
                    &&& final(self).output() == old(self).output().subrange(
                        n as int,
                        old(self).output().len() as int,
                    )
                    &&& final(self).conn() == old(self).conn()
                    &&& final(self).nick() == old(self).nick()
                    &&& final(self).input() == old(self).input()
                    &&& final(self).at_eof() == old(self).at_eof()
                    &&& if n == old(self).output().len() {
                        r is Read && final(self).stage() == Stage::Reading
                    } else {
                        r is Write && final(self).stage() == Stage::Flushing
                    }
                },
                SessionEvent::WriteBlocked => {
                    &&& r is Read
                    &&& final(self).stage() == Stage::Reading
                    &&& final(self).same_buffers(&*old(self))
                },
                SessionEvent::Failed => {
                    &&& r == SessionAction::Close(CloseReason::IoError)
                    &&& final(self).stage() == Stage::Closed
                    &&& final(self).same_buffers(&*old(self))
                },
                SessionEvent::Received(d) => {
                    &&& r is Read
                    &&& final(self).stage() == Stage::Reading
                    &&& final(self).input() == old(self).input() + d@
                    &&& final(self).conn() == old(self).conn()
                    &&& final(self).nick() == old(self).nick()
                    &&& final(self).output() == old(self).output()
                    &&& final(self).at_eof() == old(self).at_eof()
                },
                SessionEvent::ReadBlocked => old(self).takes_line(&*final(self), r, false),
                SessionEvent::ReadClosed => old(self).takes_line(&*final(self), r, true),
            },
    {
        match ev {
            SessionEvent::Resume => {
                let joined = self.nickname.is_some();
                match self.stage {
                    Stage::Start | Stage::AfterLine => {
                        self.stage = Stage::Reading;
                        SessionAction::Read
                    },
                    _ if !joined => {
                        self.stage = Stage::Reading;
                        SessionAction::Read
                    },
                    _ => {
                        self.stage = Stage::Draining;
                        SessionAction::PollInbox
                    },
                }
            },
            SessionEvent::Inbound(m) => {
                self.framer.enqueue(shared_slice(&m));
                SessionAction::PollInbox
            },
            SessionEvent::InboxEmpty => {
                match self.framer.flush_state() {
                    FlushPoll::Flushed => {
                        self.stage = Stage::Reading;
                        SessionAction::Read
                    },
                    FlushPoll::PartiallyFlushed => {
                        self.stage = Stage::Flushing;
                        SessionAction::Write
                    },
                }
            },
            SessionEvent::Wrote(n) => {
                match self.framer.written(n) {
                    Err(_) => {
                        self.stage = Stage::Closed;
                        SessionAction::Close(CloseReason::ZeroLengthWrite)
                    },
                    Ok(FlushPoll::Flushed) => {
                        self.stage = Stage::Reading;
                        SessionAction::Read
                    },
                    Ok(FlushPoll::PartiallyFlushed) => SessionAction::Write,
                }
            },
            SessionEvent::WriteBlocked => {
                self.stage = Stage::Reading;
                SessionAction::Read
            },
            SessionEvent::Failed => {
                self.stage = Stage::Closed;
                SessionAction::Close(CloseReason::IoError)
            },
            SessionEvent::Received(d) => {
                self.framer.fill(d.as_slice());
                SessionAction::Read
            },
            SessionEvent::ReadBlocked => self.take_line(),
            SessionEvent::ReadClosed => {
                self.framer.mark_closed();
                self.take_line()
            },
        }
    }
}

} // verus!
