//! A remote-control session: the WebSocket handshake, then a frame pump and
//! an input consumer that run side by side until either ends it.

use vstd::prelude::*;
use crate::capture::STREAM_QUALITY;

verus! {

/// Target delay between two frames of a session.
pub const FRAME_INTERVAL_MS: u64 = 50;

/// Consecutive failed captures that end a session.
pub const MAX_CAPTURE_FAILURES: u8 = 3;

#[derive(Clone, Copy, Debug, PartialEq, Eq, Structural)]
pub enum SessionPhase {
    Handshaking,
    Streaming,
    Closing,
    Closed,
}

/// What the input consumer read from the socket.
#[derive(Clone, Copy, Debug, PartialEq, Eq, Structural)]
pub enum Incoming {
    /// A text message, to be read as an input event.
    Text,
    /// A binary, ping or pong message.
    Other,
    /// The controller closed the connection.
    Close,
    /// Reading failed.
    Error,
    /// The stream ended.
    End,
}

/// What the input consumer does with a message.
#[derive(Clone, Copy, Debug, PartialEq, Eq, Structural)]
pub enum ConsumerStep {
    /// Read the text as an input event and apply it; text that does not read
    /// as one is ignored.
    Dispatch,
    Ignore,
    /// Stop reading.
    Stop,
}

/// What the frame pump does at a tick.
#[derive(Clone, Copy, Debug, PartialEq, Eq, Structural)]
pub enum PumpStep {
    Capture,
    Stop,
}

/// What the frame pump does with the result of a capture.
#[derive(Clone, Copy, Debug, PartialEq, Eq, Structural)]
pub enum FrameStep {
    /// Send the frame, then wait for the next tick.
    Send,
    /// Send nothing this tick.
    Skip,
    /// Too many captures in a row failed: end the session.
    Close,
}

/// State of one session.
#[derive(Clone, Copy, Debug)]
pub struct Session {
    pub phase: SessionPhase,
    /// The stream-active flag that both activities watch.
    pub streaming: bool,
    /// Captures that failed in a row.
    pub capture_failures: u8,
    pub quality: u8,
    pub frame_delay_ms: u64,
    pub pump_done: bool,
    pub consumer_done: bool,
}

/// State once the frame pump has ended.
pub open spec fn end_pump(s: Session) -> Session {
    Session {
        streaming: false,
        pump_done: true,
        phase: if s.consumer_done {
            SessionPhase::Closed
        } else {
            SessionPhase::Closing
        },
        ..s
    }
}

/// State once the input consumer has ended.
pub open spec fn end_consumer(s: Session) -> Session {
    Session {
        streaming: false,
        consumer_done: true,
        phase: if s.pump_done {
            SessionPhase::Closed
        } else {
            SessionPhase::Closing
        },
        ..s
    }
}

/// The consumer's step for a message: once the stream flag is cleared it
/// stops whatever it read; otherwise text is dispatched, a close, an error
/// or the end of the stream stops it, and anything else is ignored.
pub open spec fn consumer_step(s: Session, m: Incoming) -> ConsumerStep {
    if !s.streaming {
        ConsumerStep::Stop
    } else {
        match m {
            Incoming::Text => ConsumerStep::Dispatch,
            Incoming::Other => ConsumerStep::Ignore,
            _ => ConsumerStep::Stop,
        }
    }
}

/// State after the consumer has read `m`.
pub open spec fn after_message(s: Session, m: Incoming) -> Session {
    if consumer_step(s, m) == ConsumerStep::Stop {
        end_consumer(s)
    } else {
        s
    }
}

/// The pump's step at a tick.
pub open spec fn pump_step(s: Session) -> PumpStep {
    if s.streaming {
        PumpStep::Capture
    } else {
        PumpStep::Stop
    }
}

/// State after a tick of the pump.
pub open spec fn after_tick(s: Session) -> Session {
    if s.streaming {
        s
    } else {
        end_pump(s)
    }
}

/// The pump's step for a capture result.
pub open spec fn frame_step(s: Session, captured: bool) -> FrameStep {
    if captured {
        FrameStep::Send
    } else if s.capture_failures + 1 >= MAX_CAPTURE_FAILURES {
        FrameStep::Close
    } else {
        FrameStep::Skip
    }
}

/// State after a capture result.
pub open spec fn after_capture(s: Session, captured: bool) -> Session {
    if captured {
        Session { capture_failures: 0, ..s }
    } else if s.capture_failures + 1 >= MAX_CAPTURE_FAILURES {
        end_pump(Session { capture_failures: 0, ..s })
    } else {
        Session { capture_failures: (s.capture_failures + 1) as u8, ..s }
    }
}

/// State after a frame was sent, or failed to be.
pub open spec fn after_send(s: Session, sent: bool) -> Session {
    if sent {
        s
    } else {
        end_pump(s)
    }
}

impl Session {
    pub open spec fn wf(&self) -> bool {
        &&& self.capture_failures < MAX_CAPTURE_FAILURES
        &&& self.streaming <==> self.phase == SessionPhase::Streaming
        &&& self.phase == SessionPhase::Streaming ==> !self.pump_done && !self.consumer_done
        &&& self.phase == SessionPhase::Handshaking ==> !self.pump_done && !self.consumer_done
        &&& self.pump_done && self.consumer_done ==> self.phase == SessionPhase::Closed
    }

    /// A session just accepted, before its handshake: quality 40, one frame
    /// every 50 ms.
    pub fn new() -> (r: Session)
        ensures
            r.wf(),
            r.phase == SessionPhase::Handshaking,
            r.capture_failures == 0,
            r.quality == STREAM_QUALITY,
            r.frame_delay_ms == FRAME_INTERVAL_MS,
    {
        Session {
            phase: SessionPhase::Handshaking,
            streaming: false,
            capture_failures: 0,
            quality: STREAM_QUALITY,
            frame_delay_ms: FRAME_INTERVAL_MS,
            pump_done: false,
            consumer_done: false,
        }
    }

    /// The handshake ended: a successful upgrade starts streaming, a failed
    /// one closes the session at once.
    pub fn on_upgrade(&mut self, ok: bool)
        requires
            old(self).wf(),
            old(self).phase == SessionPhase::Handshaking,
        ensures
            final(self).wf(),
            *final(self) == if ok {
                Session { phase: SessionPhase::Streaming, streaming: true, ..*old(self) }
            } else {
                Session { phase: SessionPhase::Closed, ..*old(self) }
            },
    {
        if ok {
            self.phase = SessionPhase::Streaming;
            self.streaming = true;
        } else {
            self.phase = SessionPhase::Closed;
        }
    }

    /// The input consumer read `m`; in a closing session it stops reading.
    pub fn on_message(&mut self, m: Incoming) -> (r: ConsumerStep)
        requires
            old(self).wf(),
            !old(self).consumer_done,
        ensures
            final(self).wf(),
            r == consumer_step(*old(self), m),
            *final(self) == after_message(*old(self), m),
    {
        if !self.streaming {
            self.end_consumer();
            return ConsumerStep::Stop;
        }
        match m {
            Incoming::Text => ConsumerStep::Dispatch,
            Incoming::Other => ConsumerStep::Ignore,
            _ => {
                self.end_consumer();
                ConsumerStep::Stop
            },
        }
    }

    fn end_consumer(&mut self)
        requires
            old(self).wf(),
            !old(self).consumer_done,
        ensures
            final(self).wf(),
            *final(self) == end_consumer(*old(self)),
    {
        self.streaming = false;
        self.consumer_done = true;
        self.phase = if self.pump_done {
            SessionPhase::Closed
        } else {
            SessionPhase::Closing
        };
    }

    fn end_pump(&mut self)
        requires
            old(self).wf(),
            !old(self).pump_done,
        ensures
            final(self).wf(),
            *final(self) == end_pump(*old(self)),
    {
        self.streaming = false;
        self.pump_done = true;
        self.phase = if self.consumer_done {
            SessionPhase::Closed
        } else {
            SessionPhase::Closing
        };
    }

    /// A tick of the frame pump: it captures while the stream flag is set,
    /// and ends otherwise.
    pub fn pump_tick(&mut self) -> (r: PumpStep)
        requires
            old(self).wf(),
            !old(self).pump_done,
            old(self).phase != SessionPhase::Handshaking,
        ensures
            final(self).wf(),
            r == pump_step(*old(self)),
            *final(self) == after_tick(*old(self)),
    {
        if self.streaming {
            PumpStep::Capture
        } else {
            self.end_pump();
            PumpStep::Stop
        }
    }

    /// The result of a capture: a frame is sent; a failure skips the tick,
    /// and the third failure in a row ends the session.
    pub fn on_capture(&mut self, captured: bool) -> (r: FrameStep)
        requires
            old(self).wf(),
            !old(self).pump_done,
        ensures
            final(self).wf(),
            r == frame_step(*old(self), captured),
            *final(self) == after_capture(*old(self), captured),
    {
        if captured {
            self.capture_failures = 0;
            FrameStep::Send
        } else if self.capture_failures + 1 >= MAX_CAPTURE_FAILURES {
            self.capture_failures = 0;
            self.end_pump();
            FrameStep::Close
        } else {
            self.capture_failures = self.capture_failures + 1;
            FrameStep::Skip
        }
    }

    /// A frame was sent (`sent`) or writing it failed, which ends the session.
    pub fn on_send(&mut self, sent: bool)
        requires
            old(self).wf(),
            !old(self).pump_done,
        ensures
            final(self).wf(),
            *final(self) == after_send(*old(self), sent),
    {
        if !sent {
            self.end_pump();
        }
    }

    /// Whether the input consumer keeps reading.
    pub fn consumer_continues(&self) -> (r: bool)
        ensures
            r == self.streaming,
    {
        self.streaming
    }

    /// Whether the session is over and its record may be dropped.
    pub fn is_closed(&self) -> (r: bool)
        ensures
            r == (self.phase == SessionPhase::Closed),
    {
        match self.phase {
            SessionPhase::Closed => true,
            _ => false,
        }
    }
}

/// Once the controller closes an accepted session, the consumer stops and
/// the session is closed: at once if the pump has already ended, else at the
/// pump's next tick.
pub proof fn lemma_remote_close_closes(s: Session)
    requires
        s.wf(),
        s.phase != SessionPhase::Handshaking,
        !s.consumer_done,
    ensures
        consumer_step(s, Incoming::Close) == ConsumerStep::Stop,
        after_message(s, Incoming::Close).wf(),
        !after_message(s, Incoming::Close).streaming,
        after_message(s, Incoming::Close).pump_done ==> after_message(s, Incoming::Close).phase
            == SessionPhase::Closed,
        !after_message(s, Incoming::Close).pump_done ==> {
            &&& pump_step(after_message(s, Incoming::Close)) == PumpStep::Stop
            &&& after_tick(after_message(s, Incoming::Close)).phase == SessionPhase::Closed
            &&& after_tick(after_message(s, Incoming::Close)).wf()
        },
{
}

/// A closing session whose consumer has stopped closes at the pump's next
/// tick, wherever the pump was: after a capture or a send it ticks again and
/// stops.
pub proof fn lemma_closing_pump_stops(s: Session, captured: bool, sent: bool)
    requires
        s.wf(),
        s.consumer_done,
        !s.pump_done,
    ensures
        !after_capture(s, captured).streaming,
        after_capture(s, captured).pump_done || pump_step(after_capture(s, captured))
            == PumpStep::Stop,
        after_tick(after_send(s, sent)).phase == SessionPhase::Closed,
{
}

/// A session whose controller never sends keeps streaming: each tick
/// captures, each captured frame is sent, and sending leaves it streaming.
pub proof fn lemma_silent_client_streams(s: Session)
    requires
        s.wf(),
        s.phase == SessionPhase::Streaming,
    ensures
        pump_step(s) == PumpStep::Capture,
        after_tick(s) == s,
        frame_step(s, true) == FrameStep::Send,
        after_capture(s, true).phase == SessionPhase::Streaming,
        after_send(after_capture(s, true), true).phase == SessionPhase::Streaming,
        after_send(after_capture(s, true), true).wf(),
{
}

} // verus!
