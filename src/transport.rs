use vstd::prelude::*;
use crate::commands::{encode, WsCommand};
use crate::events::{parse_response, parse_response_bytes};
use crate::state::{state_update, TimerState};

verus! {

use crate::commands::encoding;
use crate::events::{message_of_bytes, message_of_text};
use crate::state::update_of;

/// How long the transport loop waits on the command queue, in milliseconds.
pub const QUEUE_WAIT_MS: u64 = 10;

/// What a wait on the command queue gave.
#[derive(Debug)]
pub enum QueueEvent {
    Command(WsCommand),
    /// Nothing came within the wait.
    Timeout,
    /// No command will ever come again.
    Disconnected,
}

/// What a non-blocking read from the connection gave.
#[derive(Debug)]
pub enum Frame {
    Text(String),
    Binary(Vec<u8>),
    Close,
    Ping(Vec<u8>),
    /// A frame of another kind.
    Other,
    /// No data is available right now.
    WouldBlock,
    /// The transport failed.
    Failed,
}

/// What the transport loop does after a wait on the queue.
#[derive(Debug)]
pub enum QueueAction {
    /// Write this text frame, then make one non-blocking read.
    SendThenRead(String),
    /// Make one non-blocking read.
    Read,
    /// Leave the loop.
    Stop,
}

/// What the transport loop does after a read.
#[derive(Debug)]
pub enum ReadAction {
    Continue,
    /// Store this phase in the cache, then go on.
    Store(TimerState),
    /// Answer with a pong that carries these bytes, then go on.
    Pong(Vec<u8>),
    Stop,
}

/// Whether `r` is the action due after the wait on the queue gave `ev`.
pub open spec fn queue_step(ev: QueueEvent, r: QueueAction) -> bool {
    match ev {
        QueueEvent::Command(c) => r matches QueueAction::SendThenRead(t) && t@ == encoding(c),
        QueueEvent::Timeout => r is Read,
        QueueEvent::Disconnected => r is Stop,
    }
}

/// Whether `r` is the action due after a read gave `frame`.
pub open spec fn read_step(frame: Frame, r: ReadAction) -> bool {
    match frame {
        Frame::Text(s) => r == store_action(decoded_update(message_of_text(s@))),
        Frame::Binary(b) => r == store_action(decoded_update(message_of_bytes(b@))),
        Frame::Ping(p) => r == ReadAction::Pong(p),
        Frame::WouldBlock => r is Continue,
        Frame::Close | Frame::Other | Frame::Failed => r is Stop,
    }
}

/// The action due after a decoded (or undecodable) message.
pub open spec fn store_action(update: Option<TimerState>) -> ReadAction {
    match update {
        Some(s) => ReadAction::Store(s),
        None => ReadAction::Continue,
    }
}

/// What a message that failed or succeeded to decode changes in the cache.
pub open spec fn decoded_update(msg: Option<crate::events::CommandResult>) -> Option<TimerState> {
    match msg {
        Some(m) => update_of(m),
        None => None,
    }
}

/// Decides what to do after a wait on the command queue: a command is
/// encoded and sent, then one read follows; a timeout leads to one read; a
/// disconnected queue ends the loop.
pub fn on_queue_event(ev: QueueEvent) -> (r: QueueAction)
    ensures
        queue_step(ev, r),
{
    match ev {
        QueueEvent::Command(c) => QueueAction::SendThenRead(encode(&c)),
        QueueEvent::Timeout => QueueAction::Read,
        QueueEvent::Disconnected => QueueAction::Stop,
    }
}

/// Decides what to do after a read: text and binary frames are decoded and
/// projected into the cache (a frame that does not decode is dropped); a
/// ping is answered; no data means going on; a close frame, a frame of
/// another kind or a failed read ends the loop.
pub fn on_frame(frame: Frame) -> (r: ReadAction)
    ensures
        read_step(frame, r),
{
    let msg = match frame {
        Frame::Text(s) => parse_response(s.as_str()),
        Frame::Binary(b) => parse_response_bytes(b.as_slice()),
        Frame::Ping(p) => {
            return ReadAction::Pong(p);
        },
        Frame::WouldBlock => {
            return ReadAction::Continue;
        },
        _ => {
            return ReadAction::Stop;
        },
    };
    match msg {
        Some(m) => match state_update(&m) {
            Some(s) => ReadAction::Store(s),
            None => ReadAction::Continue,
        },
        None => ReadAction::Continue,
    }
}

/// An idle iteration, with no command queued and no data to read, waits
/// once on the queue for its fixed interval, makes one read that does not
/// block, and goes on: it never waits longer than that interval.
pub proof fn lemma_idle_iteration_bounded(q: QueueAction, r: ReadAction)
    requires
        queue_step(QueueEvent::Timeout, q),
        read_step(Frame::WouldBlock, r),
    ensures
        q is Read,
        r is Continue,
        QUEUE_WAIT_MS == 10,
{
}

/// A close frame ends the transport loop, as an action and not a failure.
pub proof fn lemma_close_stops(r: ReadAction)
    requires
        read_step(Frame::Close, r),
    ensures
        r is Stop,
{
}

} // verus!
