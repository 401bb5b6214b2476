use vstd::prelude::*;
use std::sync::mpsc::Sender;
use crate::commands::{GameTime, WsCommand};
use crate::state::{SharedState, TimerState};

verus! {

#[verifier::external_type_specification]
#[verifier::external_body]
#[verifier::reject_recursive_types(T)]
pub struct ExSender<T>(Sender<T>);

/// Relies on mpsc::Sender::send: queues the command without blocking;
/// `false` where the receiving side is gone for good.
#[verifier::external_body]
fn queue_command(tx: &Sender<WsCommand>, cmd: WsCommand) -> bool {
    tx.send(cmd).is_ok()
}

/// The timer that a plugin drives: commands go to the connection's queue,
/// and the phase comes from the cache, with no round trip.
pub struct WebsocketTimer {
    state: SharedState,
    rx: Sender<WsCommand>,
    sent: Ghost<Seq<WsCommand>>,
}

impl WebsocketTimer {
    /// The commands handed to the queue so far, oldest first.
    pub closed spec fn queued(&self) -> Seq<WsCommand> {
        self.sent@
    }

    /// A timer that has queued nothing yet.
    pub fn new(state: SharedState, rx: Sender<WsCommand>) -> (r: Self)
        ensures
            r.queued() == Seq::<WsCommand>::empty(),
    {
        WebsocketTimer { state, rx, sent: Ghost(Seq::empty()) }
    }

    /// Hands a command to the queue, without blocking; where the queue is
    /// gone for good, marks the connection dead as well.
    fn send(&mut self, cmd: WsCommand)
        ensures
            final(self).queued() == old(self).queued().push(cmd),
    {
        let ghost handed = cmd;
        if !queue_command(&self.rx, cmd) {
            self.state.deadge();
        }
        self.sent = Ghost(self.sent@.push(handed));
    }

    /// The cached phase of the remote timer.
    pub fn state(&self) -> TimerState {
        self.state.state()
    }

    /// Queues a command to start the timer.
    pub fn start(&mut self)
        ensures
            final(self).queued() == old(self).queued().push(WsCommand::Start),
    {
        self.send(WsCommand::Start)
    }

    /// Queues a command to split.
    pub fn split(&mut self)
        ensures
            final(self).queued() == old(self).queued().push(WsCommand::Split),
    {
        self.send(WsCommand::Split)
    }

    /// Queues a command to skip the current split.
    pub fn skip_split(&mut self)
        ensures
            final(self).queued() == old(self).queued().push(WsCommand::SkipSplit),
    {
        self.send(WsCommand::SkipSplit)
    }

    /// Queues a command to undo the last split.
    pub fn undo_split(&mut self)
        ensures
            final(self).queued() == old(self).queued().push(WsCommand::UndoSplit),
    {
        self.send(WsCommand::UndoSplit)
    }

    /// Queues a command to reset the timer.
    pub fn reset(&mut self)
        ensures
            final(self).queued() == old(self).queued().push(WsCommand::Reset),
    {
        self.send(WsCommand::Reset)
    }

    /// Queues a command to pause the game time.
    pub fn pause_game_time(&mut self)
        ensures
            final(self).queued() == old(self).queued().push(WsCommand::PauseGameTime),
    {
        self.send(WsCommand::PauseGameTime)
    }

    /// Queues a command to resume the game time.
    pub fn resume_game_time(&mut self)
        ensures
            final(self).queued() == old(self).queued().push(WsCommand::ResumeGameTime),
    {
        self.send(WsCommand::ResumeGameTime)
    }

    /// Queues a command to set the game time.
    pub fn set_game_time(&mut self, time: GameTime)
        ensures
            final(self).queued() == old(self).queued().push(WsCommand::SetGameTime(time)),
    {
        self.send(WsCommand::SetGameTime(time))
    }

    /// Queues a command to set a custom variable.
    pub fn set_variable(&mut self, key: &str, value: &str)
        ensures
            final(self).queued().len() == old(self).queued().len() + 1,
            final(self).queued().drop_last() == old(self).queued(),
            final(self).queued().last() matches WsCommand::SetCustomVariable(k, v) && k@ == key@
                && v@ == value@,
    {
        self.send(WsCommand::SetCustomVariable(key.to_owned(), value.to_owned()))
    }
}

} // verus!
