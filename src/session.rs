use vstd::prelude::*;
use crate::event::{Event, KeyEvent, KeyKind};

verus! {

/// Milliseconds between two timer ticks of the input task.
pub const TICK_MS: u64 = 60;

/// Milliseconds between two looks at whether the input task has finished.
pub const POLL_MS: u64 = 250;

/// Poll intervals of the grace window: a task still running after them is
/// aborted.
pub const GRACE_POLLS: u32 = 5;

/// Poll intervals after which shutdown gives up on a task that is still
/// running, aborted or not.
pub const ABORT_POLLS: u32 = 10;

/// One item of the terminal's input stream.
#[derive(Clone, Copy, Debug, PartialEq, Eq, Structural)]
pub enum InputItem {
    Key(KeyEvent),
    /// A resize, mouse, focus or paste event.
    Other,
    /// The read failed.
    Failed,
    /// The stream has no more items.
    Ended,
}

/// What woke the input task: the first of its three waits to resolve.
#[derive(Clone, Copy, Debug, PartialEq, Eq, Structural)]
pub enum Wake {
    Cancelled,
    Timer,
    Input(InputItem),
}

/// What the input task does on waking.
#[derive(Clone, Copy, Debug, PartialEq, Eq, Structural)]
pub enum ProducerAction {
    /// Leave the loop.
    Exit,
    /// Queue the event and wait again.
    Send(Event),
    /// Wait again, queueing nothing.
    Skip,
}

/// The input task's answer to a wake: cancellation ends it, a tick and a
/// failed read are queued, a key press is queued, and everything else is
/// dropped.
pub open spec fn producer_step_spec(wake: Wake) -> ProducerAction {
    match wake {
        Wake::Cancelled => ProducerAction::Exit,
        Wake::Timer => ProducerAction::Send(Event::Tick),
        Wake::Input(InputItem::Key(key)) => {
            if key.kind == KeyKind::Press {
                ProducerAction::Send(Event::Key(key))
            } else {
                ProducerAction::Skip
            }
        },
        Wake::Input(InputItem::Failed) => ProducerAction::Send(Event::Error),
        Wake::Input(InputItem::Other) | Wake::Input(InputItem::Ended) => ProducerAction::Skip,
    }
}

/// Decides what the input task does with what woke it.
pub fn producer_step(wake: Wake) -> (r: ProducerAction)
    ensures
        r == producer_step_spec(wake),
        wake == Wake::Cancelled <==> r == ProducerAction::Exit,
{
    match wake {
        Wake::Cancelled => ProducerAction::Exit,
        Wake::Timer => ProducerAction::Send(Event::Tick),
        Wake::Input(InputItem::Key(key)) => {
            if key.kind == KeyKind::Press {
                ProducerAction::Send(Event::Key(key))
            } else {
                ProducerAction::Skip
            }
        },
        Wake::Input(InputItem::Failed) => ProducerAction::Send(Event::Error),
        Wake::Input(InputItem::Other) => ProducerAction::Skip,
        Wake::Input(InputItem::Ended) => ProducerAction::Skip,
    }
}

/// What shutdown does after one look at the input task.
#[derive(Clone, Copy, Debug, PartialEq, Eq, Structural)]
pub enum StopAction {
    /// The task has finished: shutdown succeeded.
    Done,
    /// Sleep one poll interval, then look again.
    Wait,
    /// Abort the task, sleep one poll interval, then look again.
    AbortThenWait,
    /// Fail at once: the task could not be stopped.
    GiveUp,
}

/// The escalation ladder, by the poll intervals slept so far: wait through
/// the grace window, abort a task still running at its end (and on every
/// look after it), and give up on one still running once the second window
/// is over.
pub open spec fn stop_action_spec(polls: u32, finished: bool) -> StopAction {
    if finished {
        StopAction::Done
    } else if polls >= ABORT_POLLS {
        StopAction::GiveUp
    } else if polls >= GRACE_POLLS {
        StopAction::AbortThenWait
    } else {
        StopAction::Wait
    }
}

/// The shutdown of the input task: how many poll intervals it has slept.
#[derive(Clone, Copy, Debug, PartialEq, Eq, Structural)]
pub struct Shutdown {
    pub polls: u32,
}

impl Shutdown {
    /// A shutdown that has not looked at the task yet.
    pub fn new() -> (r: Shutdown)
        ensures
            r.polls == 0,
    {
        Shutdown { polls: 0 }
    }

    /// Looks at the task, told whether it has finished, and says what to do.
    /// The actions that sleep count one more poll interval.
    pub fn poll(&mut self, finished: bool) -> (r: StopAction)
        ensures
            r == stop_action_spec(old(self).polls, finished),
            final(self).polls == if r == StopAction::Wait || r == StopAction::AbortThenWait {
                (old(self).polls + 1) as u32
            } else {
                old(self).polls
            },
    {
        if finished {
            StopAction::Done
        } else if self.polls >= ABORT_POLLS {
            StopAction::GiveUp
        } else if self.polls >= GRACE_POLLS {
            self.polls = self.polls + 1;
            StopAction::AbortThenWait
        } else {
            self.polls = self.polls + 1;
            StopAction::Wait
        }
    }
}

/// The poll intervals slept after `n` looks at a task that never finishes.
pub open spec fn polls_after(n: nat) -> u32
    decreases n,
{
    if n == 0 {
        0
    } else {
        let p = polls_after((n - 1) as nat);
        if p >= ABORT_POLLS { p } else { (p + 1) as u32 }
    }
}

/// Against a task that never finishes, shutdown sleeps through the grace
/// window of `GRACE_POLLS` intervals without aborting, aborts at its end
/// and on each look up to `ABORT_POLLS` intervals, and gives up on the
/// look after `ABORT_POLLS` intervals, without sleeping more.
pub proof fn lemma_escalation(n: nat)
    ensures
        polls_after(n) == if n <= ABORT_POLLS { n as u32 } else { ABORT_POLLS },
        n < GRACE_POLLS ==> stop_action_spec(polls_after(n), false) == StopAction::Wait,
        GRACE_POLLS <= n < ABORT_POLLS ==> stop_action_spec(polls_after(n), false) == StopAction::AbortThenWait,
        n >= ABORT_POLLS ==> stop_action_spec(polls_after(n), false) == StopAction::GiveUp,
    decreases n,
{
    if n > 0 {
        lemma_escalation((n - 1) as nat);
    }
}

} // verus!
