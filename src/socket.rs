use vstd::prelude::*;
use std::task::Waker;
use crate::pattern::{
    capabilities, capabilities_of, is_receive_only, is_send_only, Capabilities, Direction,
    SocketPattern,
};
use crate::waker::{SlotView, TaskWaker};

verus! {

/// A snapshot of the transport's level-triggered status register.
#[derive(Clone, Copy, Debug, PartialEq, Eq, Structural)]
pub struct Status {
    /// A message can be received now.
    pub input: bool,
    /// A message can be sent now.
    pub output: bool,
}

impl Status {
    pub open spec fn ready_for(self, dir: Direction) -> bool {
        match dir {
            Direction::Read => self.input,
            Direction::Write => self.output,
        }
    }

    /// What to assume when the status register could not be read: both
    /// directions ready. A wake that proves spurious costs one more attempt;
    /// one that is missed may leave a task suspended for good.
    pub fn unknown() -> (r: Status)
        ensures
            r.input,
            r.output,
    {
        Status { input: true, output: true }
    }
}

/// What one non-blocking attempt in a direction came to.
#[derive(Clone, Copy, Debug, PartialEq, Eq, Structural)]
pub enum Outcome {
    /// The whole message went through; the status was read right after.
    Done(Status),
    /// The transport could make no progress now.
    WouldBlock,
    /// The transport failed with an error other than would-block.
    Failed,
}

/// What the driver of an operation does after an attempt.
#[derive(Clone, Copy, Debug, PartialEq, Eq, Structural)]
pub enum Action {
    /// Clear this direction's reactor readiness, read the status afresh, park
    /// with `after_clear`, and suspend until woken; the whole operation is
    /// attempted again on resumption.
    Clear,
    /// The operation is finished: hand its result to the caller.
    Complete,
    /// The operation is abandoned: hand the transport error to the caller.
    Fail,
}

/// The operation's direction is not allowed by the socket pattern.
#[derive(Clone, Copy, Debug, PartialEq, Eq, Structural)]
pub struct Unsupported {
    pub direction: Direction,
}

/// The abstract state of a socket: its capability pair and one slot per
/// direction.
pub ghost struct StateView {
    pub caps: Capabilities,
    pub read: SlotView,
    pub write: SlotView,
}

impl StateView {
    pub open spec fn initial(p: SocketPattern) -> StateView {
        StateView {
            caps: capabilities_of(p),
            read: SlotView::empty(),
            write: SlotView::empty(),
        }
    }

    pub open spec fn slot(self, dir: Direction) -> SlotView {
        match dir {
            Direction::Read => self.read,
            Direction::Write => self.write,
        }
    }

    pub open spec fn with_slot(self, dir: Direction, v: SlotView) -> StateView {
        match dir {
            Direction::Read => StateView { read: v, ..self },
            Direction::Write => StateView { write: v, ..self },
        }
    }

    /// After progress in `dir`: the opposite slot is fired when the fresh
    /// status shows the opposite direction ready and the pattern allows it.
    pub open spec fn cross_woken(self, dir: Direction, st: Status) -> StateView {
        let o = dir.opposite();
        if self.caps.permits(o) && st.ready_for(o) {
            self.with_slot(o, self.slot(o).after_fire())
        } else {
            self
        }
    }

    pub open spec fn after_attempt(self, dir: Direction, outcome: Outcome) -> StateView {
        match outcome {
            Outcome::Done(st) => self.cross_woken(dir, st),
            _ => self,
        }
    }

    /// After a would-block and the clear of the reactor readiness of `dir`,
    /// with `st` read afresh after the clear: `w` is parked in the slot of
    /// `dir`, the opposite direction is woken when ready, and when `st`
    /// already shows `dir` ready the parked handle is resumed at once.
    pub open spec fn after_clear(self, dir: Direction, st: Status, w: Waker) -> StateView {
        let parked = self.cross_woken(dir, st).with_slot(dir, self.slot(dir).registered(w));
        if st.ready_for(dir) {
            parked.with_slot(dir, parked.slot(dir).nudged())
        } else {
            parked
        }
    }
}

pub open spec fn attempt_action(outcome: Outcome) -> Action {
    match outcome {
        Outcome::Done(_) => Action::Complete,
        Outcome::WouldBlock => Action::Clear,
        Outcome::Failed => Action::Fail,
    }
}

/// The readiness decisions of one socket: its capability pair, fixed at
/// construction, and the slots of the tasks suspended in each direction.
pub struct SocketState {
    caps: Capabilities,
    read: TaskWaker,
    write: TaskWaker,
}

impl View for SocketState {
    type V = StateView;

    closed spec fn view(&self) -> StateView {
        StateView { caps: self.caps, read: self.read@, write: self.write@ }
    }
}

impl SocketState {
    /// The state of a freshly wrapped socket of pattern `pattern`.
    pub fn new(pattern: SocketPattern) -> (r: SocketState)
        ensures
            r@ == StateView::initial(pattern),
    {
        SocketState { caps: capabilities(pattern), read: TaskWaker::new(), write: TaskWaker::new() }
    }

    /// The capability pair computed at construction.
    pub fn capabilities(&self) -> (r: Capabilities)
        ensures
            r == self@.caps,
    {
        self.caps
    }

    /// Whether a task is parked in `dir`.
    pub fn is_parked(&self, dir: Direction) -> (r: bool)
        ensures
            r == self@.slot(dir).armed(),
    {
        match dir {
            Direction::Read => self.read.is_registered(),
            Direction::Write => self.write.is_registered(),
        }
    }

    /// The check at the start of an operation in `dir`: it fails, before any
    /// attempt and without parking, exactly when the pattern forbids `dir`.
    pub fn check(&self, dir: Direction) -> (r: Result<(), Unsupported>)
        ensures
            r is Ok <==> self@.caps.permits(dir),
            r matches Err(e) ==> e.direction == dir,
    {
        if self.caps.allows(dir) {
            Ok(())
        } else {
            Err(Unsupported { direction: dir })
        }
    }

    fn wake_opposite(&mut self, dir: Direction, st: Status)
        ensures
            final(self)@ == old(self)@.cross_woken(dir, st),
    {
        match dir {
            Direction::Read => {
                if self.caps.writable && st.output {
                    self.write.wake();
                }
            },
            Direction::Write => {
                if self.caps.readable && st.input {
                    self.read.wake();
                }
            },
        }
    }

    /// Decides what follows a non-blocking attempt in `dir`: success
    /// completes the operation and wakes the opposite direction when the
    /// status read after it shows that direction ready; would-block asks for
    /// the reactor readiness to be cleared; any other error fails.
    pub fn after_attempt(&mut self, dir: Direction, outcome: Outcome) -> (r: Action)
        ensures
            r == attempt_action(outcome),
            final(self)@ == old(self)@.after_attempt(dir, outcome),
    {
        match outcome {
            Outcome::Done(st) => {
                self.wake_opposite(dir, st);
                Action::Complete
            },
            Outcome::WouldBlock => Action::Clear,
            Outcome::Failed => Action::Fail,
        }
    }

    /// Parks the task of `waker` after a would-block in `dir` and the clear
    /// of that direction's reactor readiness; the operation then suspends.
    /// `st` is the status read after the clear. When it shows the opposite
    /// direction ready, that direction is woken. When it already shows `dir`
    /// ready, the parked handle is resumed at once, so that a readiness edge
    /// that came before the clear is not lost.
    pub fn after_clear(&mut self, dir: Direction, st: Status, waker: Waker)
        ensures
            final(self)@ == old(self)@.after_clear(dir, st, waker),
    {
        self.wake_opposite(dir, st);
        match dir {
            Direction::Read => {
                self.read.register(waker);
                if st.input {
                    self.read.notify();
                }
            },
            Direction::Write => {
                self.write.register(waker);
                if st.output {
                    self.write.notify();
                }
            },
        }
    }
}

/// Capability gating: a socket of a send-only pattern fails every receive at
/// its first check, one of a receive-only pattern fails every send, and every other
/// pattern passes both directions.
pub proof fn lemma_capability_gating(p: SocketPattern)
    ensures
        StateView::initial(p).caps.permits(Direction::Read) <==> !is_send_only(p),
        StateView::initial(p).caps.permits(Direction::Write) <==> !is_receive_only(p),
        is_send_only(p) ==> StateView::initial(p).caps.permits(Direction::Write),
        is_receive_only(p) ==> StateView::initial(p).caps.permits(Direction::Read),
{
}

/// No lost wakeup: a would-block always ends with the task's handle parked
/// in the slot of its direction, and when the status read after the clear
/// already shows that direction ready, the handle is passed on to be resumed
/// at once.
pub proof fn lemma_no_lost_wakeup(s: StateView, dir: Direction, st: Status, w: Waker)
    ensures
        attempt_action(Outcome::WouldBlock) == Action::Clear,
        s.after_attempt(dir, Outcome::WouldBlock) == s,
        s.after_clear(dir, st, w).slot(dir).handle == Some(w),
        st.ready_for(dir) ==> s.after_clear(dir, st, w).slot(dir).resumed == s.slot(
            dir,
        ).resumed.push(w),
        !st.ready_for(dir) ==> s.after_clear(dir, st, w).slot(dir).resumed == s.slot(dir).resumed,
{
}

/// Cross-wakeup: on a socket allowed both directions, an operation suspended
/// in `dir` has its handle passed on to be resumed, once, by the completion
/// of an operation in the opposite direction whose status probe shows `dir`
/// ready.
pub proof fn lemma_cross_wakeup(
    s: StateView,
    dir: Direction,
    parked: Status,
    w: Waker,
    after: Status,
)
    requires
        s.caps.readable,
        s.caps.writable,
        !parked.ready_for(dir),
        after.ready_for(dir),
    ensures
        ({
            let s1 = s.after_clear(dir, parked, w);
            let s2 = s1.after_attempt(dir.opposite(), Outcome::Done(after));
            &&& s1.slot(dir).handle == Some(w)
            &&& s1.slot(dir).resumed == s.slot(dir).resumed
            &&& attempt_action(Outcome::Done(after)) == Action::Complete
            &&& !s2.slot(dir).armed()
            &&& s2.slot(dir).resumed == s.slot(dir).resumed.push(w)
        }),
{
}

} // verus!
