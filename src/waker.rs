use vstd::prelude::*;
use std::task::Waker;

verus! {

/// `std::task::Waker`, held opaque: a handle that resumes one task.
#[verifier::external_type_specification]
#[verifier::external_body]
pub struct ExWaker(Waker);

/// Relies on `Waker::wake`: schedules the task once and consumes the handle;
/// nothing about it is stated.
#[verifier::external_body]
fn resume(w: Waker) {
    w.wake()
}

/// Relies on `Waker::wake_by_ref`: schedules the task once and keeps the
/// handle; nothing about it is stated.
#[verifier::external_body]
fn resume_by_ref(w: &Waker) {
    w.wake_by_ref()
}

/// The abstract state of a slot: the handle it holds, if any, and the
/// handles it has passed to the scheduler to be resumed, oldest first.
pub ghost struct SlotView {
    pub handle: Option<Waker>,
    pub resumed: Seq<Waker>,
}

impl SlotView {
    pub open spec fn empty() -> SlotView {
        SlotView { handle: None, resumed: Seq::empty() }
    }

    pub open spec fn armed(self) -> bool {
        self.handle is Some
    }

    /// The state after storing `w`: an earlier handle is superseded, not
    /// resumed.
    pub open spec fn registered(self, w: Waker) -> SlotView {
        SlotView { handle: Some(w), resumed: self.resumed }
    }

    /// The state after a fire: a held handle is passed on to be resumed and
    /// the slot is emptied; an empty slot stays as it is.
    pub open spec fn after_fire(self) -> SlotView {
        match self.handle {
            Some(h) => SlotView { handle: None, resumed: self.resumed.push(h) },
            None => self,
        }
    }

    /// The state after a nudge: a held handle is passed on to be resumed and
    /// stays in the slot; an empty slot stays as it is.
    pub open spec fn nudged(self) -> SlotView {
        match self.handle {
            Some(h) => SlotView { handle: Some(h), resumed: self.resumed.push(h) },
            None => self,
        }
    }
}

/// A cell holding at most one pending task handle for one direction.
pub struct TaskWaker {
    waker: Option<Waker>,
    resumed: Ghost<Seq<Waker>>,
}

impl View for TaskWaker {
    type V = SlotView;

    closed spec fn view(&self) -> SlotView {
        SlotView { handle: self.waker, resumed: self.resumed@ }
    }
}

impl TaskWaker {
    /// An empty slot.
    pub fn new() -> (r: TaskWaker)
        ensures
            r@ == SlotView::empty(),
    {
        TaskWaker { waker: None, resumed: Ghost(Seq::empty()) }
    }

    /// Stores `waker`, replacing any earlier handle without resuming it.
    pub fn register(&mut self, waker: Waker)
        ensures
            final(self)@ == old(self)@.registered(waker),
    {
        self.waker = Some(waker);
    }

    /// Takes the stored handle, if any, and hands it to the scheduler to be
    /// resumed once; does nothing on an empty slot.
    pub fn wake(&mut self)
        ensures
            final(self)@ == old(self)@.after_fire(),
    {
        let taken = self.waker.take();
        match taken {
            Some(w) => {
                proof {
                    self.resumed@ = self.resumed@.push(w);
                }
                resume(w);
            },
            None => {},
        }
    }

    /// Asks the scheduler to resume the stored handle, if any, and keeps it
    /// in the slot; does nothing on an empty slot.
    pub fn notify(&mut self)
        ensures
            final(self)@ == old(self)@.nudged(),
    {
        match &self.waker {
            Some(w) => {
                proof {
                    self.resumed@ = self.resumed@.push(*w);
                }
                resume_by_ref(w);
            },
            None => {},
        }
    }

    /// Whether a handle is held.
    pub fn is_registered(&self) -> (r: bool)
        ensures
            r == self@.armed(),
    {
        self.waker.is_some()
    }
}

/// Firing is idempotent: a second fire right after the first changes nothing,
/// and a fire on an empty slot leaves it as it was.
pub proof fn lemma_fire_idempotent(s: SlotView)
    ensures
        s.after_fire().after_fire() == s.after_fire(),
        !s.armed() ==> s.after_fire() == s,
        !s.after_fire().armed(),
{
}

/// The last registration wins: after two registrations with no fire between
/// them, a fire passes on the second handle alone, once.
pub proof fn lemma_last_registration_wins(s: SlotView, first: Waker, second: Waker)
    ensures
        s.registered(first).registered(second).handle == Some(second),
        s.registered(first).registered(second).after_fire().resumed == s.resumed.push(second),
{
}

} // verus!
