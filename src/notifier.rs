//! The coalescing redraw signal that a background thread raises and the UI
//! loop services. The host keeps it behind a lock; each method is one step.
use vstd::prelude::*;

verus! {

/// The state of a widget's redraw signal.
pub struct Notifier {
    /// The widget is still there to redraw.
    attached: bool,
    /// A deferred redraw callback is scheduled and has not run yet.
    pending: bool,
}

/// Whether a `notify` in this state schedules a deferred callback.
pub open spec fn schedules(attached: bool, pending: bool) -> bool {
    attached && !pending
}

/// How many deferred callbacks `k` successive `notify` calls schedule, from
/// this state, before any callback runs.
pub open spec fn scheduled_by_burst(attached: bool, pending: bool, k: nat) -> nat
    decreases k,
{
    if k == 0 {
        0
    } else {
        (if schedules(attached, pending) {
            1nat
        } else {
            0nat
        }) + scheduled_by_burst(attached, pending || schedules(attached, pending), (k - 1) as nat)
    }
}

impl Notifier {
    pub closed spec fn is_attached(&self) -> bool {
        self.attached
    }

    pub closed spec fn is_pending(&self) -> bool {
        self.pending
    }

    /// The signal of a freshly realized widget.
    pub fn new() -> (r: Self)
        ensures
            r.is_attached(),
            !r.is_pending(),
    {
        Notifier { attached: true, pending: false }
    }

    /// Asks for a redraw. Returns whether the caller must schedule the
    /// deferred callback; a second request before it runs adds nothing, and
    /// a request after teardown does nothing.
    pub fn notify(&mut self) -> (schedule: bool)
        ensures
            schedule == schedules(old(self).is_attached(), old(self).is_pending()),
            final(self).is_attached() == old(self).is_attached(),
            final(self).is_pending() == (old(self).is_pending() || schedule),
    {
        if self.attached && !self.pending {
            self.pending = true;
            true
        } else {
            false
        }
    }

    /// The deferred callback runs on the UI loop. Returns whether the widget
    /// must be redrawn.
    pub fn fire(&mut self) -> (redraw: bool)
        ensures
            redraw == old(self).is_attached(),
            final(self).is_attached() == old(self).is_attached(),
            !final(self).is_pending(),
    {
        self.pending = false;
        self.attached
    }

    /// The widget is torn down: later requests are no-ops.
    pub fn detach(&mut self)
        ensures
            !final(self).is_attached(),
            final(self).is_pending() == old(self).is_pending(),
    {
        self.attached = false;
    }
}

/// Any number of `notify` calls before the deferred callback runs schedule
/// at most one redraw, and none when one is already scheduled.
pub proof fn lemma_burst_coalesces(attached: bool, pending: bool, k: nat)
    ensures
        scheduled_by_burst(attached, pending, k) <= 1,
        pending ==> scheduled_by_burst(attached, pending, k) == 0,
    decreases k,
{
    if k > 0 {
        lemma_burst_coalesces(attached, pending || schedules(attached, pending), (k - 1) as nat);
        if schedules(attached, pending) {
            lemma_burst_coalesces(attached, true, (k - 1) as nat);
        }
    }
}

} // verus!
