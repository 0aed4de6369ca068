//! The widget's lifecycle: unrealized, or realized with its backend and the
//! queue of events that the next render cycle applies.
use vstd::prelude::*;

use crate::event::{output_for, output_of, Event, Output};

verus! {

/// What a realized widget holds: the terminal backend, and the events that
/// the UI thread queued since the last render cycle.
pub struct State<R> {
    pub backend: R,
    pub event_queue: Vec<Event>,
}

/// The widget's two states. The backend exists only while realized.
pub enum Widget<R> {
    Unrealized,
    Realized(State<R>),
}

impl<R> Widget<R> {
    /// The pending events, oldest first; none while unrealized.
    pub open spec fn queue(&self) -> Seq<Event> {
        match self {
            Widget::Realized(st) => st.event_queue@,
            Widget::Unrealized => Seq::empty(),
        }
    }

    /// The backend, while realized.
    pub open spec fn backend(&self) -> Option<R> {
        match self {
            Widget::Realized(st) => Some(st.backend),
            Widget::Unrealized => None,
        }
    }

    pub fn new() -> (r: Self)
        ensures
            r is Unrealized,
    {
        Widget::Unrealized
    }

    pub fn is_realized(&self) -> (r: bool)
        ensures
            r == self is Realized,
    {
        match self {
            Widget::Realized(_) => true,
            Widget::Unrealized => false,
        }
    }

    /// Takes the backend built on realize, with an empty queue. Realizing a
    /// realized widget is not a transition.
    pub fn realize(&mut self, backend: R)
        requires
            *old(self) is Unrealized,
        ensures
            final(self).backend() == Some(backend),
            final(self).queue() == Seq::<Event>::empty(),
    {
        *self = Widget::Realized(State { backend, event_queue: Vec::new() });
    }

    /// Drops back to unrealized, handing out the backend if there was one.
    pub fn unrealize(&mut self) -> (r: Option<R>)
        ensures
            *final(self) is Unrealized,
            r == old(self).backend(),
    {
        let mut was = Widget::Unrealized;
        std::mem::swap(self, &mut was);
        match was {
            Widget::Realized(st) => Some(st.backend),
            Widget::Unrealized => None,
        }
    }

    /// Queues an event behind the others; while unrealized it is dropped.
    pub fn push(&mut self, e: Event)
        ensures
            final(self).backend() == old(self).backend(),
            final(self).queue() == if *old(self) is Realized {
                old(self).queue().push(e)
            } else {
                Seq::empty()
            },
    {
        match self {
            Widget::Realized(st) => st.event_queue.push(e),
            Widget::Unrealized => {},
        }
    }

    /// The drain of one render cycle: every queued event is applied in the
    /// order it was pushed, and the queue is left empty.
    pub fn render(&mut self) -> (r: Vec<Output>)
        ensures
            final(self).backend() == old(self).backend(),
            final(self).queue() == Seq::<Event>::empty(),
            r@.len() == old(self).queue().len(),
            forall|i: int|
                0 <= i < r@.len() ==> #[trigger] r@[i]@ == output_of(old(self).queue()[i]@),
    {
        let mut out: Vec<Output> = Vec::new();
        match self {
            Widget::Realized(st) => {
                let mut events: Vec<Event> = Vec::new();
                std::mem::swap(&mut st.event_queue, &mut events);
                let n = events.len();
                let mut i: usize = 0;
                while i < n
                    invariant
                        n == events@.len(),
                        i <= n,
                        out@.len() == i,
                        forall|j: int|
                            0 <= j < i ==> #[trigger] out@[j]@ == output_of(events@[j]@),
                    decreases n - i,
                {
                    out.push(output_for(&events[i]));
                    i = i + 1;
                }
            },
            Widget::Unrealized => {},
        }
        out
    }
}

} // verus!
