//! The exhaustion detector: the decision core of the stream decorator.
//!
//! A driver pulls the wrapped stream; each pull of the inner stream comes
//! back as one [`StreamEvent`]. The detector forwards every event
//! unchanged and fires its [`Emitter`] exactly once, on the first
//! end-of-sequence report. The asynchronous plumbing that produces the
//! events lives outside; everything the decorator decides is here.

use crate::signal::Emitter;
use vstd::prelude::*;

verus! {

/// One pull of a stream: the producer is not ready yet, or it yields an
/// item, or it reports that the sequence has ended for good.
#[derive(Debug, PartialEq, Eq)]
pub enum StreamEvent<T> {
    Suspend,
    Item(T),
    End,
}

/// Whether the detector is still armed after seeing one event: it stays
/// armed until the first end-of-sequence report and never after it.
pub open spec fn step_active<T>(active: bool, event: StreamEvent<T>) -> bool {
    active && !(event is End)
}

/// How often one event makes an armed detector fire: once on the first
/// end-of-sequence report, never otherwise.
pub open spec fn step_fires<T>(active: bool, event: StreamEvent<T>) -> nat {
    if active && event is End {
        1
    } else {
        0
    }
}

/// Whether the detector is still armed after a whole run of events.
pub open spec fn run_active<T>(active: bool, events: Seq<StreamEvent<T>>) -> bool
    decreases events.len(),
{
    if events.len() == 0 {
        active
    } else {
        run_active(step_active(active, events[0]), events.drop_first())
    }
}

/// How often the detector fires over a whole run of events.
pub open spec fn run_fires<T>(active: bool, events: Seq<StreamEvent<T>>) -> nat
    decreases events.len(),
{
    if events.len() == 0 {
        0
    } else {
        step_fires(active, events[0]) + run_fires(
            step_active(active, events[0]),
            events.drop_first(),
        )
    }
}

/// Whether any event of a run reports exhaustion.
pub open spec fn has_end<T>(events: Seq<StreamEvent<T>>) -> bool {
    exists|i: int| 0 <= i < events.len() && events[i] is End
}

/// The items a run of events carries, in order.
pub open spec fn items_of<T>(events: Seq<StreamEvent<T>>) -> Seq<T>
    decreases events.len(),
{
    if events.len() == 0 {
        Seq::empty()
    } else {
        match events[0] {
            StreamEvent::Item(t) => seq![t] + items_of(events.drop_first()),
            _ => items_of(events.drop_first()),
        }
    }
}

/// Decision core of the stream decorator. It owns the emitter of a
/// completion signal while the inner stream may still yield, and fires it
/// on the single step where the inner stream first reports exhaustion.
pub struct FinishDetector {
    notifier: Option<Emitter>,
    fires: Ghost<nat>,
}

impl FinishDetector {
    /// Armed: the emitter is still held, so the first exhaustion report is
    /// still ahead.
    pub closed spec fn is_active(&self) -> bool {
        self.notifier is Some
    }

    /// How often this detector has fired its emitter.
    pub closed spec fn fire_count(&self) -> nat {
        self.fires@
    }

    /// A detector fires at most once over its whole life, and an armed one
    /// has not fired yet.
    pub closed spec fn wf(&self) -> bool {
        &&& self.fire_count() <= 1
        &&& self.is_active() ==> self.fire_count() == 0
    }

    /// Arm a detector with the emitter it is to fire on exhaustion.
    pub fn new(emitter: Emitter) -> (d: FinishDetector)
        ensures
            d.wf(),
            d.is_active(),
            d.fire_count() == 0,
    {
        FinishDetector { notifier: Some(emitter), fires: Ghost(0) }
    }

    /// One pull of the decorated stream, given what the inner stream
    /// produced on this pull. The event is forwarded unchanged; on the
    /// first end-of-sequence report, and only there, the emitter fires.
    pub fn produce_next<T>(&mut self, inner: StreamEvent<T>) -> (out: StreamEvent<T>)
        requires
            old(self).wf(),
        ensures
            final(self).wf(),
            out == inner,
            final(self).is_active() == step_active(old(self).is_active(), inner),
            final(self).fire_count() == old(self).fire_count() + step_fires(
                old(self).is_active(),
                inner,
            ),
    {
        match inner {
            StreamEvent::Suspend => StreamEvent::Suspend,
            StreamEvent::Item(t) => StreamEvent::Item(t),
            StreamEvent::End => {
                if let Some(emitter) = self.notifier.take() {
                    emitter.fire();
                    self.fires = Ghost(self.fires@ + 1);
                }
                StreamEvent::End
            },
        }
    }
}

/// A run grows at its tail by one step: what a whole run followed by one
/// more event does is what the run does, followed by one step from where
/// the run left off.
proof fn lemma_run_push<T>(active: bool, events: Seq<StreamEvent<T>>, event: StreamEvent<T>)
    ensures
        run_active(active, events.push(event)) == step_active(run_active(active, events), event),
        run_fires(active, events.push(event)) == run_fires(active, events) + step_fires(
            run_active(active, events),
            event,
        ),
    decreases events.len(),
{
    let grown = events.push(event);
    if events.len() == 0 {
        assert(grown[0] == event);
        assert(grown.drop_first() =~= events);
        assert(run_active(active, grown) == run_active(step_active(active, event), events));
        assert(run_fires(active, grown) == step_fires(active, event) + run_fires(
            step_active(active, event),
            events,
        ));
    } else {
        assert(grown[0] == events[0]);
        assert(grown.drop_first() =~= events.drop_first().push(event));
        lemma_run_push(step_active(active, events[0]), events.drop_first(), event);
        assert(run_active(active, grown) == run_active(step_active(active, events[0]), grown.drop_first()));
        assert(run_fires(active, grown) == step_fires(active, events[0]) + run_fires(
            step_active(active, events[0]),
            grown.drop_first(),
        ));
    }
}

/// Over any run of events the detector fires at most once, and a detector
/// that is no longer armed never fires again.
pub proof fn lemma_fires_at_most_once<T>(active: bool, events: Seq<StreamEvent<T>>)
    ensures
        run_fires(active, events) <= if active {
            1nat
        } else {
            0nat
        },
    decreases events.len(),
{
    if events.len() > 0 {
        lemma_fires_at_most_once(step_active(active, events[0]), events.drop_first());
    }
}

/// Once the first exhaustion report is behind it, the detector never
/// fires again, however many further events it sees.
pub proof fn lemma_no_refire<T>(events: Seq<StreamEvent<T>>)
    ensures
        run_fires(false, events) == 0,
{
    lemma_fires_at_most_once(false, events);
}

/// A detector that is no longer armed never becomes armed again: the
/// finished state is terminal.
pub proof fn lemma_finished_is_terminal<T>(events: Seq<StreamEvent<T>>)
    ensures
        !run_active(false, events),
    decreases events.len(),
{
    if events.len() > 0 {
        lemma_finished_is_terminal(events.drop_first());
    }
}

/// Starting armed, the detector is still armed after a run exactly when
/// the run held no exhaustion report. Dropped while still armed, it takes
/// its emitter along unfired, which cancels the linked waiter.
pub proof fn lemma_active_iff_no_end<T>(events: Seq<StreamEvent<T>>)
    ensures
        run_active(true, events) == !has_end(events),
    decreases events.len(),
{
    if events.len() == 0 {
    } else if events[0] is End {
        lemma_finished_is_terminal(events.drop_first());
        assert(has_end(events));
    } else {
        lemma_active_iff_no_end(events.drop_first());
        if has_end(events.drop_first()) {
            let i = choose|i: int|
                0 <= i < events.drop_first().len() && events.drop_first()[i] is End;
            assert(events[i + 1] is End);
        } else {
            assert forall|i: int| 0 <= i < events.len() implies !(events[i] is End) by {
                if i > 0 {
                    assert(events.drop_first()[i - 1] == events[i]);
                }
            }
        }
    }
}

/// Starting armed, the detector fires exactly once over a run that holds
/// an exhaustion report, and not at all over one that holds none.
pub proof fn lemma_fires_iff_end<T>(events: Seq<StreamEvent<T>>)
    ensures
        run_fires(true, events) == if has_end(events) {
            1nat
        } else {
            0nat
        },
    decreases events.len(),
{
    if events.len() == 0 {
    } else if events[0] is End {
        lemma_no_refire(events.drop_first());
        assert(has_end(events));
    } else {
        lemma_fires_iff_end(events.drop_first());
        if has_end(events.drop_first()) {
            let i = choose|i: int|
                0 <= i < events.drop_first().len() && events.drop_first()[i] is End;
            assert(events[i + 1] is End);
        } else {
            assert forall|i: int| 0 <= i < events.len() implies !(events[i] is End) by {
                if i > 0 {
                    assert(events.drop_first()[i - 1] == events[i]);
                }
            }
        }
    }
}

/// Feed a scripted run of inner events through a detector, in order, and
/// collect what a consumer of the decorated stream would see: the same
/// events — so in particular the same items, without loss, duplication or
/// reordering — while the detector fires exactly as the run model says:
/// once on the first exhaustion report, if the script holds one.
pub fn drive<T>(d: &mut FinishDetector, events: Vec<StreamEvent<T>>) -> (outs: Vec<
    StreamEvent<T>,
>)
    requires
        old(d).wf(),
    ensures
        final(d).wf(),
        outs@ == events@,
        items_of(outs@) == items_of(events@),
        final(d).is_active() == run_active(old(d).is_active(), events@),
        final(d).fire_count() == old(d).fire_count() + run_fires(old(d).is_active(), events@),
{
    let ghost all = events@;
    let ghost a0 = d.is_active();
    let ghost f0 = d.fire_count();
    let mut rest = events;
    let mut outs: Vec<StreamEvent<T>> = Vec::new();
    while rest.len() > 0
        invariant
            d.wf(),
            outs@ + rest@ == all,
            d.is_active() == run_active(a0, outs@),
            d.fire_count() == f0 + run_fires(a0, outs@),
        decreases rest.len(),
    {
        let event = rest.remove(0);
        proof {
            lemma_run_push(a0, outs@, event);
        }
        let out = d.produce_next(event);
        outs.push(out);
    }
    proof {
        assert(outs@ =~= all);
    }
    outs
}

} // verus!

