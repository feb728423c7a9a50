//! Handing a run's events to a sink and a reporter.

use crate::session::errors::{SinkError, WriteEventError};
use vstd::prelude::*;

verus! {

/// One event, and what became of it.
pub struct Delivery<V, E, K, P> {
    /// The event.
    pub event: V,

    /// What the sink said to it.
    pub sunk: Result<(), E>,

    /// What the reporter said to it, if it was asked.
    pub reported: Option<Result<(), WriteEventError>>,

    /// The sink before.
    pub sink_before: K,

    /// The sink after.
    pub sink_after: K,

    /// The reporter before.
    pub reporter_before: P,

    /// The reporter after.
    pub reporter_after: P,
}

/// What the runner is told of a delivery: the sink's error or the reporter's,
/// each as what it is.
pub open spec fn told<V, E, K, P>(delivery: Delivery<V, E, K, P>) -> Result<(), SinkError<E>> {
    match (delivery.sunk, delivery.reported) {
        (Err(error), _) => Err(SinkError::Sink(error)),
        (Ok(()), Some(Err(error))) => Err(SinkError::Report(error)),
        (Ok(()), _) => Ok(()),
    }
}

/// The sink is asked to take the event, once, and the reporter is asked to render
/// it after that, if and only if the sink took it.
pub open spec fn delivers<
    V,
    E,
    K,
    P,
    S: Fn(K, &V) -> (K, Result<(), E>),
    R: Fn(P, V) -> (P, Result<(), WriteEventError>),
>(sink: S, report: R, delivery: Delivery<V, E, K, P>) -> bool {
    &&& sink.ensures((delivery.sink_before, &delivery.event), (delivery.sink_after, delivery.sunk))
    &&& match delivery.sunk {
        Err(_) => delivery.reported is None && delivery.reporter_after == delivery.reporter_before,
        Ok(()) => {
            &&& delivery.reported matches Some(reported)
            &&& report.ensures(
                (delivery.reporter_before, delivery.event),
                (delivery.reporter_after, reported),
            )
        },
    }
}

/// The sink and the reporter after some deliveries.
pub open spec fn state_after<V, E, K, P>(
    start: (K, P),
    deliveries: Seq<Delivery<V, E, K, P>>,
) -> (K, P) {
    if deliveries.len() == 0 {
        start
    } else {
        (deliveries.last().sink_after, deliveries.last().reporter_after)
    }
}

/// Every event was delivered, one after another: each finds the sink and the
/// reporter as the one before left them.
pub open spec fn delivered_in_turn<
    V,
    E,
    K,
    P,
    S: Fn(K, &V) -> (K, Result<(), E>),
    R: Fn(P, V) -> (P, Result<(), WriteEventError>),
>(sink: S, report: R, start: (K, P), deliveries: Seq<Delivery<V, E, K, P>>) -> bool {
    forall|index: int|
        0 <= index < deliveries.len() ==> {
            &&& delivers(sink, report, #[trigger] deliveries[index])
            &&& (deliveries[index].sink_before, deliveries[index].reporter_before) == state_after(
                start,
                deliveries.subrange(0, index),
            )
        }
}

/// `sink` may be asked to take any event, and `report` to render one that the
/// sink took.
pub open spec fn relay_grants<
    V,
    E,
    K,
    P,
    S: Fn(K, &V) -> (K, Result<(), E>),
    R: Fn(P, V) -> (P, Result<(), WriteEventError>),
>(sink: S, report: R) -> bool {
    &&& forall|state: K, event: &V| #[trigger] sink.requires((state, event))
    &&& forall|before: K, event: V, answer: (K, Result<(), E>), reporter: P|
        #[trigger] sink.ensures((before, &event), answer) && answer.1 is Ok
            ==> #[trigger] report.requires((reporter, event))
}

/// Hands events to a sink and then to a reporter.
///
/// The sink and the reporter are values that each call takes and gives back, so
/// nothing else can use them in between.
#[verifier::reject_recursive_types(V)]
#[verifier::reject_recursive_types(E)]
#[verifier::reject_recursive_types(K)]
#[verifier::reject_recursive_types(P)]
pub struct Relay<
    V,
    E,
    K,
    P,
    S: Fn(K, &V) -> (K, Result<(), E>),
    R: Fn(P, V) -> (P, Result<(), WriteEventError>),
> {
    state: K,
    reporter: P,
    sink: S,
    report: R,
    start: Ghost<(K, P)>,
    log: Ghost<Seq<Delivery<V, E, K, P>>>,
}

impl<
    V,
    E,
    K,
    P,
    S: Fn(K, &V) -> (K, Result<(), E>),
    R: Fn(P, V) -> (P, Result<(), WriteEventError>),
> Relay<V, E, K, P, S, R> {
    #[verifier::type_invariant]
    spec fn well_formed(self) -> bool {
        &&& relay_grants(self.sink, self.report)
        &&& delivered_in_turn(self.sink, self.report, self.start@, self.log@)
        &&& (self.state, self.reporter) == state_after(self.start@, self.log@)
    }

    /// How the sink takes an event.
    pub closed spec fn sinks(self) -> S {
        self.sink
    }

    /// How the reporter renders an event.
    pub closed spec fn reports(self) -> R {
        self.report
    }

    /// The sink and the reporter as they were at the start.
    pub closed spec fn began(self) -> (K, P) {
        self.start@
    }

    /// What was delivered so far, in order.
    pub closed spec fn deliveries(self) -> Seq<Delivery<V, E, K, P>> {
        self.log@
    }

    /// The sink and the reporter as they are now.
    pub open spec fn now(self) -> (K, P) {
        state_after(self.began(), self.deliveries())
    }

    /// Every event so far was delivered in turn.
    pub open spec fn is_faithful(self) -> bool {
        delivered_in_turn(self.sinks(), self.reports(), self.began(), self.deliveries())
    }

    /// Nothing was delivered yet.
    pub open spec fn is_fresh(self, state: K, sink: S, reporter: P, report: R) -> bool {
        &&& self.sinks() == sink
        &&& self.reports() == report
        &&& self.began() == (state, reporter)
        &&& self.deliveries() == Seq::<Delivery<V, E, K, P>>::empty()
    }

    /// This is `earlier`, after it was handed more events.
    pub open spec fn continues(self, earlier: Self) -> bool {
        &&& self.sinks() == earlier.sinks()
        &&& self.reports() == earlier.reports()
        &&& self.began() == earlier.began()
        &&& earlier.deliveries().is_prefix_of(self.deliveries())
    }

    /// Returns a relay that has delivered nothing yet.
    pub fn new(state: K, sink: S, reporter: P, report: R) -> (relay: Self)
        requires
            relay_grants(sink, report),
        ensures
            relay.is_fresh(state, sink, reporter, report),
    {
        let ghost start = (state, reporter);
        Relay { state, reporter, sink, report, start: Ghost(start), log: Ghost(Seq::empty()) }
    }

    /// Hands one event to the sink, and then to the reporter.
    ///
    /// The sink goes first: if delivery has failed there is no point rendering an
    /// event nobody will see.
    pub fn forward(self, event: V) -> (forwarded: (Self, Result<(), SinkError<E>>))
        ensures
            forwarded.0.continues(self),
            forwarded.0.is_faithful(),
            exists|delivery: Delivery<V, E, K, P>|
                {
                    &&& #[trigger] delivers(self.sinks(), self.reports(), delivery)
                    &&& delivery.event == event
                    &&& (delivery.sink_before, delivery.reporter_before) == self.now()
                    &&& forwarded.0.deliveries() == self.deliveries().push(delivery)
                    &&& forwarded.1 == told(delivery)
                },
    {
        proof {
            use_type_invariant(&self);
        }
        let Relay { state, reporter, sink, report, start, log } = self;
        let ghost event_seen = event;
        let ghost sink_before = state;
        let ghost reporter_before = reporter;
        let (state, sunk) = sink(state, &event);
        let ghost answer = sunk;
        let (reporter, reported, result) = match sunk {
            Err(error) => (reporter, Ghost(None), Err(SinkError::Sink(error))),
            Ok(()) => {
                let (reporter, reported) = report(reporter, event);
                let ghost said = reported;
                match reported {
                    Err(error) => (reporter, Ghost(Some(said)), Err(SinkError::Report(error))),
                    Ok(()) => (reporter, Ghost(Some(said)), Ok(())),
                }
            },
        };
        let ghost delivery = Delivery {
            event: event_seen,
            sunk: answer,
            reported: reported@,
            sink_before,
            sink_after: state,
            reporter_before,
            reporter_after: reporter,
        };
        let ghost next = log@.push(delivery);
        proof {
            assert(delivers(self.sinks(), self.reports(), delivery));
            assert forall|index: int| 0 <= index < next.len() implies {
                &&& delivers(sink, report, #[trigger] next[index])
                &&& (next[index].sink_before, next[index].reporter_before) == state_after(
                    start@,
                    next.subrange(0, index),
                )
            } by {
                assert(next.subrange(0, index) =~= log@.subrange(0, index));
                if index == log@.len() {
                    assert(log@.subrange(0, index) =~= log@);
                } else {
                    assert(next[index] == log@[index]);
                }
            }
        }
        (Relay { state, reporter, sink, report, start, log: Ghost(next) }, result)
    }

    /// Returns the sink and the reporter as they are now.
    pub fn into_parts(self) -> (parts: (K, P))
        ensures
            parts == self.now(),
            self.is_faithful(),
    {
        proof {
            use_type_invariant(&self);
        }
        (self.state, self.reporter)
    }
}

/// Every event that a relay was handed reached the sink exactly once, in the order
/// they came, and before the reporter; it reached the reporter if and only if the
/// sink took it; and the runner was told of whichever failed, as what it is.
pub proof fn law_the_sink_sees_every_event_first<
    V,
    E,
    K,
    P,
    S: Fn(K, &V) -> (K, Result<(), E>),
    R: Fn(P, V) -> (P, Result<(), WriteEventError>),
>(
    earlier: Relay<V, E, K, P, S, R>,
    relay: Relay<V, E, K, P, S, R>,
    state: K,
    sink: S,
    reporter: P,
    report: R,
    index: int,
)
    requires
        earlier.is_fresh(state, sink, reporter, report),
        relay.continues(earlier),
        relay.is_faithful(),
        0 <= index < relay.deliveries().len(),
    ensures
        ({
            let delivery = relay.deliveries()[index];
            let before = state_after((state, reporter), relay.deliveries().subrange(0, index));
            let answer = (delivery.sink_after, delivery.sunk);
            &&& sink.ensures((before.0, &delivery.event), answer)
            &&& delivery.reported is Some <==> delivery.sunk is Ok
            &&& delivery.reported matches Some(reported) ==> report.ensures(
                (before.1, delivery.event),
                (delivery.reporter_after, reported),
            )
            &&& delivery.reported is None ==> delivery.reporter_after == before.1
            &&& match (delivery.sunk, delivery.reported) {
                (Err(error), _) => told(delivery) == Err::<(), SinkError<E>>(SinkError::Sink(error)),
                (Ok(()), Some(Err(error))) => told(delivery) == Err::<(), SinkError<E>>(
                    SinkError::Report(error),
                ),
                (Ok(()), _) => told(delivery) is Ok,
            }
        }),
{
    assert(delivers(sink, report, relay.deliveries()[index]));
}

/// Events are handed on one after another: the first finds the sink and the reporter
/// as they were at the start, and every other as the one before it left them.
pub proof fn law_events_are_handed_on_in_turn<
    V,
    E,
    K,
    P,
    S: Fn(K, &V) -> (K, Result<(), E>),
    R: Fn(P, V) -> (P, Result<(), WriteEventError>),
>(relay: Relay<V, E, K, P, S, R>, index: int)
    requires
        relay.is_faithful(),
        0 <= index < relay.deliveries().len(),
    ensures
        ({
            let all = relay.deliveries();
            &&& index == 0 ==> all[index].sink_before == relay.began().0
                && all[index].reporter_before == relay.began().1
            &&& index > 0 ==> all[index].sink_before == all[index - 1].sink_after
                && all[index].reporter_before == all[index - 1].reporter_after
            &&& index == all.len() - 1 ==> relay.now() == (
                all[index].sink_after,
                all[index].reporter_after,
            )
        }),
{
    let all = relay.deliveries();
    assert(delivers(relay.sinks(), relay.reports(), all[index]));
    if index > 0 {
        assert(all.subrange(0, index).last() == all[index - 1]);
    }
}

/// A relay that has delivered nothing has the sink and the reporter it was given.
pub proof fn law_fresh_relays_changed_nothing<
    V,
    E,
    K,
    P,
    S: Fn(K, &V) -> (K, Result<(), E>),
    R: Fn(P, V) -> (P, Result<(), WriteEventError>),
>(relay: Relay<V, E, K, P, S, R>, state: K, sink: S, reporter: P, report: R)
    requires
        relay.is_fresh(state, sink, reporter, report),
    ensures
        relay.now() == (state, reporter),
        relay.deliveries().len() == 0,
        relay.sinks() == sink,
        relay.reports() == report,
{
}

/// The runner is told that an event was delivered exactly when neither the sink nor
/// the reporter failed on it; a failure of the sink is never told as the reporter's,
/// nor the other way round.
pub proof fn law_failures_are_told_apart<V, E, K, P>(delivery: Delivery<V, E, K, P>)
    ensures
        told(delivery) is Ok <==> delivery.sunk is Ok && (delivery.reported is None
            || delivery.reported->0 is Ok),
        delivery.sunk matches Err(error) ==> told(delivery) == Err::<(), SinkError<E>>(
            SinkError::Sink(error),
        ),
        told(delivery) matches Err(SinkError::Report(error)) ==> delivery.reported == Some(
            Err::<(), WriteEventError>(error),
        ),
{
}

/// A sink that takes any event and a reporter that renders any are all that a relay
/// needs.
pub proof fn law_willing_sinks_are_enough<
    V,
    E,
    K,
    P,
    S: Fn(K, &V) -> (K, Result<(), E>),
    R: Fn(P, V) -> (P, Result<(), WriteEventError>),
>(sink: S, report: R)
    requires
        forall|state: K, event: &V| #[trigger] sink.requires((state, event)),
        forall|reporter: P, event: V| #[trigger] report.requires((reporter, event)),
    ensures
        relay_grants(sink, report),
{
}

} // verus!
