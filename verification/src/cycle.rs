//! Whole poll cycles: what the loop reports and does when it is fed everything
//! that one cycle observes, and what holds of every such run.

use crate::cluster::{NamespaceView, ServiceView};
use crate::configuration::ConfigurationView;
use crate::reconcile::{
    ActionView, EventView, ReportView, StateView, first_step, last_step, next_step,
    service_reports, step_view,
};
use vstd::prelude::*;

verus! {

/// What one cycle observes of one namespace: the namespace, and its services in
/// the order listed, or none where their listing failed.
pub struct Observation {
    pub namespace: NamespaceView,
    pub services: Option<Seq<ServiceView>>,
}

/// What a run of the loop leaves behind: the state reached, and everything
/// reported and every action asked for on the way, in order.
pub struct Trace {
    pub state: StateView,
    pub reports: Seq<ReportView>,
    pub actions: Seq<ActionView>,
}

/// The run of the loop from `state` over `events`, one step for each event, or
/// none where some event arrives in a state that does not wait for it.
pub open spec fn run(configuration: ConfigurationView, state: StateView, events: Seq<EventView>) -> Option<
    Trace,
>
    decreases events.len(),
{
    if events.len() == 0 {
        Some(Trace { state, reports: Seq::empty(), actions: Seq::empty() })
    } else {
        match step_view(configuration, state, events[0]) {
            None => None,
            Some(step) => match run(configuration, step.state, events.drop_first()) {
                None => None,
                Some(then) => Some(
                    Trace {
                        state: then.state,
                        reports: step.reports + then.reports,
                        actions: seq![step.action] + then.actions,
                    },
                ),
            },
        }
    }
}

/// The namespaces of a cycle, in the order listed.
pub open spec fn namespaces_of(observed: Seq<Observation>) -> Seq<NamespaceView> {
    Seq::new(observed.len(), |i: int| observed[i].namespace)
}

/// The event that the listing of one namespace's services ends in.
pub open spec fn services_event(observation: Observation) -> EventView {
    match observation.services {
        Some(services) => EventView::ServicesListed(services),
        None => EventView::ServicesFailed,
    }
}

/// The events of the listings of services, one for each namespace.
pub open spec fn services_events(observed: Seq<Observation>) -> Seq<EventView> {
    Seq::new(observed.len(), |i: int| services_event(observed[i]))
}

/// The events of one cycle. `None` stands for a cycle in which the namespaces
/// could not be listed.
pub open spec fn cycle_events(snapshot: Option<Seq<Observation>>) -> Seq<EventView> {
    match snapshot {
        None => seq![EventView::NamespacesFailed],
        Some(observed) => seq![EventView::NamespacesListed(namespaces_of(observed))]
            + services_events(observed),
    }
}

/// The results that one namespace contributes to its cycle. They depend on
/// nothing but the namespace and its own services.
pub open spec fn namespace_reports(observation: Observation) -> Seq<ReportView> {
    match observation.services {
        Some(services) => service_reports(observation.namespace, services),
        None => seq![ReportView::ServicesUnavailable { namespace: observation.namespace.name }],
    }
}

/// The results of all namespaces, each namespace's in turn.
pub open spec fn observed_reports(observed: Seq<Observation>) -> Seq<ReportView>
    decreases observed.len(),
{
    if observed.len() == 0 {
        Seq::empty()
    } else {
        namespace_reports(observed[0]) + observed_reports(observed.drop_first())
    }
}

/// The results of one cycle.
pub open spec fn cycle_reports(snapshot: Option<Seq<Observation>>) -> Seq<ReportView> {
    match snapshot {
        None => seq![ReportView::NamespacesUnavailable],
        Some(observed) => observed_reports(observed),
    }
}

/// The listings of services asked for, one for each namespace, and then the
/// pause.
pub open spec fn listings_then_pause(configuration: ConfigurationView, observed: Seq<Observation>) -> Seq<
    ActionView,
> {
    Seq::new(
        observed.len(),
        |i: int|
            ActionView::ListServices {
                namespace: observed[i].namespace.name,
                selector: configuration.services_selector,
            },
    ) + seq![ActionView::Sleep { duration: configuration.refresh_duration }]
}

/// The actions that the loop asks for in the course of one cycle, after the
/// listing of namespaces that opened it.
pub open spec fn cycle_actions(configuration: ConfigurationView, snapshot: Option<Seq<Observation>>) -> Seq<
    ActionView,
> {
    match snapshot {
        None => seq![ActionView::Sleep { duration: configuration.refresh_duration }],
        Some(observed) => listings_then_pause(configuration, observed),
    }
}

/// The trace of one whole cycle.
pub open spec fn cycle_trace(configuration: ConfigurationView, snapshot: Option<Seq<Observation>>) -> Trace {
    Trace {
        state: StateView::Sleeping,
        reports: cycle_reports(snapshot),
        actions: cycle_actions(configuration, snapshot),
    }
}

/// The run of the loop over one cycle, from the state that awaits the
/// namespaces.
pub open spec fn cycle_run(configuration: ConfigurationView, snapshot: Option<Seq<Observation>>) -> Option<
    Trace,
> {
    run(configuration, StateView::FetchingNamespaces, cycle_events(snapshot))
}

/// The events of two cycles with the end of the pause between them.
pub open spec fn two_cycles(first: Option<Seq<Observation>>, second: Option<Seq<Observation>>) -> Seq<
    EventView,
> {
    cycle_events(first) + (seq![EventView::Woke] + cycle_events(second))
}

/// The run of the loop over two cycles in a row, with the end of the pause
/// between them.
pub open spec fn two_cycle_run(
    configuration: ConfigurationView,
    first: Option<Seq<Observation>>,
    second: Option<Seq<Observation>>,
) -> Option<Trace> {
    run(configuration, StateView::FetchingNamespaces, two_cycles(first, second))
}

/// A run over two stretches of events is the run over the first, continued by
/// the run over the second from the state that the first reached.
pub proof fn lemma_run_continues(
    configuration: ConfigurationView,
    state: StateView,
    first: Seq<EventView>,
    second: Seq<EventView>,
)
    requires
        run(configuration, state, first) is Some,
    ensures
        run(configuration, state, first + second) == match run(
            configuration,
            run(configuration, state, first).unwrap().state,
            second,
        ) {
            None => None,
            Some(then) => Some(
                Trace {
                    state: then.state,
                    reports: run(configuration, state, first).unwrap().reports + then.reports,
                    actions: run(configuration, state, first).unwrap().actions + then.actions,
                },
            ),
        },
    decreases first.len(),
{
    let begun = run(configuration, state, first).unwrap();
    if first.len() == 0 {
        assert(first + second =~= second);
    } else {
        let step = step_view(configuration, state, first[0]).unwrap();
        let rest = run(configuration, step.state, first.drop_first()).unwrap();
        assert((first + second).drop_first() =~= first.drop_first() + second);
        lemma_run_continues(configuration, step.state, first.drop_first(), second);
        match run(configuration, rest.state, second) {
            None => {},
            Some(then) => {
                assert(step.reports + (rest.reports + then.reports) =~= begun.reports
                    + then.reports);
                assert(seq![step.action] + (rest.actions + then.actions) =~= begun.actions
                    + then.actions);
            },
        }
    }
}

/// Once the services of the first namespace are awaited, the listings of
/// services of all namespaces lead to the pause, with each namespace's results
/// in turn.
proof fn lemma_services_phase(configuration: ConfigurationView, observed: Seq<Observation>)
    requires
        observed.len() > 0,
    ensures
        run(
            configuration,
            StateView::FetchingServices {
                current: observed[0].namespace,
                rest: namespaces_of(observed.drop_first()),
            },
            services_events(observed),
        ) == Some(
            Trace {
                state: StateView::Sleeping,
                reports: observed_reports(observed),
                actions: listings_then_pause(configuration, observed.drop_first()),
            },
        ),
    decreases observed.len(),
{
    let events = services_events(observed);
    let later = observed.drop_first();
    let step = next_step(configuration, namespace_reports(observed[0]), namespaces_of(later));
    assert(events.drop_first() =~= services_events(later));
    if later.len() == 0 {
        assert(run(configuration, step.state, events.drop_first()) == Some(
            Trace { state: StateView::Sleeping, reports: Seq::empty(), actions: Seq::empty() },
        ));
    } else {
        assert(namespaces_of(later).drop_first() =~= namespaces_of(later.drop_first()));
        lemma_services_phase(configuration, later);
        assert(seq![step.action] + listings_then_pause(configuration, later.drop_first())
            =~= listings_then_pause(configuration, later));
    }
}

/// One cycle, from the listing of namespaces to the pause: the loop accepts
/// every event of the cycle, reports exactly one result for each service of
/// each namespace whose services were listed, in the order of the listings,
/// asks for the services of each namespace in turn, and ends in the pause.
pub proof fn lemma_cycle(configuration: ConfigurationView, snapshot: Option<Seq<Observation>>)
    ensures
        cycle_run(configuration, snapshot) == Some(cycle_trace(configuration, snapshot)),
{
    let events = cycle_events(snapshot);
    match snapshot {
        None => {
            let step = next_step(
                configuration,
                seq![ReportView::NamespacesUnavailable],
                Seq::empty(),
            );
            assert(run(configuration, step.state, events.drop_first()) == Some(
                Trace { state: StateView::Sleeping, reports: Seq::empty(), actions: Seq::empty() },
            ));
        },
        Some(observed) => {
            let step = next_step(configuration, Seq::empty(), namespaces_of(observed));
            assert(events.drop_first() =~= services_events(observed));
            if observed.len() == 0 {
                assert(run(configuration, step.state, events.drop_first()) == Some(
                    Trace {
                        state: StateView::Sleeping,
                        reports: Seq::empty(),
                        actions: Seq::empty(),
                    },
                ));
            } else {
                assert(namespaces_of(observed).drop_first() =~= namespaces_of(
                    observed.drop_first(),
                ));
                lemma_services_phase(configuration, observed);
                assert(seq![step.action] + listings_then_pause(
                    configuration,
                    observed.drop_first(),
                ) =~= cycle_actions(configuration, snapshot));
            }
        },
    }
}

/// Nothing is carried from one cycle into the next: whatever the first cycle
/// observed, the second reports what a first cycle would report of the same
/// observations.
pub proof fn lemma_cycles_are_independent(
    configuration: ConfigurationView,
    first: Option<Seq<Observation>>,
    second: Option<Seq<Observation>>,
)
    ensures
        two_cycle_run(configuration, first, second) == Some(
            Trace {
                state: StateView::Sleeping,
                reports: cycle_reports(first) + cycle_reports(second),
                actions: cycle_actions(configuration, first) + (seq![
                    first_step(configuration).action,
                ] + cycle_actions(configuration, second)),
            },
        ),
{
    let wake = seq![EventView::Woke] + cycle_events(second);
    lemma_cycle(configuration, first);
    lemma_cycle(configuration, second);
    lemma_run_continues(
        configuration,
        StateView::FetchingNamespaces,
        cycle_events(first),
        wake,
    );
    assert(wake.drop_first() =~= cycle_events(second));
}

/// Two consecutive cycles that observe the same report the same: what the run
/// over both reports is what the run over one reports, twice over.
pub proof fn lemma_unchanged_snapshot_same_reports(
    configuration: ConfigurationView,
    snapshot: Option<Seq<Observation>>,
)
    ensures
        cycle_run(configuration, snapshot) is Some,
        two_cycle_run(configuration, snapshot, snapshot) is Some,
        two_cycle_run(configuration, snapshot, snapshot).unwrap().reports == cycle_run(
            configuration,
            snapshot,
        ).unwrap().reports + cycle_run(configuration, snapshot).unwrap().reports,
{
    lemma_cycle(configuration, snapshot);
    lemma_cycles_are_independent(configuration, snapshot, snapshot);
}

/// The number of results that the namespaces before position `at` contribute.
pub open spec fn reports_before(observed: Seq<Observation>, at: int) -> int {
    observed_reports(observed.take(at)).len() as int
}

/// The results of a cycle are those of the namespaces before a given one, then
/// that namespace's own, then those of the namespaces after it.
proof fn lemma_reports_split(observed: Seq<Observation>, at: int)
    requires
        0 <= at < observed.len(),
    ensures
        observed_reports(observed) == observed_reports(observed.take(at)) + namespace_reports(
            observed[at],
        ) + observed_reports(observed.skip(at + 1)),
    decreases at,
{
    if at > 0 {
        let later = observed.drop_first();
        lemma_reports_split(later, at - 1);
        assert(observed.take(at).drop_first() =~= later.take(at - 1));
        assert(later.skip(at) =~= observed.skip(at + 1));
    }
}

/// A namespace whose services were listed has every one of them resolved in its
/// cycle, from its own annotations and theirs, whatever became of the listings
/// of the other namespaces: its results stand in the cycle's results as one
/// stretch, after those of the namespaces before it.
pub proof fn lemma_failures_are_isolated(
    configuration: ConfigurationView,
    observed: Seq<Observation>,
    at: int,
    services: Seq<ServiceView>,
)
    requires
        0 <= at < observed.len(),
        observed[at].services == Some(services),
    ensures
        cycle_run(configuration, Some(observed)) is Some,
        reports_before(observed, at) + services.len() <= cycle_run(
            configuration,
            Some(observed),
        ).unwrap().reports.len(),
        cycle_run(configuration, Some(observed)).unwrap().reports.subrange(
            reports_before(observed, at),
            reports_before(observed, at) + services.len(),
        ) == service_reports(observed[at].namespace, services),
{
    lemma_cycle(configuration, Some(observed));
    lemma_reports_split(observed, at);
}

/// Every cycle ends in exactly one pause, of the configured length, and asks
/// for none before its end. Of all events only the end of the pause opens the
/// next cycle; a cancellation ends the loop, and nothing else is waited for.
pub proof fn lemma_one_pause_per_cycle(
    configuration: ConfigurationView,
    snapshot: Option<Seq<Observation>>,
    event: EventView,
)
    ensures
        cycle_run(configuration, snapshot) is Some,
        cycle_run(configuration, snapshot).unwrap().state == StateView::Sleeping,
        cycle_run(configuration, snapshot).unwrap().actions.len() > 0,
        cycle_run(configuration, snapshot).unwrap().actions.last() == (ActionView::Sleep {
            duration: configuration.refresh_duration,
        }),
        forall|i: int|
            0 <= i < cycle_run(configuration, snapshot).unwrap().actions.len() - 1 ==> !(
            #[trigger] cycle_run(configuration, snapshot).unwrap().actions[i] is Sleep),
        step_view(configuration, StateView::Sleeping, event) == if event is Woke {
            Some(first_step(configuration))
        } else if event is Cancelled {
            Some(last_step())
        } else {
            None
        },
{
    lemma_cycle(configuration, snapshot);
}

} // verus!
