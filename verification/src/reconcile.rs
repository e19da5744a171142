//! The reconciliation loop as a state machine. The caller performs each
//! [`Action`] and hands the outcome back as an [`Event`]; [`step`] decides what
//! is reported and what is done next.

use crate::cluster::{NamespaceRecord, NamespaceView, ServiceRecord, ServiceView};
use crate::configuration::{ConfigurationView, Selector, SelectorView, SimpleConfiguration};
use crate::resolver::{resolve, resolved_fqdn, text};
use std::time::Duration;
use vstd::prelude::*;

verus! {

/// One result of a cycle.
#[derive(Debug, PartialEq, Eq)]
pub enum Report {
    /// A service that was observed, with its name if it has one.
    Service { namespace: String, service: String, fqdn: Option<String> },
    /// The services of this namespace could not be listed in this cycle.
    ServicesUnavailable { namespace: String },
    /// The namespaces could not be listed: the cycle has no other result.
    NamespacesUnavailable,
}

/// What a [`Report`] stands for in contracts.
pub enum ReportView {
    Service { namespace: Seq<char>, service: Seq<char>, fqdn: Option<Seq<char>> },
    ServicesUnavailable { namespace: Seq<char> },
    NamespacesUnavailable,
}

impl View for Report {
    type V = ReportView;

    open spec fn view(&self) -> ReportView {
        match self {
            Report::Service { namespace, service, fqdn } => ReportView::Service {
                namespace: namespace@,
                service: service@,
                fqdn: text(*fqdn),
            },
            Report::ServicesUnavailable { namespace } => ReportView::ServicesUnavailable {
                namespace: namespace@,
            },
            Report::NamespacesUnavailable => ReportView::NamespacesUnavailable,
        }
    }
}

impl DeepView for Report {
    type V = ReportView;

    open spec fn deep_view(&self) -> ReportView {
        self@
    }
}

/// Where the loop stands between two steps: what it is waiting for.
#[derive(Debug)]
pub enum LoopState {
    /// Waiting for the listing of namespaces.
    FetchingNamespaces,
    /// Waiting for the services of `current`; `rest` holds the namespaces that
    /// follow it, in the order of their listing.
    FetchingServices { current: NamespaceRecord, rest: Vec<NamespaceRecord> },
    /// Waiting for the pause between two cycles to end.
    Sleeping,
    /// Cancelled: the loop waits for nothing any more.
    Stopped,
}

/// What a [`LoopState`] stands for in contracts.
pub enum StateView {
    FetchingNamespaces,
    FetchingServices { current: NamespaceView, rest: Seq<NamespaceView> },
    Sleeping,
    Stopped,
}

impl View for LoopState {
    type V = StateView;

    open spec fn view(&self) -> StateView {
        match self {
            LoopState::FetchingNamespaces => StateView::FetchingNamespaces,
            LoopState::FetchingServices { current, rest } => StateView::FetchingServices {
                current: current@,
                rest: rest.deep_view(),
            },
            LoopState::Sleeping => StateView::Sleeping,
            LoopState::Stopped => StateView::Stopped,
        }
    }
}

/// What the caller observed when it performed the last action.
#[derive(Debug)]
pub enum Event {
    /// The namespaces, in the order of the listing.
    NamespacesListed(Vec<NamespaceRecord>),
    /// The listing of namespaces failed.
    NamespacesFailed,
    /// The services of the namespace asked for, in the order of the listing.
    ServicesListed(Vec<ServiceRecord>),
    /// The listing of services failed.
    ServicesFailed,
    /// The pause is over.
    Woke,
    /// The loop was cancelled from outside while the action was under way.
    Cancelled,
}

/// What an [`Event`] stands for in contracts.
pub enum EventView {
    NamespacesListed(Seq<NamespaceView>),
    NamespacesFailed,
    ServicesListed(Seq<ServiceView>),
    ServicesFailed,
    Woke,
    Cancelled,
}

impl View for Event {
    type V = EventView;

    open spec fn view(&self) -> EventView {
        match self {
            Event::NamespacesListed(namespaces) => EventView::NamespacesListed(
                namespaces.deep_view(),
            ),
            Event::NamespacesFailed => EventView::NamespacesFailed,
            Event::ServicesListed(services) => EventView::ServicesListed(services.deep_view()),
            Event::ServicesFailed => EventView::ServicesFailed,
            Event::Woke => EventView::Woke,
            Event::Cancelled => EventView::Cancelled,
        }
    }
}

/// What the caller is to do next.
#[derive(Debug, PartialEq)]
pub enum Action {
    /// List the namespaces that the selector lets through.
    ListNamespaces { selector: Selector },
    /// List the services of the namespace that the selector lets through.
    ListServices { namespace: String, selector: Selector },
    /// Pause for this long.
    Sleep { duration: Duration },
    /// Leave the loop.
    Stop,
}

/// What an [`Action`] stands for in contracts.
pub enum ActionView {
    ListNamespaces { selector: SelectorView },
    ListServices { namespace: Seq<char>, selector: SelectorView },
    Sleep { duration: Duration },
    Stop,
}

impl View for Action {
    type V = ActionView;

    open spec fn view(&self) -> ActionView {
        match self {
            Action::ListNamespaces { selector } => ActionView::ListNamespaces {
                selector: selector@,
            },
            Action::ListServices { namespace, selector } => ActionView::ListServices {
                namespace: namespace@,
                selector: selector@,
            },
            Action::Sleep { duration } => ActionView::Sleep { duration: *duration },
            Action::Stop => ActionView::Stop,
        }
    }
}

/// The outcome of one step: the state to continue from, the results to emit,
/// in this order, and the action to perform.
#[derive(Debug)]
pub struct Step {
    pub state: LoopState,
    pub reports: Vec<Report>,
    pub action: Action,
}

/// What a [`Step`] stands for in contracts.
pub struct StepView {
    pub state: StateView,
    pub reports: Seq<ReportView>,
    pub action: ActionView,
}

impl View for Step {
    type V = StepView;

    open spec fn view(&self) -> StepView {
        StepView { state: self.state@, reports: self.reports.deep_view(), action: self.action@ }
    }
}

/// An event that the state it arrived in does not wait for. Both are handed
/// back as they were.
#[derive(Debug)]
pub struct Unexpected {
    pub state: LoopState,
    pub event: Event,
}

/// The results for the services of one namespace: one for each service, in the
/// order of the listing, each with the name that the annotations of the service
/// and of the namespace resolve to.
pub open spec fn service_reports(namespace: NamespaceView, services: Seq<ServiceView>) -> Seq<
    ReportView,
> {
    Seq::new(
        services.len(),
        |i: int|
            ReportView::Service {
                namespace: namespace.name,
                service: services[i].name,
                fqdn: resolved_fqdn(namespace.annotations, services[i].annotations),
            },
    )
}

/// The step that starts a cycle: nothing to report, the namespaces to list.
pub open spec fn first_step(configuration: ConfigurationView) -> StepView {
    StepView {
        state: StateView::FetchingNamespaces,
        reports: Seq::empty(),
        action: ActionView::ListNamespaces { selector: configuration.namespaces_selector },
    }
}

/// The step that follows the work on one namespace, or the listing of the
/// namespaces: the next namespace's services are asked for, or, where no
/// namespace is left, the cycle ends with the configured pause.
pub open spec fn next_step(
    configuration: ConfigurationView,
    reports: Seq<ReportView>,
    pending: Seq<NamespaceView>,
) -> StepView {
    if pending.len() == 0 {
        StepView {
            state: StateView::Sleeping,
            reports,
            action: ActionView::Sleep { duration: configuration.refresh_duration },
        }
    } else {
        StepView {
            state: StateView::FetchingServices { current: pending[0], rest: pending.drop_first() },
            reports,
            action: ActionView::ListServices {
                namespace: pending[0].name,
                selector: configuration.services_selector,
            },
        }
    }
}

/// The step that ends the loop: nothing more is reported or listed.
pub open spec fn last_step() -> StepView {
    StepView { state: StateView::Stopped, reports: Seq::empty(), action: ActionView::Stop }
}

/// The step that the loop takes on `event` in `state`, or none where the state
/// does not wait for the event.
pub open spec fn step_view(
    configuration: ConfigurationView,
    state: StateView,
    event: EventView,
) -> Option<StepView> {
    match (state, event) {
        (StateView::Stopped, _) => None,
        (_, EventView::Cancelled) => Some(last_step()),
        (StateView::FetchingNamespaces, EventView::NamespacesListed(namespaces)) => Some(
            next_step(configuration, Seq::empty(), namespaces),
        ),
        (StateView::FetchingNamespaces, EventView::NamespacesFailed) => Some(
            next_step(configuration, seq![ReportView::NamespacesUnavailable], Seq::empty()),
        ),
        (StateView::FetchingServices { current, rest }, EventView::ServicesListed(services)) => Some(
            next_step(configuration, service_reports(current, services), rest),
        ),
        (StateView::FetchingServices { current, rest }, EventView::ServicesFailed) => Some(
            next_step(
                configuration,
                seq![ReportView::ServicesUnavailable { namespace: current.name }],
                rest,
            ),
        ),
        (StateView::Sleeping, EventView::Woke) => Some(first_step(configuration)),
        _ => None,
    }
}

/// Resolves every service of one namespace, in the order given.
pub fn resolve_services(namespace: &NamespaceRecord, services: &Vec<ServiceRecord>) -> (reports:
    Vec<Report>)
    ensures
        reports.deep_view() == service_reports(namespace@, services.deep_view()),
{
    let mut reports: Vec<Report> = Vec::new();
    let mut i: usize = 0;
    while i < services.len()
        invariant
            i <= services@.len(),
            reports@.len() == i,
            forall|j: int|
                0 <= j < i ==> (#[trigger] reports@[j])@ == service_reports(
                    namespace@,
                    services.deep_view(),
                )[j],
        decreases services@.len() - i,
    {
        let service = &services[i];
        let fqdn = resolve(&namespace.annotations, &service.annotations);
        reports.push(
            Report::Service { namespace: namespace.name.clone(), service: service.name.clone(), fqdn },
        );
        i += 1;
    }
    reports
}

/// Starts the loop: the state to begin from and the first action.
pub fn start(configuration: &SimpleConfiguration) -> (step: Step)
    ensures
        step@ == first_step(configuration@),
{
    let step = Step {
        state: LoopState::FetchingNamespaces,
        reports: Vec::new(),
        action: Action::ListNamespaces { selector: configuration.namespaces_selector.clone() },
    };
    assert(step.reports.deep_view() =~= Seq::empty());
    step
}

fn proceed(configuration: &SimpleConfiguration, reports: Vec<Report>, pending: Vec<NamespaceRecord>) -> (step:
    Step)
    ensures
        step@ == next_step(configuration@, reports.deep_view(), pending.deep_view()),
{
    let mut pending = pending;
    if pending.len() == 0 {
        Step {
            state: LoopState::Sleeping,
            reports,
            action: Action::Sleep { duration: configuration.refresh_duration },
        }
    } else {
        let ghost all = pending.deep_view();
        let current = pending.remove(0);
        assert(pending.deep_view() =~= all.drop_first());
        let action = Action::ListServices {
            namespace: current.name.clone(),
            selector: configuration.services_selector.clone(),
        };
        Step { state: LoopState::FetchingServices { current, rest: pending }, reports, action }
    }
}

/// Takes one step of the loop.
///
/// The listing of namespaces opens a cycle: its namespaces are worked on one
/// after the other, in the order listed. Each listing of services yields one
/// result for every service, in the order listed; a listing that failed yields
/// one result that says so, and the cycle goes on with the next namespace. A
/// failed listing of namespaces ends the cycle with that one result. After the
/// last namespace the loop pauses for the configured time, and the end of the
/// pause opens the next cycle. A cancellation is accepted wherever the loop
/// waits: what is left of the cycle is abandoned without a result, and the loop
/// stops for good. An event that the state does not wait for changes nothing
/// and is handed back.
pub fn step(configuration: &SimpleConfiguration, state: LoopState, event: Event) -> (outcome:
    Result<Step, Unexpected>)
    ensures
        match outcome {
            Ok(step) => step_view(configuration@, state@, event@) == Some(step@),
            Err(unexpected) => step_view(configuration@, state@, event@) is None
                && unexpected.state@ == state@ && unexpected.event@ == event@,
        },
{
    match (state, event) {
        (LoopState::Stopped, event) => Err(Unexpected { state: LoopState::Stopped, event }),
        (_, Event::Cancelled) => {
            let step = Step { state: LoopState::Stopped, reports: Vec::new(), action: Action::Stop };
            assert(step.reports.deep_view() =~= Seq::empty());
            Ok(step)
        },
        (LoopState::FetchingNamespaces, Event::NamespacesListed(namespaces)) => {
            let reports: Vec<Report> = Vec::new();
            assert(reports.deep_view() =~= Seq::empty());
            Ok(proceed(configuration, reports, namespaces))
        },
        (LoopState::FetchingNamespaces, Event::NamespacesFailed) => {
            let mut reports: Vec<Report> = Vec::new();
            reports.push(Report::NamespacesUnavailable);
            assert(reports.deep_view() =~= seq![ReportView::NamespacesUnavailable]);
            let pending: Vec<NamespaceRecord> = Vec::new();
            Ok(proceed(configuration, reports, pending))
        },
        (LoopState::FetchingServices { current, rest }, Event::ServicesListed(services)) => {
            let reports = resolve_services(&current, &services);
            Ok(proceed(configuration, reports, rest))
        },
        (LoopState::FetchingServices { current, rest }, Event::ServicesFailed) => {
            let mut reports: Vec<Report> = Vec::new();
            reports.push(Report::ServicesUnavailable { namespace: current.name });
            assert(reports.deep_view() =~= seq![
                ReportView::ServicesUnavailable { namespace: current.name@ },
            ]);
            Ok(proceed(configuration, reports, rest))
        },
        (LoopState::Sleeping, Event::Woke) => Ok(start(configuration)),
        (state, event) => Err(Unexpected { state, event }),
    }
}

} // verus!
