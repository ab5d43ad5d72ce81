//! The decisions of the registration flow, step by step.
//!
//! The flow is driven from outside: the runner loads the manifest, binds the
//! listener, waits on the handoff, sends the exchange call and writes the
//! environment file, and after each piece of outside work hands the outcome
//! back as an event. The library decides, from the current phase and the
//! event, which phase comes next and which action to perform. Any failure in
//! manifest loading, bind, exchange or persistence aborts the run at once; a
//! failed exchange never leads to a persist action.

use vstd::prelude::*;

use crate::app::{App, AppView};

verus! {

/// The two operating modes of a run.
#[derive(Clone, Copy, PartialEq, Eq, Structural, Debug)]
pub enum Mode {
    /// Wait for the callback without a deadline, exchange the code and
    /// persist the credentials.
    InteractiveExchange,
    /// Advertise the listener, wait for a callback or a fixed idle window,
    /// and finish without exchanging.
    Headless,
}

/// Where the run stands.
#[derive(Clone, Copy, PartialEq, Eq, Structural, Debug)]
pub enum Phase {
    /// The manifest is being loaded.
    LoadingManifest,
    /// The listener is being bound.
    Binding,
    /// The listener is live; the run waits on the handoff.
    AwaitingCallback,
    /// The one-time code is being exchanged.
    Exchanging,
    /// The credentials are being written to the environment file.
    Persisting,
    /// The run ended successfully.
    Completed,
    /// The run was aborted.
    Failed,
}

/// The stage a failure names.
#[derive(Clone, Copy, PartialEq, Eq, Structural, Debug)]
pub enum Stage {
    /// The manifest was missing, unreadable or malformed.
    ManifestLoad,
    /// The listener could not bind.
    Bind,
    /// The remote service answered the exchange with a non-success response.
    Exchange,
    /// The environment file could not be read or written.
    Persist,
}

/// What the outside work reported.
pub enum Event {
    /// The manifest was loaded and serialized.
    ManifestLoaded(String),
    /// The manifest could not be loaded; the detail says why.
    ManifestFailed(String),
    /// The listener is bound and accepting.
    ServerBound,
    /// The listener could not bind; the detail says why.
    BindFailed(String),
    /// The handoff delivered the one-time code.
    CodeReceived(String),
    /// The idle window of a headless run elapsed without a callback.
    IdleTimeout,
    /// The exchange call returned the credentials.
    ExchangeSucceeded(App),
    /// The exchange call failed; the detail carries the response body.
    ExchangeFailed(String),
    /// The environment file was written.
    PersistSucceeded,
    /// The environment file could not be written; the detail says why.
    PersistFailed(String),
}

/// Mathematical view of [`Event`].
pub enum EventView {
    /// The manifest was loaded and serialized.
    ManifestLoaded(Seq<char>),
    /// The manifest could not be loaded.
    ManifestFailed(Seq<char>),
    /// The listener is bound and accepting.
    ServerBound,
    /// The listener could not bind.
    BindFailed(Seq<char>),
    /// The handoff delivered the one-time code.
    CodeReceived(Seq<char>),
    /// The idle window elapsed.
    IdleTimeout,
    /// The exchange call returned the credentials.
    ExchangeSucceeded(AppView),
    /// The exchange call failed.
    ExchangeFailed(Seq<char>),
    /// The environment file was written.
    PersistSucceeded,
    /// The environment file could not be written.
    PersistFailed(Seq<char>),
}

impl View for Event {
    type V = EventView;

    open spec fn view(&self) -> EventView {
        match self {
            Event::ManifestLoaded(m) => EventView::ManifestLoaded(m@),
            Event::ManifestFailed(d) => EventView::ManifestFailed(d@),
            Event::ServerBound => EventView::ServerBound,
            Event::BindFailed(d) => EventView::BindFailed(d@),
            Event::CodeReceived(c) => EventView::CodeReceived(c@),
            Event::IdleTimeout => EventView::IdleTimeout,
            Event::ExchangeSucceeded(a) => EventView::ExchangeSucceeded(a@),
            Event::ExchangeFailed(d) => EventView::ExchangeFailed(d@),
            Event::PersistSucceeded => EventView::PersistSucceeded,
            Event::PersistFailed(d) => EventView::PersistFailed(d@),
        }
    }
}

/// What the runner is told to do next.
pub enum Action {
    /// Bind the listener and report back.
    StartServer,
    /// Present the registration entry point: open the browser when the flag
    /// is set, print the address otherwise; then wait on the handoff.
    Advertise(bool),
    /// Send the exchange call for this code and report back.
    ExchangeCode(String),
    /// Write these credentials to the environment file and report back.
    PersistCredentials(App),
    /// The run is over; exit successfully.
    Finish,
    /// The run is aborted at this stage with this detail; exit with an error.
    Abort(Stage, String),
    /// The event does not belong to this phase; do nothing.
    Ignore,
}

/// Mathematical view of [`Action`].
pub enum ActionView {
    /// Bind the listener.
    StartServer,
    /// Present the registration entry point.
    Advertise(bool),
    /// Send the exchange call.
    ExchangeCode(Seq<char>),
    /// Write the credentials.
    PersistCredentials(AppView),
    /// Exit successfully.
    Finish,
    /// Exit with an error.
    Abort(Stage, Seq<char>),
    /// Do nothing.
    Ignore,
}

impl View for Action {
    type V = ActionView;

    open spec fn view(&self) -> ActionView {
        match self {
            Action::StartServer => ActionView::StartServer,
            Action::Advertise(b) => ActionView::Advertise(*b),
            Action::ExchangeCode(c) => ActionView::ExchangeCode(c@),
            Action::PersistCredentials(a) => ActionView::PersistCredentials(a@),
            Action::Finish => ActionView::Finish,
            Action::Abort(st, d) => ActionView::Abort(*st, d@),
            Action::Ignore => ActionView::Ignore,
        }
    }
}

/// The decision for one event in one phase.
///
/// Failures abort at once; a finished or aborted run reacts to nothing; an
/// event that does not belong to the phase changes nothing. The browser is
/// only opened for an interactive exchange run; a headless run prints the
/// address, takes a callback or the idle window's end as its cue, and
/// finishes without exchanging.
pub open spec fn spec_step(phase: Phase, mode: Mode, interactive: bool, ev: EventView) -> (
    Phase,
    ActionView,
) {
    match (phase, ev) {
        (Phase::LoadingManifest, EventView::ManifestLoaded(_)) => (
            Phase::Binding,
            ActionView::StartServer,
        ),
        (Phase::LoadingManifest, EventView::ManifestFailed(d)) => (
            Phase::Failed,
            ActionView::Abort(Stage::ManifestLoad, d),
        ),
        (Phase::Binding, EventView::ServerBound) => (
            Phase::AwaitingCallback,
            ActionView::Advertise(mode is InteractiveExchange && interactive),
        ),
        (Phase::Binding, EventView::BindFailed(d)) => (
            Phase::Failed,
            ActionView::Abort(Stage::Bind, d),
        ),
        (Phase::AwaitingCallback, EventView::CodeReceived(c)) => {
            if mode is InteractiveExchange {
                (Phase::Exchanging, ActionView::ExchangeCode(c))
            } else {
                (Phase::Completed, ActionView::Finish)
            }
        },
        (Phase::AwaitingCallback, EventView::IdleTimeout) => {
            if mode is Headless {
                (Phase::Completed, ActionView::Finish)
            } else {
                (Phase::AwaitingCallback, ActionView::Ignore)
            }
        },
        (Phase::Exchanging, EventView::ExchangeSucceeded(a)) => (
            Phase::Persisting,
            ActionView::PersistCredentials(a),
        ),
        (Phase::Exchanging, EventView::ExchangeFailed(d)) => (
            Phase::Failed,
            ActionView::Abort(Stage::Exchange, d),
        ),
        (Phase::Persisting, EventView::PersistSucceeded) => (Phase::Completed, ActionView::Finish),
        (Phase::Persisting, EventView::PersistFailed(d)) => (
            Phase::Failed,
            ActionView::Abort(Stage::Persist, d),
        ),
        _ => (phase, ActionView::Ignore),
    }
}

/// Decide the next phase and action for one event.
pub fn step(phase: Phase, mode: Mode, interactive: bool, event: Event) -> (r: (Phase, Action))
    ensures
        r.0 == spec_step(phase, mode, interactive, event@).0,
        r.1@ == spec_step(phase, mode, interactive, event@).1,
{
    match (phase, event) {
        (Phase::LoadingManifest, Event::ManifestLoaded(_)) => (Phase::Binding, Action::StartServer),
        (Phase::LoadingManifest, Event::ManifestFailed(d)) => (
            Phase::Failed,
            Action::Abort(Stage::ManifestLoad, d),
        ),
        (Phase::Binding, Event::ServerBound) => {
            let open_browser = match mode {
                Mode::InteractiveExchange => interactive,
                Mode::Headless => false,
            };
            (Phase::AwaitingCallback, Action::Advertise(open_browser))
        },
        (Phase::Binding, Event::BindFailed(d)) => (Phase::Failed, Action::Abort(Stage::Bind, d)),
        (Phase::AwaitingCallback, Event::CodeReceived(c)) => {
            match mode {
                Mode::InteractiveExchange => (Phase::Exchanging, Action::ExchangeCode(c)),
                Mode::Headless => (Phase::Completed, Action::Finish),
            }
        },
        (Phase::AwaitingCallback, Event::IdleTimeout) => {
            match mode {
                Mode::Headless => (Phase::Completed, Action::Finish),
                Mode::InteractiveExchange => (Phase::AwaitingCallback, Action::Ignore),
            }
        },
        (Phase::Exchanging, Event::ExchangeSucceeded(a)) => (
            Phase::Persisting,
            Action::PersistCredentials(a),
        ),
        (Phase::Exchanging, Event::ExchangeFailed(d)) => (
            Phase::Failed,
            Action::Abort(Stage::Exchange, d),
        ),
        (Phase::Persisting, Event::PersistSucceeded) => (Phase::Completed, Action::Finish),
        (Phase::Persisting, Event::PersistFailed(d)) => (
            Phase::Failed,
            Action::Abort(Stage::Persist, d),
        ),
        (ph, _) => (ph, Action::Ignore),
    }
}

/// The phase after a whole sequence of events, in order.
pub open spec fn spec_run_phases(
    phase: Phase,
    mode: Mode,
    interactive: bool,
    evs: Seq<EventView>,
) -> Phase
    decreases evs.len(),
{
    if evs.len() == 0 {
        phase
    } else {
        spec_run_phases(spec_step(phase, mode, interactive, evs[0]).0, mode, interactive,
            evs.drop_first())
    }
}

/// A persist action is only ever decided in the persisting hand-over: right
/// after a successful exchange, and with exactly the credentials the exchange
/// returned. In particular, a failed exchange never leads to a write of the
/// environment file.
pub proof fn lemma_persist_only_after_exchange_success(
    phase: Phase,
    mode: Mode,
    interactive: bool,
    ev: EventView,
)
    ensures
        forall|a: AppView|
            spec_step(phase, mode, interactive, ev).1 == ActionView::PersistCredentials(a) ==> (
            phase is Exchanging && ev == EventView::ExchangeSucceeded(a)),
{
}

/// An aborted run stays aborted: no later event changes the phase or causes
/// any further action.
pub proof fn lemma_failure_is_terminal(mode: Mode, interactive: bool, ev: EventView)
    ensures
        spec_step(Phase::Failed, mode, interactive, ev) == (Phase::Failed, ActionView::Ignore),
        spec_step(Phase::Completed, mode, interactive, ev) == (
            Phase::Completed,
            ActionView::Ignore,
        ),
{
}

/// Over any whole sequence of events, an aborted run never leaves the
/// aborted phase.
pub proof fn lemma_failed_run_stays_failed(mode: Mode, interactive: bool, evs: Seq<EventView>)
    ensures
        spec_run_phases(Phase::Failed, mode, interactive, evs) == Phase::Failed,
    decreases evs.len(),
{
    if evs.len() == 0 {
    } else {
        lemma_failed_run_stays_failed(mode, interactive, evs.drop_first());
    }
}

} // verus!
