//! The startup protocol.
//!
//! Starting the service is a fixed sequence of steps, each gating the next:
//! load the configuration, set up logging, connect to the database, probe
//! it, build the shared state, build the router, bind the socket, serve. A
//! [`Startup`] says how far the process has come. The binary asks it what
//! to do ([`Startup::next_action`]), does it, and reports how it went
//! ([`Startup::advance`]). Once the service serves or has given up, nothing
//! changes any more.

use vstd::prelude::*;

use crate::config::{loaded, ConfigError, ServerConfig, ServerConfigView};
use crate::routes::{health_report, HealthResponseView};

verus! {

/// A step that is still to be done once the configuration is loaded.
#[derive(Clone, Copy, Debug, PartialEq, Eq, Structural)]
pub enum Step {
    InitLogging,
    Connect,
    Probe,
    BuildState,
    BuildRouter,
    Bind,
}

/// Why startup was given up.
#[derive(Clone, Copy, Debug, PartialEq, Eq, Structural)]
pub enum Failure {
    /// The environment holds no database connection string.
    MissingDatabaseUrl,
    /// The database could not be connected to.
    ConnectFailed,
    /// The database was connected to but did not answer the probe.
    ProbeFailed,
    /// The listening socket could not be bound.
    BindFailed,
}

/// How the action that was asked for went.
#[derive(Clone, Copy, Debug, PartialEq, Eq, Structural)]
pub enum Outcome {
    Succeeded,
    Failed,
}

impl Step {
    /// The step that follows this one; none after the socket is bound.
    pub open spec fn following(self) -> Option<Step> {
        match self {
            Step::InitLogging => Some(Step::Connect),
            Step::Connect => Some(Step::Probe),
            Step::Probe => Some(Step::BuildState),
            Step::BuildState => Some(Step::BuildRouter),
            Step::BuildRouter => Some(Step::Bind),
            Step::Bind => None,
        }
    }

    /// The failure that ends startup when this step fails; none for a step
    /// that cannot fail.
    pub open spec fn failure(self) -> Option<Failure> {
        match self {
            Step::Connect => Some(Failure::ConnectFailed),
            Step::Probe => Some(Failure::ProbeFailed),
            Step::Bind => Some(Failure::BindFailed),
            Step::InitLogging | Step::BuildState | Step::BuildRouter => None,
        }
    }

    /// How many steps come before this one once the configuration is
    /// loaded; the place of this step's outcome in a history.
    pub open spec fn position(self) -> int {
        match self {
            Step::InitLogging => 0,
            Step::Connect => 1,
            Step::Probe => 2,
            Step::BuildState => 3,
            Step::BuildRouter => 4,
            Step::Bind => 5,
        }
    }

    fn next(self) -> (step: Option<Step>)
        ensures
            step == self.following(),
    {
        match self {
            Step::InitLogging => Some(Step::Connect),
            Step::Connect => Some(Step::Probe),
            Step::Probe => Some(Step::BuildState),
            Step::BuildState => Some(Step::BuildRouter),
            Step::BuildRouter => Some(Step::Bind),
            Step::Bind => None,
        }
    }

    fn failure_of(self) -> (failure: Option<Failure>)
        ensures
            failure == self.failure(),
    {
        match self {
            Step::Connect => Some(Failure::ConnectFailed),
            Step::Probe => Some(Failure::ProbeFailed),
            Step::Bind => Some(Failure::BindFailed),
            Step::InitLogging | Step::BuildState | Step::BuildRouter => None,
        }
    }
}

impl Failure {
    /// The diagnostic the process ends with.
    pub open spec fn diagnostic(self) -> Seq<char> {
        match self {
            Failure::MissingDatabaseUrl => "DATABASE_URL must be set in .env file"@,
            Failure::ConnectFailed => "Failed to connect to database"@,
            Failure::ProbeFailed => "Failed to ping database"@,
            Failure::BindFailed => "Failed to bind to address"@,
        }
    }

    /// The diagnostic to end the process with.
    pub fn message(&self) -> (text: &'static str)
        ensures
            text@ == self.diagnostic(),
    {
        match self {
            Failure::MissingDatabaseUrl => "DATABASE_URL must be set in .env file",
            Failure::ConnectFailed => "Failed to connect to database",
            Failure::ProbeFailed => "Failed to ping database",
            Failure::BindFailed => "Failed to bind to address",
        }
    }
}

/// What the binary is to do next.
#[derive(Clone, Debug, PartialEq, Eq)]
pub enum Action {
    /// Install the process-wide logger.
    InitLogging,
    /// Open the connection pool for this connection string.
    Connect { url: String },
    /// Check that the database answers.
    Probe,
    /// Wrap the connection in the state shared by all handlers.
    BuildState,
    /// Build the router from the route table and wrap the middleware round
    /// it.
    BuildRouter,
    /// Bind the listening socket to this address.
    Bind { address: String },
    /// Accept connections until the process is stopped.
    Serve,
    /// End the process with the failure's diagnostic.
    Abort { failure: Failure },
}

/// Mathematical value of an [`Action`].
pub enum ActionView {
    InitLogging,
    Connect { url: Seq<char> },
    Probe,
    BuildState,
    BuildRouter,
    Bind { address: Seq<char> },
    Serve,
    Abort { failure: Failure },
}

impl View for Action {
    type V = ActionView;

    open spec fn view(&self) -> ActionView {
        match *self {
            Action::InitLogging => ActionView::InitLogging,
            Action::Connect { url } => ActionView::Connect { url: url@ },
            Action::Probe => ActionView::Probe,
            Action::BuildState => ActionView::BuildState,
            Action::BuildRouter => ActionView::BuildRouter,
            Action::Bind { address } => ActionView::Bind { address: address@ },
            Action::Serve => ActionView::Serve,
            Action::Abort { failure } => ActionView::Abort { failure },
        }
    }
}

/// How far the process has come.
#[derive(Clone, Debug, PartialEq, Eq)]
pub enum Startup {
    /// The configuration is loaded and `pending` is the step to do next.
    Starting { pending: Step, config: ServerConfig },
    /// Every step succeeded; the service accepts connections.
    Serving,
    /// A step failed; the process ends.
    Aborted { failure: Failure },
}

/// Mathematical value of a [`Startup`].
pub enum StartupView {
    Starting { pending: Step, config: ServerConfigView },
    Serving,
    Aborted { failure: Failure },
}

impl View for Startup {
    type V = StartupView;

    open spec fn view(&self) -> StartupView {
        match *self {
            Startup::Starting { pending, config } => StartupView::Starting {
                pending,
                config: config@,
            },
            Startup::Serving => StartupView::Serving,
            Startup::Aborted { failure } => StartupView::Aborted { failure },
        }
    }
}

/// Where startup stands once the environment has been read.
pub open spec fn started(
    database_url: Option<String>,
    server_host: Option<String>,
    server_port: Option<String>,
) -> StartupView {
    match loaded(database_url, server_host, server_port) {
        Ok(config) => StartupView::Starting { pending: Step::InitLogging, config },
        Err(_) => StartupView::Aborted { failure: Failure::MissingDatabaseUrl },
    }
}

impl StartupView {
    /// What is to be done in this state.
    pub open spec fn action(self) -> ActionView {
        match self {
            StartupView::Starting { pending, config } => match pending {
                Step::InitLogging => ActionView::InitLogging,
                Step::Connect => ActionView::Connect { url: config.database_url },
                Step::Probe => ActionView::Probe,
                Step::BuildState => ActionView::BuildState,
                Step::BuildRouter => ActionView::BuildRouter,
                Step::Bind => ActionView::Bind { address: config.listen_address() },
            },
            StartupView::Serving => ActionView::Serve,
            StartupView::Aborted { failure } => ActionView::Abort { failure },
        }
    }

    /// The state after the pending action ended with `outcome`.
    ///
    /// A failed connect, probe or bind ends startup. Any other step counts
    /// as done whatever is reported, and the last one leads to serving. A
    /// service that serves or has given up stays as it is.
    pub open spec fn advanced(self, outcome: Outcome) -> StartupView {
        match self {
            StartupView::Starting { pending, config } => {
                if outcome == Outcome::Failed && pending.failure() is Some {
                    StartupView::Aborted { failure: pending.failure()->0 }
                } else {
                    match pending.following() {
                        Some(step) => StartupView::Starting { pending: step, config },
                        None => StartupView::Serving,
                    }
                }
            },
            StartupView::Serving => self,
            StartupView::Aborted { .. } => self,
        }
    }

    /// The state after a whole history of outcomes, oldest first.
    pub open spec fn run(self, outcomes: Seq<Outcome>) -> StartupView
        decreases outcomes.len(),
    {
        if outcomes.len() == 0 {
            self
        } else {
            self.run(outcomes.drop_last()).advanced(outcomes.last())
        }
    }

    /// Whether nothing can change any more.
    pub open spec fn is_final(self) -> bool {
        self is Serving || self is Aborted
    }
}

impl Startup {
    /// Enters the protocol with the values found in the environment.
    ///
    /// Without a database connection string startup is given up at once;
    /// otherwise logging is the first thing to set up.
    pub fn begin(
        database_url: Option<String>,
        server_host: Option<String>,
        server_port: Option<String>,
    ) -> (startup: Startup)
        ensures
            startup@ == started(database_url, server_host, server_port),
    {
        match ServerConfig::load(database_url, server_host, server_port) {
            Ok(config) => Startup::Starting { pending: Step::InitLogging, config },
            Err(_) => Startup::Aborted { failure: Failure::MissingDatabaseUrl },
        }
    }

    /// What the binary is to do in this state.
    pub fn next_action(&self) -> (action: Action)
        ensures
            action@ == self@.action(),
    {
        match self {
            Startup::Starting { pending, config } => match pending {
                Step::InitLogging => Action::InitLogging,
                Step::Connect => Action::Connect { url: config.database_url.clone() },
                Step::Probe => Action::Probe,
                Step::BuildState => Action::BuildState,
                Step::BuildRouter => Action::BuildRouter,
                Step::Bind => Action::Bind { address: config.listen_address() },
            },
            Startup::Serving => Action::Serve,
            Startup::Aborted { failure } => Action::Abort { failure: *failure },
        }
    }

    /// Takes note of how the action asked for by [`Startup::next_action`]
    /// went.
    pub fn advance(self, outcome: Outcome) -> (startup: Startup)
        ensures
            startup@ == self@.advanced(outcome),
    {
        match self {
            Startup::Starting { pending, config } => {
                match (outcome, pending.failure_of()) {
                    (Outcome::Failed, Some(failure)) => Startup::Aborted { failure },
                    _ => match pending.next() {
                        Some(step) => Startup::Starting { pending: step, config },
                        None => Startup::Serving,
                    },
                }
            },
            Startup::Serving => Startup::Serving,
            Startup::Aborted { failure } => Startup::Aborted { failure },
        }
    }
}

/// Whether `outcomes` reports a success for `step`.
pub open spec fn passed(outcomes: Seq<Outcome>, step: Step) -> bool {
    step.position() < outcomes.len() && outcomes[step.position()] == Outcome::Succeeded
}

/// Whether a history covers all steps and reports a success for each step
/// that can fail: the database was connected to, it answered the probe, and
/// the socket was bound.
pub open spec fn every_gate_passed(outcomes: Seq<Outcome>) -> bool {
    &&& outcomes.len() >= 6
    &&& passed(outcomes, Step::Connect)
    &&& passed(outcomes, Step::Probe)
    &&& passed(outcomes, Step::Bind)
}

/// Whether one of the first `count` outcomes reports a failure for `step`.
spec fn failed_within(outcomes: Seq<Outcome>, step: Step, count: int) -> bool {
    step.position() < count && outcomes[step.position()] == Outcome::Failed
}

/// The step with the given position.
spec fn step_at(position: int) -> Step {
    if position == 0 {
        Step::InitLogging
    } else if position == 1 {
        Step::Connect
    } else if position == 2 {
        Step::Probe
    } else if position == 3 {
        Step::BuildState
    } else if position == 4 {
        Step::BuildRouter
    } else {
        Step::Bind
    }
}

/// Running a history is running its earlier part and then its later part.
proof fn lemma_run_concat(state: StartupView, earlier: Seq<Outcome>, later: Seq<Outcome>)
    ensures
        state.run(earlier + later) == state.run(earlier).run(later),
    decreases later.len(),
{
    if later.len() == 0 {
        assert(earlier + later =~= earlier);
    } else {
        assert((earlier + later).drop_last() =~= earlier + later.drop_last());
        lemma_run_concat(state, earlier, later.drop_last());
    }
}

/// Where a fresh start stands after `count` outcomes of `outcomes`: given
/// up at the first gate reported as failed, else serving if all six steps
/// are done, else waiting for the step at position `count`.
spec fn standing(config: ServerConfigView, outcomes: Seq<Outcome>, count: int) -> StartupView {
    if failed_within(outcomes, Step::Connect, count) {
        StartupView::Aborted { failure: Failure::ConnectFailed }
    } else if failed_within(outcomes, Step::Probe, count) {
        StartupView::Aborted { failure: Failure::ProbeFailed }
    } else if failed_within(outcomes, Step::Bind, count) {
        StartupView::Aborted { failure: Failure::BindFailed }
    } else if count >= 6 {
        StartupView::Serving
    } else {
        StartupView::Starting { pending: step_at(count), config }
    }
}

/// A fresh start stands where [`standing`] says after the first `count`
/// outcomes of a history, for up to six of them.
proof fn lemma_prefix(config: ServerConfigView, outcomes: Seq<Outcome>, count: int)
    requires
        0 <= count <= outcomes.len(),
        count <= 6,
    ensures
        (StartupView::Starting { pending: Step::InitLogging, config }).run(outcomes.take(count))
            == standing(config, outcomes, count),
    decreases count,
{
    if count == 0 {
        assert(outcomes.take(0).len() == 0);
    } else {
        lemma_prefix(config, outcomes, count - 1);
        assert(outcomes.take(count).drop_last() =~= outcomes.take(count - 1));
        assert(outcomes.take(count).last() == outcomes[count - 1]);
    }
}

/// A service that serves, and a startup that was given up, stay as they are
/// whatever is reported afterwards.
pub proof fn law_final_states_stay(state: StartupView, outcomes: Seq<Outcome>)
    requires
        state.is_final(),
    ensures
        state.run(outcomes) == state,
    decreases outcomes.len(),
{
    if outcomes.len() > 0 {
        law_final_states_stay(state, outcomes.drop_last());
    }
}

/// A fresh start stands where [`standing`] says after a whole history:
/// what comes after the sixth outcome changes nothing.
proof fn lemma_history(config: ServerConfigView, outcomes: Seq<Outcome>)
    ensures
        (StartupView::Starting { pending: Step::InitLogging, config }).run(outcomes) == standing(
            config,
            outcomes,
            outcomes.len() as int,
        ),
{
    let fresh = StartupView::Starting { pending: Step::InitLogging, config };
    if outcomes.len() <= 6 {
        lemma_prefix(config, outcomes, outcomes.len() as int);
        assert(outcomes.take(outcomes.len() as int) =~= outcomes);
    } else {
        lemma_prefix(config, outcomes, 6);
        lemma_run_concat(fresh, outcomes.take(6), outcomes.skip(6));
        assert(outcomes.take(6) + outcomes.skip(6) =~= outcomes);
        law_final_states_stay(fresh.run(outcomes.take(6)), outcomes.skip(6));
    }
}

/// Without a database connection string the process never serves and is
/// never asked to bind a socket: whatever is reported, it stays given up and
/// the only thing left to do is to end.
pub proof fn law_missing_database_url_never_serves(
    server_host: Option<String>,
    server_port: Option<String>,
    outcomes: Seq<Outcome>,
)
    ensures
        started(None, server_host, server_port).run(outcomes) == (StartupView::Aborted {
            failure: Failure::MissingDatabaseUrl,
        }),
        started(None, server_host, server_port).run(outcomes).action() == (ActionView::Abort {
            failure: Failure::MissingDatabaseUrl,
        }),
{
    law_final_states_stay(started(None, server_host, server_port), outcomes);
}

/// The process serves exactly when the connection string is set and the
/// history covers every step with the connect, the probe and the bind
/// reported as successes. Each of them gates all that follows.
pub proof fn law_serving_iff_every_gate_passed(
    database_url: Option<String>,
    server_host: Option<String>,
    server_port: Option<String>,
    outcomes: Seq<Outcome>,
)
    ensures
        started(database_url, server_host, server_port).run(outcomes) is Serving <==> (
        database_url is Some && every_gate_passed(outcomes)),
{
    let start = started(database_url, server_host, server_port);
    match loaded(database_url, server_host, server_port) {
        Err(_) => {
            law_final_states_stay(start, outcomes);
        },
        Ok(config) => {
            lemma_history(config, outcomes);
        },
    }
}

/// The steps come in their fixed order and each is asked for once: a step
/// is pending exactly when the history holds one outcome for each step
/// before it, and the configuration is then the one that was loaded.
pub proof fn law_steps_come_in_order(
    database_url: Option<String>,
    server_host: Option<String>,
    server_port: Option<String>,
    outcomes: Seq<Outcome>,
)
    requires
        started(database_url, server_host, server_port).run(outcomes) is Starting,
    ensures
        ({
            let reached = started(database_url, server_host, server_port).run(outcomes);
            &&& reached matches StartupView::Starting { pending, config }
            &&& outcomes.len() == pending.position()
            &&& loaded(database_url, server_host, server_port) == Ok::<
                ServerConfigView,
                ConfigError,
            >(config)
        }),
{
    let start = started(database_url, server_host, server_port);
    match loaded(database_url, server_host, server_port) {
        Err(_) => {
            law_final_states_stay(start, outcomes);
        },
        Ok(config) => {
            lemma_history(config, outcomes);
        },
    }
}

/// The socket is bound only after the database answered the probe: when
/// the next thing to do is to bind, the connection string is set, connect
/// and probe were reported as successes, and the address is host and port
/// of the loaded configuration.
pub proof fn law_bind_follows_successful_probe(
    database_url: Option<String>,
    server_host: Option<String>,
    server_port: Option<String>,
    outcomes: Seq<Outcome>,
)
    requires
        started(database_url, server_host, server_port).run(outcomes).action() is Bind,
    ensures
        passed(outcomes, Step::Connect),
        passed(outcomes, Step::Probe),
        loaded(database_url, server_host, server_port) matches Ok(config) && started(
            database_url,
            server_host,
            server_port,
        ).run(outcomes).action() == (ActionView::Bind { address: config.listen_address() }),
{
    let start = started(database_url, server_host, server_port);
    match loaded(database_url, server_host, server_port) {
        Err(_) => {
            law_final_states_stay(start, outcomes);
        },
        Ok(config) => {
            lemma_history(config, outcomes);
        },
    }
}

/// With the connection string set, a database that can be connected to and
/// answers the probe, and a socket that can be bound, the process serves,
/// and the health report made while the database still answers says that
/// the service is fine and the database connected.
pub proof fn law_reachable_database_serves_and_reports_connected(
    database_url: String,
    server_host: Option<String>,
    server_port: Option<String>,
    outcomes: Seq<Outcome>,
)
    requires
        every_gate_passed(outcomes),
    ensures
        started(Some(database_url), server_host, server_port).run(outcomes) is Serving,
        health_report(true) == (HealthResponseView { status: "ok"@, database: "connected"@ }),
{
    law_serving_iff_every_gate_passed(Some(database_url), server_host, server_port, outcomes);
}

} // verus!
