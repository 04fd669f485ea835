use vstd::prelude::*;

use crate::errors::spec_exit_status;
use crate::errors::Error;

verus! {

/// Logging thresholds selectable by the repeatable verbosity flag.
#[derive(Clone, Copy, Debug, PartialEq, Eq, Structural)]
pub enum LogLevel {
    Info,
    Debug,
    Trace,
}

/// The threshold a verbosity count selects: an absent flag means info, one
/// occurrence means debug, two or more mean trace.
pub open spec fn level_for(verbose: u8) -> LogLevel {
    if verbose == 0 {
        LogLevel::Info
    } else if verbose == 1 {
        LogLevel::Debug
    } else {
        LogLevel::Trace
    }
}

/// Map the verbosity count to the process-wide logging threshold.
pub fn log_level_for(verbose: u8) -> (level: LogLevel)
    ensures
        level == level_for(verbose),
{
    if verbose == 0 {
        LogLevel::Info
    } else if verbose == 1 {
        LogLevel::Debug
    } else {
        LogLevel::Trace
    }
}

/// Arguments of the container command group. Parsing below the top-level
/// verb is a collaborator's concern; the group carries the name of the
/// container it operates on.
pub struct ContainerArgs {
    pub name: String,
}

/// Arguments of the archive command group, layered on top of a container.
pub struct ArchiveArgs {
    pub name: String,
}

/// The top-level verbs: a closed, small variant set, each carrying its own
/// argument struct.
pub enum Commands {
    /// General container tasks.
    Container(ContainerArgs),
    /// An archive on top of the container.
    Archive(ArchiveArgs),
}

/// Which subsystem a command routes to.
#[derive(Clone, Copy, Debug, PartialEq, Eq, Structural)]
pub enum Route {
    Container,
    Archive,
}

/// The subsystem a command belongs to.
pub open spec fn route_of(command: Commands) -> Route {
    match command {
        Commands::Container(_) => Route::Container,
        Commands::Archive(_) => Route::Archive,
    }
}

impl Commands {
    /// Route to the matching subsystem. The subsystems themselves do outside
    /// work, so the dispatcher yields the route and the driver runs it,
    /// propagating the subsystem's result as the process outcome.
    pub fn run(&self) -> (r: Route)
        ensures
            r == route_of(*self),
    {
        match self {
            Commands::Container(_) => Route::Container,
            Commands::Archive(_) => Route::Archive,
        }
    }
}

/// The parsed top-level invocation: a verb plus a global verbosity count.
pub struct NutsCli {
    pub command: Commands,
    pub verbose: u8,
}

impl NutsCli {
    /// The logging threshold this invocation selects.
    pub fn log_level(&self) -> (level: LogLevel)
        ensures
            level == level_for(self.verbose),
    {
        log_level_for(self.verbose)
    }

    /// Route the invocation's command to its subsystem.
    pub fn run(&self) -> (r: Route)
        ensures
            r == route_of(self.command),
    {
        self.command.run()
    }
}

/// Where a run stands: logging is configured exactly once, before anything
/// is dispatched, and the run finishes with the dispatched result.
#[derive(Clone, Copy, Debug, PartialEq, Eq, Structural)]
pub enum DispatchPhase {
    Start,
    LoggingConfigured,
    Dispatched,
    Finished,
}

/// Drives one run: configure logging, dispatch, finish. The phase order is
/// enforced by the contracts: `configure` demands the start phase and leaves
/// it, so the threshold is set exactly once and before any subcommand runs.
pub struct Dispatcher {
    phase: DispatchPhase,
    level: Option<LogLevel>,
}

impl Dispatcher {
    /// The phase the run stands in.
    pub closed spec fn spec_phase(&self) -> DispatchPhase {
        self.phase
    }

    /// The threshold fixed at configuration, if the run got that far.
    pub closed spec fn spec_level(&self) -> Option<LogLevel> {
        self.level
    }

    /// A run that has not configured logging yet.
    pub fn new() -> (d: Self)
        ensures
            d.spec_phase() is Start,
            d.spec_level() is None,
    {
        Dispatcher { phase: DispatchPhase::Start, level: None }
    }

    /// Fix the process-wide logging threshold from the invocation's
    /// verbosity. Only a run at its start may do this, so it happens at most
    /// once; the returned level is what the driver hands the logging
    /// collaborator.
    pub fn configure(&mut self, cli: &NutsCli) -> (level: LogLevel)
        requires
            old(self).spec_phase() is Start,
        ensures
            final(self).spec_phase() is LoggingConfigured,
            level == level_for(cli.verbose),
            final(self).spec_level() == Some(level),
    {
        let level = cli.log_level();
        self.phase = DispatchPhase::LoggingConfigured;
        self.level = Some(level);
        level
    }

    /// Route the command, only after logging is configured; the threshold
    /// fixed at configuration is left untouched.
    pub fn dispatch(&mut self, cli: &NutsCli) -> (r: Route)
        requires
            old(self).spec_phase() is LoggingConfigured,
        ensures
            final(self).spec_phase() is Dispatched,
            final(self).spec_level() == old(self).spec_level(),
            r == route_of(cli.command),
    {
        self.phase = DispatchPhase::Dispatched;
        cli.run()
    }

    /// Close the run with the dispatched subsystem's result; the status is
    /// zero exactly on success.
    pub fn finish(&mut self, outcome: &Result<(), Error>) -> (code: u8)
        requires
            old(self).spec_phase() is Dispatched,
        ensures
            final(self).spec_phase() is Finished,
            final(self).spec_level() == old(self).spec_level(),
            code == spec_exit_status(outcome is Ok),
    {
        self.phase = DispatchPhase::Finished;
        crate::errors::exit_status(outcome)
    }
}

/// Law: a verbosity flag raised twice (or more) selects the trace threshold;
/// once and none select debug and info. Together with the dispatcher's phase
/// contracts, a run that reaches dispatch carries exactly this threshold,
/// fixed once at configuration.
pub proof fn lemma_verbosity_thresholds()
    ensures
        level_for(0) == LogLevel::Info,
        level_for(1) == LogLevel::Debug,
        level_for(2) == LogLevel::Trace,
        forall|v: u8| v >= 2 ==> level_for(v) == LogLevel::Trace,
{
}

} // verus!
