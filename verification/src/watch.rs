//! The watch loop as an explicit state machine.
//!
//! Startup (`initialize`) compiles the exclusion rule and validates the
//! command; any failure there means the loop is never entered.  Once
//! watching, each event from the source is turned by `next_step` into the
//! next phase and an optional dispatch; the caller performs the dispatch —
//! spawning the detached child process is its side — and hands the outcome
//! to `absorb_outcome`, which never ends the loop.

use vstd::prelude::*;

use crate::errors::ConfigError;
use crate::event::{classify, classify_spec, ChangeEvent, RawNotification};
use crate::filter::{should_run_command, triggers};
use crate::matcher::{regex_accepted, CompiledMatcher};

verus! {

/// The command to execute on each trigger: an executable name followed by
/// its arguments, in order.  Always non-empty.
#[derive(Debug)]
pub struct TargetCommand {
    argv: Vec<String>,
}

impl View for TargetCommand {
    type V = Seq<Seq<char>>;

    closed spec fn view(&self) -> Seq<Seq<char>> {
        self.argv.deep_view()
    }
}

impl TargetCommand {
    #[verifier::type_invariant]
    spec fn wf(self) -> bool {
        self.argv.len() >= 1
    }

    /// Accept a command line, rejecting an empty one: without at least an
    /// executable name there is nothing to run.
    pub fn new(argv: Vec<String>) -> (r: Result<TargetCommand, ConfigError>)
        ensures
            r is Ok <==> argv@.len() >= 1,
            r matches Ok(c) ==> c@ == argv.deep_view(),
            r matches Err(e) ==> e is EmptyCommand,
    {
        if argv.len() == 0 {
            Err(ConfigError::EmptyCommand)
        } else {
            Ok(TargetCommand { argv })
        }
    }

    /// The executable name: the first element.
    pub fn program(&self) -> (r: &String)
        ensures
            r@ == self@[0],
    {
        proof {
            use_type_invariant(self);
        }
        &self.argv[0]
    }

    /// The full command line, executable name first.
    pub fn parts(&self) -> (r: &Vec<String>)
        ensures
            r.deep_view() == self@,
            r@.len() >= 1,
    {
        proof {
            use_type_invariant(self);
        }
        &self.argv
    }
}

/// Why the loop ended.
#[derive(Debug, Clone, PartialEq, Eq)]
pub enum TerminationReason {
    /// Startup failed: bad pattern, empty command, or unwatchable path.
    SetupError(ConfigError),
    /// The event source's delivery channel closed or failed mid-run; the
    /// text is the reported reason.  The source is assumed unrecoverable:
    /// no retry.
    SourceError(String),
}

/// The loop's phase.  `Initializing` is implicit in `initialize`: its
/// success enters `Watching`, its failure goes straight to `Terminated`.
/// `Watching` has no natural exit — it ends only through an unrecoverable
/// source error or outside process termination.
#[derive(Debug, Clone, PartialEq, Eq)]
pub enum WatchPhase {
    Watching,
    Terminated(TerminationReason),
}

/// What the delivery channel yields: one notification, or the news that
/// the channel itself is gone.
#[derive(Debug, Clone, PartialEq, Eq)]
pub enum SourceEvent {
    Notification(RawNotification),
    Closed(String),
}

/// The result of one attempted command launch.
#[derive(Debug, Clone, PartialEq, Eq)]
pub enum DispatchOutcome {
    /// The child process was spawned; it runs detached and is never
    /// awaited.
    Launched,
    /// The spawn failed; the text is the reported reason.  Non-fatal.
    LaunchFailed(String),
}

/// Everything the loop needs, fixed at startup and read-only thereafter.
#[derive(Debug)]
pub struct WatchConfig {
    /// The root path being observed.
    pub target: String,
    /// The command dispatched on each trigger.
    pub command: TargetCommand,
    /// The compiled exclusion rule.
    pub matcher: CompiledMatcher,
    /// Coalescing-window hint for the event source, in seconds.
    pub debounce_interval: u64,
}

/// Whether an optional exclusion pattern is acceptable: either absent or
/// accepted by the pattern compiler.
pub open spec fn exclude_ok(exclude: Option<String>) -> bool {
    match exclude {
        None => true,
        Some(p) => regex_accepted(p@),
    }
}

/// Build the configuration, or fail before any watching begins.
///
/// The exclusion rule is compiled first; only then is the command
/// validated.  On success the configuration carries every input verbatim.
/// Registering the target with the event source is the caller's side; an
/// invalid pattern or an empty command therefore fails before the event
/// source is ever engaged.
pub fn initialize(
    target: String,
    command: Vec<String>,
    exclude: Option<String>,
    debounce_interval: u64,
) -> (r: Result<WatchConfig, ConfigError>)
    ensures
        r is Ok <==> (exclude_ok(exclude) && command@.len() >= 1),
        r matches Ok(c) ==> ({
            &&& c.target@ == target@
            &&& c.command@ == command.deep_view()
            &&& c.matcher.pattern_view() == (match exclude {
                None => None::<Seq<char>>,
                Some(p) => Some(p@),
            })
            &&& c.debounce_interval == debounce_interval
        }),
        r matches Err(e) ==> ({
            &&& (e is InvalidPattern <==> !exclude_ok(exclude))
            &&& (e matches ConfigError::InvalidPattern { pattern: q, .. } ==> (
            exclude matches Some(p) && p@ == q@))
            &&& (e is EmptyCommand <==> (exclude_ok(exclude) && command@.len() == 0))
        }),
{
    let matcher = match CompiledMatcher::compile(exclude) {
        Ok(m) => m,
        Err(e) => {
            return Err(e);
        },
    };
    let command = match TargetCommand::new(command) {
        Ok(c) => c,
        Err(e) => {
            return Err(e);
        },
    };
    Ok(WatchConfig { target, command, matcher, debounce_interval })
}

/// The transition out of a failed startup: straight to `Terminated`
/// without ever entering `Watching`.
pub fn setup_failure(error: ConfigError) -> (r: WatchPhase)
    ensures
        r == WatchPhase::Terminated(TerminationReason::SetupError(error)),
{
    WatchPhase::Terminated(TerminationReason::SetupError(error))
}

/// One step of the watching phase, as a function of the configuration and
/// the source event alone — the loop keeps no other state.
pub open spec fn step(config: WatchConfig, event: SourceEvent) -> (WatchPhase, Option<
    ChangeEvent,
>) {
    match event {
        SourceEvent::Notification(n) => (
            WatchPhase::Watching,
            if triggers(n, config.matcher) {
                classify_spec(n)
            } else {
                None
            },
        ),
        SourceEvent::Closed(reason) => (
            WatchPhase::Terminated(TerminationReason::SourceError(reason)),
            None,
        ),
    }
}

/// Consume one source event: classify, filter, and decide.
///
/// A kept, non-excluded notification yields the change event to dispatch;
/// a dropped or excluded one yields nothing, silently.  Either way the
/// loop stays in `Watching`.  A closed channel is unrecoverable: the loop
/// terminates with `SourceError`.
pub fn next_step(config: &WatchConfig, event: SourceEvent) -> (r: (WatchPhase, Option<
    ChangeEvent,
>))
    ensures
        r == step(*config, event),
        r.1 matches Some(e) ==> e.wf(),
{
    match event {
        SourceEvent::Notification(n) => {
            if should_run_command(&n, &config.matcher) {
                (WatchPhase::Watching, classify(n))
            } else {
                (WatchPhase::Watching, None)
            }
        },
        SourceEvent::Closed(reason) => (
            WatchPhase::Terminated(TerminationReason::SourceError(reason)),
            None,
        ),
    }
}

/// How a dispatch outcome bears on the loop's phase: it does not.
pub open spec fn absorb(phase: WatchPhase, outcome: DispatchOutcome) -> WatchPhase {
    phase
}

/// Take note of a dispatch outcome.  No outcome — a successful launch or
/// a failed one — ever changes the loop's phase: launch failures are
/// reported by the caller and the loop watches on.
pub fn absorb_outcome(phase: WatchPhase, outcome: &DispatchOutcome) -> (r: WatchPhase)
    ensures
        r == absorb(phase, *outcome),
{
    phase
}

/// A launch failure is not fatal: absorbing any outcome — `LaunchFailed`
/// included — leaves the loop in `Watching`, and a subsequent triggering
/// notification still produces a dispatch.
pub proof fn lemma_launch_failure_not_fatal(
    config: WatchConfig,
    outcome: DispatchOutcome,
    n: RawNotification,
)
    requires
        triggers(n, config.matcher),
    ensures
        absorb(WatchPhase::Watching, outcome) is Watching,
        step(config, SourceEvent::Notification(n)).0 is Watching,
        step(config, SourceEvent::Notification(n)).1 is Some,
{
}

} // verus!
