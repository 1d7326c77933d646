//! The plain-value model of a planned antenna-control session: WSPR cycle
//! intentions, controller commands and invocations, and the committed rig
//! records that the controller logic reads.

use vstd::prelude::*;

use crate::text::dec;

verus! {

/// Most argument templates a command may carry.
pub const COMMAND_ARGUMENT_COUNT_MAX: usize = 64;

/// Largest byte length of one argument, template or expanded.
pub const COMMAND_ARGUMENT_MAX_BYTES: usize = 4096;

/// Largest byte length of an expanded program.
pub const COMMAND_PROGRAM_MAX_BYTES: usize = 4096;

/// Largest byte length of a program template.
pub const COMMAND_TEMPLATE_MAX_BYTES: usize = 4096;

/// Largest combined byte length of the templates and their expansion.
pub const COMMAND_INVOCATION_MAX_BYTES: usize = 65536;

/// Most bytes of stdout or stderr retained from one invocation.
pub const COMMAND_OUTPUT_MAX_BYTES: usize = 65536;

/// The kind of comparison a session plans.
#[derive(Debug, Clone, Copy, PartialEq, Eq, Structural)]
pub enum ExperimentMode {
    WholeStationAb,
    TxFocused,
    RxFocused,
    SingleAntennaProfiling,
}

/// The machine name of an experiment mode.
pub open spec fn mode_name(m: ExperimentMode) -> Seq<char> {
    match m {
        ExperimentMode::WholeStationAb => "whole_station_ab"@,
        ExperimentMode::TxFocused => "tx_focused"@,
        ExperimentMode::RxFocused => "rx_focused"@,
        ExperimentMode::SingleAntennaProfiling => "single_antenna_profiling"@,
    }
}

impl ExperimentMode {
    pub fn as_str(self) -> (r: &'static str)
        ensures
            r@ == mode_name(self),
    {
        match self {
            ExperimentMode::WholeStationAb => "whole_station_ab",
            ExperimentMode::TxFocused => "tx_focused",
            ExperimentMode::RxFocused => "rx_focused",
            ExperimentMode::SingleAntennaProfiling => "single_antenna_profiling",
        }
    }
}

/// Whether a WSPR cycle transmits or receives.
#[derive(Debug, Clone, Copy, PartialEq, Eq, Structural)]
pub enum WsprCycleDirection {
    Transmit,
    Receive,
}

/// The machine name of a cycle direction.
pub open spec fn direction_name(d: WsprCycleDirection) -> Seq<char> {
    match d {
        WsprCycleDirection::Transmit => "transmit"@,
        WsprCycleDirection::Receive => "receive"@,
    }
}

impl WsprCycleDirection {
    pub fn as_str(self) -> (r: &'static str)
        ensures
            r@ == direction_name(self),
    {
        match self {
            WsprCycleDirection::Transmit => "transmit",
            WsprCycleDirection::Receive => "receive",
        }
    }
}

/// An amateur band, named by its wavelength in meters.
#[derive(Debug, Clone, Copy, PartialEq, Eq, Structural)]
pub struct Band {
    pub meters: u16,
}

/// The machine name of a band, such as `20m`.
pub open spec fn band_name(b: Band) -> Seq<char> {
    dec(b.meters as nat).push('m')
}

/// The controlled signal allocated to a cycle: the signal plan it follows
/// and its frequency.
#[derive(Debug, Clone, PartialEq, Eq)]
pub struct WsprSignal {
    pub signal_plan_id: String,
    pub frequency_hz: u64,
}

/// The values an allocation holds.
pub open spec fn signal_view(s: Option<WsprSignal>) -> Option<(Seq<char>, u64)> {
    match s {
        Some(a) => Some((a.signal_plan_id@, a.frequency_hz)),
        None => None,
    }
}

/// Whether two allocations hold the same values.
pub fn same_signal(a: &Option<WsprSignal>, b: &Option<WsprSignal>) -> (r: bool)
    ensures
        r == (signal_view(*a) == signal_view(*b)),
{
    match (a, b) {
        (Some(x), Some(y)) => x.frequency_hz == y.frequency_hz && crate::text::str_eq(x.signal_plan_id.as_str(), y.signal_plan_id.as_str()),
        (None, None) => true,
        _ => false,
    }
}

/// A copy of an allocation.
pub fn copy_signal(s: &Option<WsprSignal>) -> (r: Option<WsprSignal>)
    ensures
        r == *s,
{
    match s {
        Some(a) => Some(WsprSignal { signal_plan_id: a.signal_plan_id.clone(), frequency_hz: a.frequency_hz }),
        None => None,
    }
}

/// One planned WSPR cycle and the antenna intended for it.
#[derive(Debug, Clone, PartialEq, Eq)]
pub struct WsprCycleIntent {
    pub intent_id: String,
    pub antenna_label: String,
    pub direction: Option<WsprCycleDirection>,
    pub band: Band,
    pub signal: Option<WsprSignal>,
    pub sequence_number: u64,
}

/// The values that a controller command template can reference.
#[derive(Debug, Clone, PartialEq, Eq)]
pub struct AntennaControlContext {
    pub antenna: String,
    pub target: String,
    pub mode: ExperimentMode,
    pub direction: WsprCycleDirection,
    pub band: Band,
    pub frequency_hz: Option<u64>,
    pub sequence: u64,
    pub intent_id: String,
    pub session_id: String,
    pub callsign: String,
}

/// A command as planned (templates) and as expanded for one intention.
#[derive(Debug, Clone, PartialEq, Eq)]
pub struct AntennaControlCommand {
    pub program_template: String,
    pub argument_templates: Vec<String>,
    pub resolved_program: String,
    pub resolved_arguments: Vec<String>,
}

/// Which of the two profile commands ran.
#[derive(Debug, Clone, Copy, PartialEq, Eq, Structural)]
pub enum AntennaControlRole {
    Switch,
    Verification,
}

/// How a controller process ended.
#[derive(Debug, Clone, PartialEq, Eq)]
pub enum AntennaControlDisposition {
    Exit { code: i32 },
    Signaled { signal: Option<i32> },
    Timeout,
    SpawnError { message: String },
}

/// A disposition is a success exactly when the process exited with code zero.
pub open spec fn exit_zero(d: AntennaControlDisposition) -> bool {
    d matches AntennaControlDisposition::Exit { code } && code == 0
}

impl AntennaControlDisposition {
    pub fn is_exit_zero(&self) -> (r: bool)
        ensures
            r == exit_zero(*self),
    {
        match self {
            AntennaControlDisposition::Exit { code } => *code == 0,
            _ => false,
        }
    }
}

/// How captured output bytes are encoded as text.
#[derive(Debug, Clone, Copy, PartialEq, Eq, Structural)]
pub enum AntennaControlOutputEncoding {
    Utf8,
    Base64,
}

/// Captured and encoded process output.
#[derive(Debug, Clone, PartialEq, Eq)]
pub struct AntennaControlOutput {
    pub encoding: AntennaControlOutputEncoding,
    pub data: String,
    pub truncated: bool,
}

/// One controller process invocation as recorded in the session evidence.
/// Times are UTC milliseconds since the Unix epoch.
#[derive(Debug, Clone, PartialEq, Eq)]
pub struct AntennaControlInvocation {
    pub role: AntennaControlRole,
    pub controller_profile_name: String,
    pub controller_profile_revision: String,
    pub command: AntennaControlCommand,
    pub context: AntennaControlContext,
    pub started_at_ms: i64,
    pub completed_at_ms: i64,
    pub elapsed_milliseconds: u64,
    pub disposition: AntennaControlDisposition,
    pub stdout: AntennaControlOutput,
    pub stderr: AntennaControlOutput,
}

/// Who may start controller commands in a command-controlled session.
#[derive(Debug, Clone, Copy, PartialEq, Eq, Structural)]
pub enum AntennaControlInvocationPolicy {
    OperatorTriggered,
    Automatic,
}

/// The portable antenna-control policy of a session.
#[derive(Debug, Clone, Copy, PartialEq, Eq, Structural)]
pub enum AntennaControlPolicy {
    Manual,
    CommandControlled { invocation: AntennaControlInvocationPolicy, manual_review_required: bool },
}

/// Whether a session policy is command-controlled with manual review.
pub open spec fn manual_review_policy(p: Option<AntennaControlPolicy>) -> bool {
    p matches Some(AntennaControlPolicy::CommandControlled { manual_review_required, .. })
        && manual_review_required
}

/// Whether a session policy is command-controlled with automatic invocation.
pub open spec fn automatic_policy(p: Option<AntennaControlPolicy>) -> bool {
    p matches Some(
        AntennaControlPolicy::CommandControlled {
            invocation: AntennaControlInvocationPolicy::Automatic,
            ..
        },
    )
}

/// A committed rig record, possibly holding a controller invocation.
#[derive(Debug, Clone, PartialEq, Eq)]
pub struct RigRecord {
    pub record_id: String,
    pub mutation_id: String,
    pub antenna_control: Option<AntennaControlInvocation>,
}

/// The lifecycle of a live session.
#[derive(Debug, Clone, Copy, PartialEq, Eq, Structural)]
pub enum SessionLifecycle {
    Draft,
    Ready,
    Running,
    Interrupted,
    Ended,
    Abandoned,
}

/// One armed WSPR cycle in the projection of a run: the readiness it was
/// armed on, its window, and whether one antenna occupancy covers its whole
/// transmission.
#[derive(Debug, Clone, PartialEq, Eq)]
pub struct ProjectedCycle {
    pub intent_id: String,
    pub antenna_label: String,
    pub ready_event_id: String,
    pub ready_at_ms: i64,
    pub starts_at_ms: i64,
    pub transmission_ends_at_ms: i64,
    pub occupancy_fully_covers_transmission: bool,
}

/// A period during which one antenna was continuously selected.
#[derive(Debug, Clone, PartialEq, Eq)]
pub struct AntennaOccupancy {
    pub antenna_label: String,
    pub ready_event_id: String,
    pub ends_at_ms: Option<i64>,
}

/// The projection of a run's committed operator events: armed cycles in
/// order, skipped intentions, and antenna occupancies in order.
#[derive(Debug, Clone, PartialEq, Eq)]
pub struct WsprRunProjection {
    pub cycles: Vec<ProjectedCycle>,
    pub skipped_intent_ids: Vec<String>,
    pub occupancies: Vec<AntennaOccupancy>,
}

/// The committed state of a live session that the controller logic reads.
#[derive(Debug, Clone, PartialEq, Eq)]
pub struct ControlSession {
    pub session_id: String,
    pub callsign: String,
    pub schema_version: u16,
    pub revision: u64,
    pub lifecycle: SessionLifecycle,
    pub mode: ExperimentMode,
    pub intents: Vec<WsprCycleIntent>,
    pub antenna_control: Option<AntennaControlPolicy>,
    pub rig: Vec<RigRecord>,
    pub projection: WsprRunProjection,
}

/// The character views of a sequence of strings.
pub open spec fn strs_view(v: Seq<String>) -> Seq<Seq<char>> {
    v.map_values(|s: String| s@)
}

} // verus!

verus! {

/// Two contexts hold the same values.
pub open spec fn same_context(a: AntennaControlContext, b: AntennaControlContext) -> bool {
    &&& a.antenna@ == b.antenna@
    &&& a.target@ == b.target@
    &&& a.mode == b.mode
    &&& a.direction == b.direction
    &&& a.band == b.band
    &&& a.frequency_hz == b.frequency_hz
    &&& a.sequence == b.sequence
    &&& a.intent_id@ == b.intent_id@
    &&& a.session_id@ == b.session_id@
    &&& a.callsign@ == b.callsign@
}

impl AntennaControlContext {
    /// A copy of the context.
    pub fn clone_context(&self) -> (r: Self)
        ensures
            same_context(r, *self),
    {
        AntennaControlContext {
            antenna: self.antenna.clone(),
            target: self.target.clone(),
            mode: self.mode,
            direction: self.direction,
            band: self.band,
            frequency_hz: self.frequency_hz,
            sequence: self.sequence,
            intent_id: self.intent_id.clone(),
            session_id: self.session_id.clone(),
            callsign: self.callsign.clone(),
        }
    }
}

} // verus!
