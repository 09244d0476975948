//! The application bootstrap sequence: a finite, linear state machine with
//! the fixed step order Init, AttachPlugins, AttachCommandRegistry,
//! ConditionalSetup, Run. Every step is decided here; the runtime work each
//! step asks for (building the configuration, initializing plugins,
//! installing the registry, opening the diagnostic overlay, running the
//! event loop) is performed outside the library, which then reports the
//! outcome back.

use vstd::prelude::*;

verus! {

use crate::errors::BootstrapError;

/// The build configuration flag that gates `ConditionalSetup`, fixed when
/// the process starts and never re-evaluated.
#[derive(Clone, Copy, Debug, PartialEq, Eq, Structural)]
pub enum BuildMode {
    Production,
    Diagnostic,
}

/// Where the bootstrap stands. `Run` and `Aborted` are terminal: `Run` once
/// the event loop owns the thread, `Aborted` after any fatal step.
#[derive(Clone, Copy, Debug, PartialEq, Eq, Structural)]
pub enum BootstrapPhase {
    Init,
    AttachPlugins,
    AttachCommandRegistry,
    ConditionalSetup,
    Run,
    Aborted(BootstrapError),
}

/// What the runtime is asked to perform for the current step.
#[derive(Clone, Copy, Debug, PartialEq, Eq, Structural)]
pub enum RuntimeAction {
    BuildConfiguration,
    InitializePlugins,
    InstallCommandRegistry,
    OpenDiagnosticOverlay,
    StartEventLoop,
}

/// The runtime action each phase asks for. `ConditionalSetup` asks for the
/// diagnostic overlay only in a diagnostic build; in production the step is
/// skipped entirely. An aborted bootstrap asks for nothing.
pub open spec fn step_action(mode: BuildMode, phase: BootstrapPhase) -> Option<RuntimeAction> {
    match phase {
        BootstrapPhase::Init => Some(RuntimeAction::BuildConfiguration),
        BootstrapPhase::AttachPlugins => Some(RuntimeAction::InitializePlugins),
        BootstrapPhase::AttachCommandRegistry => Some(RuntimeAction::InstallCommandRegistry),
        BootstrapPhase::ConditionalSetup => match mode {
            BuildMode::Diagnostic => Some(RuntimeAction::OpenDiagnosticOverlay),
            BuildMode::Production => None,
        },
        BootstrapPhase::Run => Some(RuntimeAction::StartEventLoop),
        BootstrapPhase::Aborted(_) => None,
    }
}

/// The transition relation: a successful step moves to the immediate
/// successor, a fatal outcome aborts, and the terminal phases absorb.
pub open spec fn next_phase(phase: BootstrapPhase, outcome: Result<(), BootstrapError>) -> BootstrapPhase {
    match phase {
        BootstrapPhase::Aborted(e) => BootstrapPhase::Aborted(e),
        _ => match outcome {
            Err(e) => BootstrapPhase::Aborted(e),
            Ok(_) => match phase {
                BootstrapPhase::Init => BootstrapPhase::AttachPlugins,
                BootstrapPhase::AttachPlugins => BootstrapPhase::AttachCommandRegistry,
                BootstrapPhase::AttachCommandRegistry => BootstrapPhase::ConditionalSetup,
                BootstrapPhase::ConditionalSetup => BootstrapPhase::Run,
                BootstrapPhase::Run => BootstrapPhase::Run,
                BootstrapPhase::Aborted(e) => BootstrapPhase::Aborted(e),
            },
        },
    }
}

/// The position of a phase in the fixed order; `Aborted` stands outside the
/// order and gets no meaningful position.
pub open spec fn phase_position(phase: BootstrapPhase) -> int {
    match phase {
        BootstrapPhase::Init => 0,
        BootstrapPhase::AttachPlugins => 1,
        BootstrapPhase::AttachCommandRegistry => 2,
        BootstrapPhase::ConditionalSetup => 3,
        BootstrapPhase::Run => 4,
        BootstrapPhase::Aborted(_) => 5,
    }
}

/// The phase the machine stands in after the given step outcomes, starting
/// from `Init`.
pub open spec fn phase_after(outcomes: Seq<Result<(), BootstrapError>>) -> BootstrapPhase
    decreases outcomes.len(),
{
    if outcomes.len() == 0 {
        BootstrapPhase::Init
    } else {
        next_phase(phase_after(outcomes.drop_last()), outcomes.last())
    }
}

/// The bootstrapper: holds the build mode, fixed at construction, and the
/// current phase.
pub struct Bootstrapper {
    pub mode: BuildMode,
    pub phase: BootstrapPhase,
}

impl Bootstrapper {
    /// A bootstrap about to begin, at `Init`.
    pub fn new(mode: BuildMode) -> (b: Bootstrapper)
        ensures
            b.mode == mode,
            b.phase == BootstrapPhase::Init,
    {
        Bootstrapper { mode, phase: BootstrapPhase::Init }
    }

    /// The runtime action the current step asks for.
    pub fn next_action(&self) -> (a: Option<RuntimeAction>)
        ensures
            a == step_action(self.mode, self.phase),
    {
        match self.phase {
            BootstrapPhase::Init => Some(RuntimeAction::BuildConfiguration),
            BootstrapPhase::AttachPlugins => Some(RuntimeAction::InitializePlugins),
            BootstrapPhase::AttachCommandRegistry => Some(RuntimeAction::InstallCommandRegistry),
            BootstrapPhase::ConditionalSetup => match self.mode {
                BuildMode::Diagnostic => Some(RuntimeAction::OpenDiagnosticOverlay),
                BuildMode::Production => None,
            },
            BootstrapPhase::Run => Some(RuntimeAction::StartEventLoop),
            BootstrapPhase::Aborted(_) => None,
        }
    }

    /// Records the outcome the runtime reported for the current step and
    /// moves to the next phase.
    pub fn advance(&mut self, outcome: Result<(), BootstrapError>)
        ensures
            final(self).mode == old(self).mode,
            final(self).phase == next_phase(old(self).phase, outcome),
    {
        self.phase = match self.phase {
            BootstrapPhase::Aborted(e) => BootstrapPhase::Aborted(e),
            _ => match outcome {
                Err(e) => BootstrapPhase::Aborted(e),
                Ok(_) => match self.phase {
                    BootstrapPhase::Init => BootstrapPhase::AttachPlugins,
                    BootstrapPhase::AttachPlugins => BootstrapPhase::AttachCommandRegistry,
                    BootstrapPhase::AttachCommandRegistry => BootstrapPhase::ConditionalSetup,
                    BootstrapPhase::ConditionalSetup => BootstrapPhase::Run,
                    BootstrapPhase::Run => BootstrapPhase::Run,
                    BootstrapPhase::Aborted(e) => BootstrapPhase::Aborted(e),
                },
            },
        };
    }

    /// The error the bootstrap aborted with, if it aborted.
    pub fn abort_error(&self) -> (r: Option<BootstrapError>)
        ensures
            match r {
                Some(e) => self.phase == BootstrapPhase::Aborted(e),
                None => self.phase !is Aborted,
            },
    {
        match self.phase {
            BootstrapPhase::Aborted(e) => Some(e),
            _ => None,
        }
    }
}

/// Law: a successful step moves to the immediate successor in the fixed
/// order — no step is skipped and none repeats before `Run`.
pub proof fn lemma_success_advances_in_order(phase: BootstrapPhase)
    requires
        phase !is Aborted,
        phase !is Run,
    ensures
        phase_position(next_phase(phase, Ok(()))) == phase_position(phase) + 1,
{
}

/// Law: a fatal outcome at any step before the event loop aborts the whole
/// sequence at once.
pub proof fn lemma_failure_aborts(phase: BootstrapPhase, e: BootstrapError)
    requires
        phase !is Aborted,
    ensures
        next_phase(phase, Err(e)) == BootstrapPhase::Aborted(e),
{
}

/// Law: an aborted bootstrap stays aborted, whatever is reported later, and
/// asks for no further runtime action.
pub proof fn lemma_aborted_is_terminal(
    mode: BuildMode,
    e: BootstrapError,
    outcome: Result<(), BootstrapError>,
)
    ensures
        next_phase(BootstrapPhase::Aborted(e), outcome) == BootstrapPhase::Aborted(e),
        step_action(mode, BootstrapPhase::Aborted(e)) is None,
{
}

/// Law: if the machine is not aborted, every step so far succeeded.
pub proof fn lemma_not_aborted_all_ok(outcomes: Seq<Result<(), BootstrapError>>)
    requires
        phase_after(outcomes) !is Aborted,
    ensures
        forall|i: int| 0 <= i < outcomes.len() ==> outcomes[i] is Ok,
    decreases outcomes.len(),
{
    if outcomes.len() > 0 {
        let prev = phase_after(outcomes.drop_last());
        assert(prev !is Aborted);
        assert(outcomes.last() is Ok);
        lemma_not_aborted_all_ok(outcomes.drop_last());
        assert forall|i: int| 0 <= i < outcomes.len() implies outcomes[i] is Ok by {
            if i < outcomes.len() - 1 {
                assert(outcomes[i] == outcomes.drop_last()[i]);
            }
        }
    }
}

/// Law: as long as every step succeeds, the machine walks the fixed order
/// one step per outcome: after `k <= 4` successful steps it stands exactly
/// at position `k`.
pub proof fn lemma_steps_in_fixed_order(outcomes: Seq<Result<(), BootstrapError>>)
    requires
        forall|i: int| 0 <= i < outcomes.len() ==> outcomes[i] is Ok,
        outcomes.len() <= 4,
    ensures
        phase_after(outcomes) !is Aborted,
        phase_position(phase_after(outcomes)) == outcomes.len(),
    decreases outcomes.len(),
{
    if outcomes.len() > 0 {
        lemma_steps_in_fixed_order(outcomes.drop_last());
    }
}

/// Law: four successful steps reach `Run`, and the machine then stays there
/// while every later report is a success.
pub proof fn lemma_all_ok_reaches_run(outcomes: Seq<Result<(), BootstrapError>>)
    requires
        forall|i: int| 0 <= i < outcomes.len() ==> outcomes[i] is Ok,
        outcomes.len() >= 4,
    ensures
        phase_after(outcomes) is Run,
    decreases outcomes.len(),
{
    if outcomes.len() == 4 {
        lemma_steps_in_fixed_order(outcomes.drop_last());
    } else {
        lemma_all_ok_reaches_run(outcomes.drop_last());
    }
}

/// Law: a fatal error at any step prevents `Run` from ever being entered.
pub proof fn lemma_failure_prevents_run(outcomes: Seq<Result<(), BootstrapError>>, i: int)
    requires
        0 <= i < outcomes.len(),
        outcomes[i] is Err,
    ensures
        phase_after(outcomes) !is Run,
{
    if phase_after(outcomes) is Run {
        lemma_not_aborted_all_ok(outcomes);
    }
}

/// Law: a production build never asks for the diagnostic overlay, whatever
/// phase the bootstrap is in.
pub proof fn lemma_production_never_opens_overlay(phase: BootstrapPhase)
    ensures
        step_action(BuildMode::Production, phase) != Some(RuntimeAction::OpenDiagnosticOverlay),
{
}

} // verus!
