use command_bridge::bootstrap::BootstrapPhase;
use command_bridge::bootstrap::Bootstrapper;
use command_bridge::bootstrap::BuildMode;
use command_bridge::bootstrap::RuntimeAction;
use command_bridge::errors::BootstrapError;

/// Drives a bootstrap in which every step succeeds and records the actions
/// the machine asked for, phase by phase.
fn drive_all_ok(mode: BuildMode) -> Vec<Option<RuntimeAction>> {
    let mut boot = Bootstrapper::new(mode);
    let mut asked = Vec::new();
    for _ in 0..5 {
        asked.push(boot.next_action());
        boot.advance(Ok(()));
    }
    assert_eq!(boot.phase, BootstrapPhase::Run);
    asked
}

#[test]
fn production_steps_run_in_fixed_order() {
    let asked = drive_all_ok(BuildMode::Production);
    assert_eq!(
        asked,
        vec![
            Some(RuntimeAction::BuildConfiguration),
            Some(RuntimeAction::InitializePlugins),
            Some(RuntimeAction::InstallCommandRegistry),
            None,
            Some(RuntimeAction::StartEventLoop),
        ]
    );
}

#[test]
fn diagnostic_steps_run_in_fixed_order_with_overlay() {
    let asked = drive_all_ok(BuildMode::Diagnostic);
    assert_eq!(
        asked,
        vec![
            Some(RuntimeAction::BuildConfiguration),
            Some(RuntimeAction::InitializePlugins),
            Some(RuntimeAction::InstallCommandRegistry),
            Some(RuntimeAction::OpenDiagnosticOverlay),
            Some(RuntimeAction::StartEventLoop),
        ]
    );
}

#[test]
fn production_never_asks_for_the_overlay() {
    let phases = [
        BootstrapPhase::Init,
        BootstrapPhase::AttachPlugins,
        BootstrapPhase::AttachCommandRegistry,
        BootstrapPhase::ConditionalSetup,
        BootstrapPhase::Run,
        BootstrapPhase::Aborted(BootstrapError::PluginInit),
    ];
    for phase in phases {
        let boot = Bootstrapper { mode: BuildMode::Production, phase };
        assert_ne!(boot.next_action(), Some(RuntimeAction::OpenDiagnosticOverlay));
    }
}

#[test]
fn plugin_failure_aborts_before_run() {
    let mut boot = Bootstrapper::new(BuildMode::Production);
    boot.advance(Ok(()));
    assert_eq!(boot.phase, BootstrapPhase::AttachPlugins);
    boot.advance(Err(BootstrapError::PluginInit));
    assert_eq!(boot.phase, BootstrapPhase::Aborted(BootstrapError::PluginInit));
    assert_eq!(boot.abort_error(), Some(BootstrapError::PluginInit));
    assert_eq!(boot.next_action(), None);
    // Whatever is reported later, the machine never reaches Run.
    boot.advance(Ok(()));
    boot.advance(Ok(()));
    boot.advance(Ok(()));
    assert_eq!(boot.phase, BootstrapPhase::Aborted(BootstrapError::PluginInit));
}

#[test]
fn missing_diagnostic_window_aborts() {
    let mut boot = Bootstrapper::new(BuildMode::Diagnostic);
    boot.advance(Ok(()));
    boot.advance(Ok(()));
    boot.advance(Ok(()));
    assert_eq!(boot.phase, BootstrapPhase::ConditionalSetup);
    assert_eq!(boot.next_action(), Some(RuntimeAction::OpenDiagnosticOverlay));
    boot.advance(Err(BootstrapError::DiagnosticWindowMissing));
    assert_eq!(
        boot.phase,
        BootstrapPhase::Aborted(BootstrapError::DiagnosticWindowMissing)
    );
}

#[test]
fn runtime_start_failure_aborts() {
    let mut boot = Bootstrapper::new(BuildMode::Production);
    for _ in 0..4 {
        boot.advance(Ok(()));
    }
    assert_eq!(boot.phase, BootstrapPhase::Run);
    boot.advance(Err(BootstrapError::RuntimeStart));
    assert_eq!(boot.phase, BootstrapPhase::Aborted(BootstrapError::RuntimeStart));
}

#[test]
fn abort_error_is_none_while_healthy() {
    let mut boot = Bootstrapper::new(BuildMode::Production);
    assert_eq!(boot.abort_error(), None);
    boot.advance(Ok(()));
    assert_eq!(boot.abort_error(), None);
}

#[test]
fn bootstrap_error_messages() {
    assert_eq!(
        BootstrapError::PluginInit.message(),
        "a plugin failed to initialize".to_string()
    );
    assert_eq!(
        BootstrapError::RuntimeStart.message(),
        "the runtime failed to start the event loop".to_string()
    );
    assert_eq!(
        BootstrapError::DiagnosticWindowMissing.message(),
        "the main window was missing during diagnostic setup".to_string()
    );
}
