use shell_bootstrap::launcher::{Action, Exit, Launcher, Phase};
use shell_bootstrap::plugins::{
    builder_plugins, setup_plugins, BuildProfile, LogLevel, Plugin,
};
use shell_bootstrap::setup::{SetupRun, SetupStatus, SetupStep};

fn drive_to_run(launcher: &mut Launcher) -> Vec<Action> {
    let mut steps = Vec::new();
    while launcher.is_starting() {
        steps.push(launcher.advance());
    }
    steps
}

#[test]
fn profile_from_debug_assertions() {
    assert_eq!(BuildProfile::from_debug_assertions(true), BuildProfile::Debug);
    assert_eq!(BuildProfile::from_debug_assertions(false), BuildProfile::Release);
    assert!(BuildProfile::Debug.is_debug());
    assert!(!BuildProfile::Release.is_debug());
}

#[test]
fn builder_gets_notification_plugin() {
    assert_eq!(builder_plugins(), vec![Plugin::Notification]);
}

#[test]
fn debug_build_attaches_debug_logging() {
    assert_eq!(setup_plugins(BuildProfile::Debug), vec![Plugin::Log(LogLevel::Debug)]);
}

#[test]
fn release_build_attaches_no_logging() {
    assert!(setup_plugins(BuildProfile::Release).is_empty());
}

#[test]
fn startup_steps_in_order_and_run_once() {
    for profile in [BuildProfile::Debug, BuildProfile::Release] {
        let mut launcher = Launcher::new(profile);
        assert_eq!(launcher.phase(), Phase::Start);
        let steps = drive_to_run(&mut launcher);
        assert_eq!(
            steps,
            vec![
                Action::CreateBuilder,
                Action::AttachPlugin(Plugin::Notification),
                Action::RegisterSetup,
                Action::Run,
            ]
        );
        assert_eq!(steps.iter().filter(|a| **a == Action::Run).count(), 1);
        assert_eq!(launcher.phase(), Phase::Running);
        assert!(!launcher.is_starting());
        assert_eq!(launcher.profile(), profile);
    }
}

#[test]
fn successful_run_exits_normally() {
    let mut launcher = Launcher::new(BuildProfile::Release);
    drive_to_run(&mut launcher);
    assert_eq!(launcher.finish(SetupStatus::Succeeded, true), Exit::Normal);
    assert_eq!(launcher.phase(), Phase::Exited);
}

#[test]
fn failed_run_is_fatal() {
    let mut launcher = Launcher::new(BuildProfile::Debug);
    drive_to_run(&mut launcher);
    assert_eq!(launcher.finish(SetupStatus::Succeeded, false), Exit::Fatal);
    assert_eq!(launcher.phase(), Phase::Terminated);
    assert!(!launcher.is_starting());
}

#[test]
fn run_failing_before_setup_is_fatal() {
    let mut launcher = Launcher::new(BuildProfile::Debug);
    drive_to_run(&mut launcher);
    assert_eq!(launcher.finish(SetupStatus::Pending, false), Exit::Fatal);
}

#[test]
fn setup_failure_makes_run_fatal_even_if_run_returned_ok() {
    let mut launcher = Launcher::new(BuildProfile::Debug);
    drive_to_run(&mut launcher);
    assert_eq!(launcher.finish(SetupStatus::Failed, true), Exit::Fatal);
    assert_eq!(launcher.phase(), Phase::Terminated);
}

#[test]
fn debug_setup_attaches_logging_then_succeeds() {
    let mut setup = SetupRun::new(BuildProfile::Debug);
    assert_eq!(setup.status(), SetupStatus::Pending);
    assert_eq!(setup.next_step(), SetupStep::Attach(Plugin::Log(LogLevel::Debug)));
    setup.record_attempt(true);
    assert_eq!(setup.next_step(), SetupStep::Succeed);
    assert_eq!(setup.status(), SetupStatus::Succeeded);
}

#[test]
fn release_setup_succeeds_at_once() {
    let setup = SetupRun::new(BuildProfile::Release);
    assert_eq!(setup.next_step(), SetupStep::Succeed);
    assert_eq!(setup.status(), SetupStatus::Succeeded);
}

#[test]
fn failed_attachment_fails_setup() {
    let mut setup = SetupRun::new(BuildProfile::Debug);
    setup.record_attempt(false);
    assert_eq!(setup.next_step(), SetupStep::Fail(Plugin::Log(LogLevel::Debug)));
    assert_eq!(setup.status(), SetupStatus::Failed);
    let mut launcher = Launcher::new(BuildProfile::Debug);
    drive_to_run(&mut launcher);
    assert_eq!(launcher.finish(setup.status(), true), Exit::Fatal);
}
