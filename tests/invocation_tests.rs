use hook_stream::app::CommandOutcome;
use hook_stream::cli::Args;
use hook_stream::invocation::{Invocation, InvocationAction, InvocationEvent};

fn args() -> Args {
    Args {
        dry_run: true,
        command: vec!["sh".to_string(), "-c".to_string(), "exit 3".to_string()],
        ..Args::default()
    }
}

#[test]
fn invocation_runs_in_order() {
    let mut inv = Invocation::new(args());
    match inv.step(InvocationEvent::Begin) {
        InvocationAction::StartCommand(m) => {
            assert_eq!(m, "🚀 Starting command: `sh -c exit 3`")
        }
        other => panic!("expected the start, got {:?}", other),
    }
    assert!(matches!(
        inv.step(InvocationEvent::CommandEnded(CommandOutcome::Exited(3))),
        InvocationAction::AwaitSender
    ));
    match inv.step(InvocationEvent::SenderFinished) {
        InvocationAction::Finish(s) => {
            assert_eq!(s.exit_code, 3);
            assert!(s.is_error);
            assert_eq!(s.message, "❌ Command failed with exit code 3.");
        }
        other => panic!("expected the end, got {:?}", other),
    }
    assert!(matches!(
        inv.step(InvocationEvent::SenderFinished),
        InvocationAction::Ignore
    ));
}

#[test]
fn no_final_notification_before_the_command_ends() {
    let mut inv = Invocation::new(args());
    assert!(matches!(
        inv.step(InvocationEvent::SenderFinished),
        InvocationAction::Ignore
    ));
    assert!(matches!(
        inv.step(InvocationEvent::CommandEnded(CommandOutcome::Exited(0))),
        InvocationAction::Ignore
    ));
    assert!(matches!(
        inv.step(InvocationEvent::Begin),
        InvocationAction::StartCommand(_)
    ));
    assert!(matches!(
        inv.step(InvocationEvent::SenderFinished),
        InvocationAction::Ignore
    ));
    assert!(matches!(
        inv.step(InvocationEvent::CommandEnded(CommandOutcome::Signaled)),
        InvocationAction::AwaitSender
    ));
    match inv.step(InvocationEvent::SenderFinished) {
        InvocationAction::Finish(s) => assert_eq!(s.exit_code, 1),
        other => panic!("expected the end, got {:?}", other),
    }
}
