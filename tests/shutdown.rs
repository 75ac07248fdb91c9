use rust_dev::shutdown::{ShutdownAction, ShutdownCoordinator, ShutdownEvent, SignalSource};

#[test]
fn interrupt_ends_wait_with_notice() {
    let mut c = ShutdownCoordinator::new(true);
    assert_eq!(c.on_event(ShutdownEvent::Fired(SignalSource::Interrupt)), ShutdownAction::NoticeAndStop);
    assert!(c.is_finished());
}

#[test]
fn terminate_ends_wait_silently() {
    let mut c = ShutdownCoordinator::new(true);
    assert_eq!(c.on_event(ShutdownEvent::Fired(SignalSource::Terminate)), ShutdownAction::Stop);
    assert!(c.is_finished());
}

#[test]
fn without_terminate_source_only_interrupt_counts() {
    let mut c = ShutdownCoordinator::new(false);
    assert_eq!(c.on_event(ShutdownEvent::Fired(SignalSource::Terminate)), ShutdownAction::Ignore);
    assert!(!c.is_finished());
    assert_eq!(c.on_event(ShutdownEvent::InstallFailed(SignalSource::Terminate)), ShutdownAction::Ignore);
    assert!(!c.is_finished());
    assert_eq!(c.on_event(ShutdownEvent::Fired(SignalSource::Interrupt)), ShutdownAction::NoticeAndStop);
    assert!(c.is_finished());
}

#[test]
fn both_sources_firing_stop_once() {
    let mut c = ShutdownCoordinator::new(true);
    let first = c.on_event(ShutdownEvent::Fired(SignalSource::Terminate));
    let second = c.on_event(ShutdownEvent::Fired(SignalSource::Interrupt));
    assert_eq!(first, ShutdownAction::Stop);
    assert_eq!(second, ShutdownAction::Ignore);
    assert!(c.is_finished());
}

#[test]
fn repeated_interrupts_stop_once() {
    let mut c = ShutdownCoordinator::new(false);
    let mut stops = 0;
    for _ in 0..5 {
        match c.on_event(ShutdownEvent::Fired(SignalSource::Interrupt)) {
            ShutdownAction::Stop | ShutdownAction::NoticeAndStop => stops += 1,
            _ => {}
        }
    }
    assert_eq!(stops, 1);
}

#[test]
fn install_failure_aborts() {
    let mut c = ShutdownCoordinator::new(true);
    assert_eq!(
        c.on_event(ShutdownEvent::InstallFailed(SignalSource::Terminate)),
        ShutdownAction::Abort(SignalSource::Terminate)
    );
    let mut d = ShutdownCoordinator::new(false);
    assert_eq!(
        d.on_event(ShutdownEvent::InstallFailed(SignalSource::Interrupt)),
        ShutdownAction::Abort(SignalSource::Interrupt)
    );
}
