use kiosk_desktop::boot::{
    boot_failure_text, device_bridge_note, shutdown_children, BootError, BootEvent, BootPoint,
    BootStack, ExitEvent, ExitPoint,
};
use kiosk_desktop::devices::BridgeStatus;

/// One of the two children, and the place that the two threads share for it.
#[derive(Default)]
struct Child {
    starts: u32,
    stops: u32,
    shared: bool,
}

#[derive(Default)]
struct World {
    abort: bool,
    mariadb: Child,
    backend: Child,
}

impl Child {
    fn take(&mut self) -> bool {
        std::mem::take(&mut self.shared)
    }

    fn running(&self) -> bool {
        self.starts > self.stops
    }
}

fn boot_once(w: &mut World, at: BootPoint) -> BootEvent {
    match at {
        BootPoint::CheckPort => BootEvent::PortOpen(false),
        BootPoint::StartMariadb => {
            w.mariadb.starts += 1;
            BootEvent::Started
        }
        BootPoint::StartBackend => {
            w.backend.starts += 1;
            BootEvent::Started
        }
        BootPoint::AbortAfterMariadb | BootPoint::AbortAfterBackend | BootPoint::AbortAfterWait => {
            BootEvent::Aborted(w.abort)
        }
        BootPoint::StoreMariadb => {
            w.mariadb.shared = true;
            BootEvent::Done
        }
        BootPoint::StoreBackend => {
            w.backend.shared = true;
            BootEvent::Done
        }
        BootPoint::TakeMariadbOnAbort | BootPoint::TakeMariadb => {
            BootEvent::Taken(w.mariadb.take())
        }
        BootPoint::TakeBackend => BootEvent::Taken(w.backend.take()),
        BootPoint::StopNewMariadb | BootPoint::StopMariadbOnAbort | BootPoint::StopMariadb => {
            w.mariadb.stops += 1;
            BootEvent::Done
        }
        BootPoint::TerminateNewBackend | BootPoint::TerminateBackend => {
            w.backend.stops += 1;
            BootEvent::Done
        }
        BootPoint::AwaitHealth => {
            if w.abort {
                BootEvent::Unhealthy("startup cancelled".to_string())
            } else {
                BootEvent::Healthy
            }
        }
        BootPoint::Finished => panic!("finished"),
    }
}

fn exit_once(w: &mut World, at: ExitPoint) -> ExitEvent {
    match at {
        ExitPoint::SetAbort => {
            w.abort = true;
            ExitEvent::Done
        }
        ExitPoint::TakeBackend => ExitEvent::Taken(w.backend.take()),
        ExitPoint::TakeMariadb => ExitEvent::Taken(w.mariadb.take()),
        ExitPoint::StopBackend => {
            w.backend.stops += 1;
            ExitEvent::Done
        }
        ExitPoint::StopMariadb => {
            w.mariadb.stops += 1;
            ExitEvent::Done
        }
        ExitPoint::Finished => panic!("finished"),
    }
}

/// Runs both threads to their ends; the bits of `order` say whose turn it is.
fn run_both(order: u32) -> World {
    let mut w = World::default();
    let mut boot = BootStack::new(5050);
    let mut exit = ExitPoint::SetAbort;
    let mut turn = 0;
    while boot.at() != BootPoint::Finished || exit != ExitPoint::Finished {
        let boots = exit == ExitPoint::Finished
            || (boot.at() != BootPoint::Finished && (order >> (turn % 18)) & 1 == 0);
        if boots {
            let event = boot_once(&mut w, boot.at());
            boot.boot_stack(event);
        } else {
            let event = exit_once(&mut w, exit);
            exit = shutdown_children(exit, event);
        }
        turn += 1;
        assert!(turn < 40);
    }
    w
}

#[test]
fn closing_the_shell_at_any_time_leaves_no_child() {
    for order in 0..(1u32 << 18) {
        let w = run_both(order);
        assert!(!w.mariadb.running() && !w.backend.running());
        assert!(w.mariadb.stops <= 1 && w.backend.stops <= 1);
    }
}

#[test]
fn a_good_boot_keeps_both_children() {
    let mut w = World::default();
    let mut boot = BootStack::new(5050);
    while boot.at() != BootPoint::Finished {
        let event = boot_once(&mut w, boot.at());
        boot.boot_stack(event);
    }
    assert!(boot.error().is_none());
    assert!(w.mariadb.running() && w.mariadb.shared);
    assert!(w.backend.running() && w.backend.shared);
}

/// Boots with the first answer to `at` replaced by `event`; returns what is left.
fn boot_with(at: BootPoint, event: BootEvent) -> World {
    let mut w = World::default();
    let mut boot = BootStack::new(5050);
    let mut event = Some(event);
    while boot.at() != BootPoint::Finished {
        let came = if boot.at() == at && event.is_some() {
            event.take()
        } else {
            Some(boot_once(&mut w, boot.at()))
        };
        if let Some(e) = came {
            boot.boot_stack(e);
        }
    }
    assert!(boot.error().is_some());
    w
}

#[test]
fn a_taken_port_starts_nothing() {
    let w = boot_with(BootPoint::CheckPort, BootEvent::PortOpen(true));
    assert_eq!((w.mariadb.starts, w.backend.starts), (0, 0));
}

#[test]
fn a_failed_boot_leaves_no_child() {
    for (at, event) in [
        (BootPoint::StartMariadb, BootEvent::NotStarted("x".to_string())),
        (BootPoint::StartBackend, BootEvent::NotStarted("x".to_string())),
        (BootPoint::AwaitHealth, BootEvent::Unhealthy("x".to_string())),
    ] {
        let w = boot_with(at, event);
        assert!(!w.mariadb.running() && !w.backend.running());
        assert!(w.mariadb.stops <= 1 && w.backend.stops <= 1);
    }
}

fn error_of(events: Vec<BootEvent>) -> (String, bool, BootPoint) {
    let mut boot = BootStack::new(5050);
    for event in events {
        boot.boot_stack(event);
    }
    match boot.error() {
        Some(e) => (e.message.clone(), e.cancelled, boot.at()),
        None => panic!("no error"),
    }
}

fn started() -> Vec<BootEvent> {
    vec![
        BootEvent::PortOpen(false),
        BootEvent::Started,
        BootEvent::Aborted(false),
        BootEvent::Done,
    ]
}

#[test]
fn a_taken_port_ends_the_boot() {
    assert_eq!(
        error_of(vec![BootEvent::PortOpen(true)]),
        (
            "Port 5050 is already in use — another Kiosk Desktop instance is running. Close it (system tray / Task Manager), or kill stray kiosk-desktop, java and mariadbd processes, then relaunch.".to_string(),
            false,
            BootPoint::TakeBackend
        )
    );
}

#[test]
fn a_child_that_does_not_start_ends_the_boot() {
    assert_eq!(
        error_of(vec![BootEvent::PortOpen(false), BootEvent::NotStarted("no disk".to_string())]),
        ("MariaDB failed to start: no disk".to_string(), false, BootPoint::TakeBackend)
    );
    let mut events = started();
    events.push(BootEvent::NotStarted("no java".to_string()));
    assert_eq!(
        error_of(events),
        ("Backend JVM failed to start: no java".to_string(), false, BootPoint::TakeBackend)
    );
}

#[test]
fn an_unhealthy_backend_ends_the_boot() {
    for aborted in [false, true] {
        let mut events = started();
        events.push(BootEvent::Started);
        events.push(BootEvent::Aborted(false));
        events.push(BootEvent::Done);
        events.push(BootEvent::Unhealthy("too slow".to_string()));
        events.push(BootEvent::Aborted(aborted));
        let message = if aborted { "" } else { "Backend never reported healthy: too slow" };
        assert_eq!(error_of(events), (message.to_string(), aborted, BootPoint::TakeBackend));
    }
}

#[test]
fn a_closed_shell_ends_the_boot() {
    assert_eq!(
        error_of(vec![
            BootEvent::PortOpen(false),
            BootEvent::Started,
            BootEvent::Aborted(true),
        ]),
        (String::new(), true, BootPoint::StopNewMariadb)
    );
    let mut events = started();
    events.push(BootEvent::Started);
    events.push(BootEvent::Aborted(true));
    assert_eq!(error_of(events), (String::new(), true, BootPoint::TakeMariadbOnAbort));
}

#[test]
fn boot_events_that_do_not_belong_change_nothing() {
    let mut boot = BootStack::new(5050);
    boot.boot_stack(BootEvent::Healthy);
    assert_eq!(boot.at(), BootPoint::CheckPort);
    assert!(boot.error().is_none());
    assert_eq!(shutdown_children(ExitPoint::SetAbort, ExitEvent::Taken(true)), ExitPoint::SetAbort);
}

#[test]
fn the_backend_is_stopped_before_the_database() {
    let mut at = ExitPoint::SetAbort;
    let mut seen = vec![at];
    for event in [
        ExitEvent::Done,
        ExitEvent::Taken(true),
        ExitEvent::Done,
        ExitEvent::Taken(true),
        ExitEvent::Done,
    ] {
        at = shutdown_children(at, event);
        seen.push(at);
    }
    assert_eq!(
        seen,
        [
            ExitPoint::SetAbort,
            ExitPoint::TakeBackend,
            ExitPoint::StopBackend,
            ExitPoint::TakeMariadb,
            ExitPoint::StopMariadb,
            ExitPoint::Finished,
        ]
    );
}

#[test]
fn boot_errors_say_whether_the_user_closed_the_shell() {
    let e = BootError::failed("m".to_string());
    assert_eq!((e.message.as_str(), e.cancelled), ("m", false));
    let e = BootError::cancelled();
    assert_eq!((e.message.as_str(), e.cancelled), ("", true));
}

#[test]
fn the_bridge_is_mentioned_where_it_is_down() {
    let busy = "Port 19500 (printer / cash-drawer bridge) is busy — another Kiosk instance may be running. Close it, or kill the stray kiosk-desktop process in Task Manager, then relaunch.";
    assert_eq!(device_bridge_note(&BridgeStatus::Ready), None);
    assert_eq!(
        device_bridge_note(&BridgeStatus::Failed("x".to_string())),
        Some("x".to_string())
    );
    assert_eq!(device_bridge_note(&BridgeStatus::Starting), Some(busy.to_string()));
    assert_eq!(
        boot_failure_text("boom", "/d", &BridgeStatus::Ready),
        "boom\n\nLog file: /d/kiosk.log"
    );
    assert_eq!(
        boot_failure_text("boom", "/d", &BridgeStatus::Failed("x".to_string())),
        "boom\n\nLog file: /d/kiosk.log\n\nDevice bridge: x"
    );
}
