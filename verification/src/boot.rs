//! Starting and stopping the stack: the database, then the backend. Two threads take
//! part. One boots the stack; the other ends it when the user closes the shell, which
//! may be at any time. They share one place for each child, and a child belongs to the
//! thread that takes it out of its place.

use vstd::prelude::*;

use crate::devices::{BridgeStatus, StatusView};
use crate::number::{decimal, push_decimal};
use crate::supervisor::text_option;

verus! {

// ---------------------------------------------------------------------------
// Errors
// ---------------------------------------------------------------------------

/// Why the stack did not come up.
#[derive(Debug)]
pub struct BootError {
    pub message: String,
    /// Whether the user closed the shell meanwhile. There is nobody to tell then.
    pub cancelled: bool,
}

/// Why the stack did not come up, as a value.
pub struct BootErrorView {
    pub message: Seq<char>,
    pub cancelled: bool,
}

impl View for BootError {
    type V = BootErrorView;

    open spec fn view(&self) -> BootErrorView {
        BootErrorView { message: self.message@, cancelled: self.cancelled }
    }
}

/// A failure, with what to tell the user.
pub open spec fn failure(message: Seq<char>) -> BootErrorView {
    BootErrorView { message, cancelled: false }
}

/// A boot that the user has ended.
pub open spec fn cancellation() -> BootErrorView {
    BootErrorView { message: seq![], cancelled: true }
}

impl BootError {
    /// A failure, with what to tell the user.
    pub fn failed(message: String) -> (e: BootError)
        ensures
            e@ == failure(message@),
    {
        BootError { message, cancelled: false }
    }

    /// A boot that the user has ended.
    pub fn cancelled() -> (e: BootError)
        ensures
            e@ == cancellation(),
    {
        let message = String::new();
        assert(message@ == Seq::<char>::empty());
        BootError { message, cancelled: true }
    }
}

// ---------------------------------------------------------------------------
// The boot
// ---------------------------------------------------------------------------

/// What the thread that boots the stack does next.
#[derive(Clone, Copy, Debug, PartialEq, Eq, Structural)]
pub enum BootPoint {
    /// Look whether somebody answers on the port of the backend.
    CheckPort,
    StartMariadb,
    /// Look whether the user has closed the shell, with the database just started.
    AbortAfterMariadb,
    /// Stop the database that was just started.
    StopNewMariadb,
    /// Put the database into its shared place.
    StoreMariadb,
    StartBackend,
    /// Look whether the user has closed the shell, with the backend just started.
    AbortAfterBackend,
    /// Take the database out of its place, if it is there, to stop it.
    TakeMariadbOnAbort,
    StopMariadbOnAbort,
    /// Terminate the backend that was just started.
    TerminateNewBackend,
    /// Put the backend into its shared place.
    StoreBackend,
    AwaitHealth,
    /// Look whether the user has closed the shell, with a backend that is not healthy.
    AbortAfterWait,
    /// Take the backend out of its place, if it is there, to terminate it.
    TakeBackend,
    TerminateBackend,
    /// Take the database out of its place, if it is there, to stop it.
    TakeMariadb,
    StopMariadb,
    Finished,
}

/// What came of it.
pub enum BootEvent {
    /// Whether somebody answers on the port.
    PortOpen(bool),
    Started,
    NotStarted(String),
    /// Whether the user has closed the shell.
    Aborted(bool),
    /// What was to be done is done.
    Done,
    /// Whether a child was in its place.
    Taken(bool),
    Healthy,
    Unhealthy(String),
}

/// What came of it, as a value.
pub enum BootEventView {
    PortOpen(bool),
    Started,
    NotStarted(Seq<char>),
    Aborted(bool),
    Done,
    Taken(bool),
    Healthy,
    Unhealthy(Seq<char>),
}

impl View for BootEvent {
    type V = BootEventView;

    open spec fn view(&self) -> BootEventView {
        match *self {
            BootEvent::PortOpen(b) => BootEventView::PortOpen(b),
            BootEvent::Started => BootEventView::Started,
            BootEvent::NotStarted(why) => BootEventView::NotStarted(why@),
            BootEvent::Aborted(b) => BootEventView::Aborted(b),
            BootEvent::Done => BootEventView::Done,
            BootEvent::Taken(b) => BootEventView::Taken(b),
            BootEvent::Healthy => BootEventView::Healthy,
            BootEvent::Unhealthy(why) => BootEventView::Unhealthy(why@),
        }
    }
}

/// The port of the backend that is booted, how far the boot is, and why it fails, if it
/// does.
pub struct BootView {
    pub port: u16,
    pub at: BootPoint,
    pub error: Option<BootErrorView>,
}

/// What the user is told where somebody answers on the port of the backend.
pub open spec fn port_taken(port: u16) -> Seq<char> {
    "Port "@ + decimal(port as nat)
        + " is already in use — another Kiosk Desktop instance is running. Close it (system tray / Task Manager), or kill stray kiosk-desktop, java and mariadbd processes, then relaunch."@
}

/// A boot that goes on.
pub open spec fn on(port: u16, at: BootPoint) -> BootView {
    BootView { port, at, error: None }
}

/// A boot that fails, and cleans up.
pub open spec fn off(port: u16, at: BootPoint, error: BootErrorView) -> BootView {
    BootView { port, at, error: Some(error) }
}

/// How a boot goes on. An event that does not belong to a point leaves the boot as it is.
pub open spec fn boot_next(boot: BootView, event: BootEventView) -> BootView {
    match (boot.at, event) {
        (BootPoint::CheckPort, BootEventView::PortOpen(open)) => if open {
            off(boot.port, BootPoint::TakeBackend, failure(port_taken(boot.port)))
        } else {
            on(boot.port, BootPoint::StartMariadb)
        },
        (BootPoint::StartMariadb, BootEventView::Started) => on(boot.port, BootPoint::AbortAfterMariadb),
        (BootPoint::StartMariadb, BootEventView::NotStarted(why)) => off(
            boot.port,
            BootPoint::TakeBackend,
            failure("MariaDB failed to start: "@ + why),
        ),
        (BootPoint::AbortAfterMariadb, BootEventView::Aborted(aborted)) => if aborted {
            off(boot.port, BootPoint::StopNewMariadb, cancellation())
        } else {
            on(boot.port, BootPoint::StoreMariadb)
        },
        (BootPoint::StopNewMariadb, BootEventView::Done) => BootView {
            at: BootPoint::TakeBackend,
            ..boot
        },
        (BootPoint::StoreMariadb, BootEventView::Done) => on(boot.port, BootPoint::StartBackend),
        (BootPoint::StartBackend, BootEventView::Started) => on(boot.port, BootPoint::AbortAfterBackend),
        (BootPoint::StartBackend, BootEventView::NotStarted(why)) => off(
            boot.port,
            BootPoint::TakeBackend,
            failure("Backend JVM failed to start: "@ + why),
        ),
        (BootPoint::AbortAfterBackend, BootEventView::Aborted(aborted)) => if aborted {
            off(boot.port, BootPoint::TakeMariadbOnAbort, cancellation())
        } else {
            on(boot.port, BootPoint::StoreBackend)
        },
        (BootPoint::TakeMariadbOnAbort, BootEventView::Taken(there)) => BootView {
            at: if there {
                BootPoint::StopMariadbOnAbort
            } else {
                BootPoint::TerminateNewBackend
            },
            ..boot
        },
        (BootPoint::StopMariadbOnAbort, BootEventView::Done) => BootView {
            at: BootPoint::TerminateNewBackend,
            ..boot
        },
        (BootPoint::TerminateNewBackend, BootEventView::Done) => BootView {
            at: BootPoint::TakeBackend,
            ..boot
        },
        (BootPoint::StoreBackend, BootEventView::Done) => on(boot.port, BootPoint::AwaitHealth),
        (BootPoint::AwaitHealth, BootEventView::Healthy) => on(boot.port, BootPoint::Finished),
        (BootPoint::AwaitHealth, BootEventView::Unhealthy(why)) => off(
            boot.port,
            BootPoint::AbortAfterWait,
            failure("Backend never reported healthy: "@ + why),
        ),
        (BootPoint::AbortAfterWait, BootEventView::Aborted(aborted)) => if aborted {
            off(boot.port, BootPoint::TakeBackend, cancellation())
        } else {
            BootView { at: BootPoint::TakeBackend, ..boot }
        },
        (BootPoint::TakeBackend, BootEventView::Taken(there)) => BootView {
            at: if there {
                BootPoint::TerminateBackend
            } else {
                BootPoint::TakeMariadb
            },
            ..boot
        },
        (BootPoint::TerminateBackend, BootEventView::Done) => BootView {
            at: BootPoint::TakeMariadb,
            ..boot
        },
        (BootPoint::TakeMariadb, BootEventView::Taken(there)) => BootView {
            at: if there {
                BootPoint::StopMariadb
            } else {
                BootPoint::Finished
            },
            ..boot
        },
        (BootPoint::StopMariadb, BootEventView::Done) => BootView {
            at: BootPoint::Finished,
            ..boot
        },
        _ => boot,
    }
}

/// The boot of the stack.
pub struct BootStack {
    port: u16,
    at: BootPoint,
    error: Option<BootError>,
}

pub open spec fn error_option(e: Option<BootError>) -> Option<BootErrorView> {
    match e {
        Some(error) => Some(error@),
        None => None,
    }
}

impl View for BootStack {
    type V = BootView;

    closed spec fn view(&self) -> BootView {
        BootView { port: self.port, at: self.at, error: error_option(self.error) }
    }
}

impl BootStack {
    /// A boot that begins.
    pub fn new(port: u16) -> (b: BootStack)
        ensures
            b@ == on(port, BootPoint::CheckPort),
    {
        BootStack { port, at: BootPoint::CheckPort, error: None }
    }

    /// What is to be done next.
    pub fn at(&self) -> (at: BootPoint)
        ensures
            at == self@.at,
    {
        self.at
    }

    /// Why the boot fails, if it does.
    pub fn error(&self) -> (error: &Option<BootError>)
        ensures
            error_option(*error) == self@.error,
    {
        &self.error
    }

    fn fail(&mut self, at: BootPoint, prefix: &str, why: &str)
        ensures
            final(self)@ == off(old(self)@.port, at, failure(prefix@ + why@)),
    {
        let mut message: String = prefix.to_owned();
        message.append(why);
        self.error = Some(BootError::failed(message));
        self.at = at;
    }

    fn cancel(&mut self, at: BootPoint)
        ensures
            final(self)@ == off(old(self)@.port, at, cancellation()),
    {
        self.error = Some(BootError::cancelled());
        self.at = at;
    }

    fn go_on(&mut self, at: BootPoint)
        ensures
            final(self)@ == on(old(self)@.port, at),
    {
        self.error = None;
        self.at = at;
    }

    fn turn(&mut self, there: bool, yes: BootPoint, no: BootPoint)
        ensures
            final(self)@ == (BootView {
                at: if there {
                    yes
                } else {
                    no
                },
                ..old(self)@
            }),
    {
        self.at = if there {
            yes
        } else {
            no
        };
    }

    /// Goes on by what came of what was to be done.
    pub fn boot_stack(&mut self, event: BootEvent)
        ensures
            final(self)@ == boot_next(old(self)@, event@),
    {
        match (self.at, event) {
            (BootPoint::CheckPort, BootEvent::PortOpen(open)) => {
                if open {
                    let mut message: String = "Port ".to_owned();
                    push_decimal(&mut message, self.port as u128);
                    message.append(
                        " is already in use — another Kiosk Desktop instance is running. Close it (system tray / Task Manager), or kill stray kiosk-desktop, java and mariadbd processes, then relaunch.",
                    );
                    self.error = Some(BootError::failed(message));
                    self.at = BootPoint::TakeBackend;
                } else {
                    self.go_on(BootPoint::StartMariadb);
                }
            },
            (BootPoint::StartMariadb, BootEvent::Started) => {
                self.go_on(BootPoint::AbortAfterMariadb);
            },
            (BootPoint::StartMariadb, BootEvent::NotStarted(why)) => {
                self.fail(BootPoint::TakeBackend, "MariaDB failed to start: ", why.as_str());
            },
            (BootPoint::AbortAfterMariadb, BootEvent::Aborted(aborted)) => {
                if aborted {
                    self.cancel(BootPoint::StopNewMariadb);
                } else {
                    self.go_on(BootPoint::StoreMariadb);
                }
            },
            (BootPoint::StopNewMariadb, BootEvent::Done) => {
                self.at = BootPoint::TakeBackend;
            },
            (BootPoint::StoreMariadb, BootEvent::Done) => {
                self.go_on(BootPoint::StartBackend);
            },
            (BootPoint::StartBackend, BootEvent::Started) => {
                self.go_on(BootPoint::AbortAfterBackend);
            },
            (BootPoint::StartBackend, BootEvent::NotStarted(why)) => {
                self.fail(BootPoint::TakeBackend, "Backend JVM failed to start: ", why.as_str());
            },
            (BootPoint::AbortAfterBackend, BootEvent::Aborted(aborted)) => {
                if aborted {
                    self.cancel(BootPoint::TakeMariadbOnAbort);
                } else {
                    self.go_on(BootPoint::StoreBackend);
                }
            },
            (BootPoint::TakeMariadbOnAbort, BootEvent::Taken(there)) => {
                self.turn(there, BootPoint::StopMariadbOnAbort, BootPoint::TerminateNewBackend);
            },
            (BootPoint::StopMariadbOnAbort, BootEvent::Done) => {
                self.at = BootPoint::TerminateNewBackend;
            },
            (BootPoint::TerminateNewBackend, BootEvent::Done) => {
                self.at = BootPoint::TakeBackend;
            },
            (BootPoint::StoreBackend, BootEvent::Done) => {
                self.go_on(BootPoint::AwaitHealth);
            },
            (BootPoint::AwaitHealth, BootEvent::Healthy) => {
                self.go_on(BootPoint::Finished);
            },
            (BootPoint::AwaitHealth, BootEvent::Unhealthy(why)) => {
                self.fail(
                    BootPoint::AbortAfterWait,
                    "Backend never reported healthy: ",
                    why.as_str(),
                );
            },
            (BootPoint::AbortAfterWait, BootEvent::Aborted(aborted)) => {
                if aborted {
                    self.cancel(BootPoint::TakeBackend);
                } else {
                    self.at = BootPoint::TakeBackend;
                }
            },
            (BootPoint::TakeBackend, BootEvent::Taken(there)) => {
                self.turn(there, BootPoint::TerminateBackend, BootPoint::TakeMariadb);
            },
            (BootPoint::TerminateBackend, BootEvent::Done) => {
                self.at = BootPoint::TakeMariadb;
            },
            (BootPoint::TakeMariadb, BootEvent::Taken(there)) => {
                self.turn(there, BootPoint::StopMariadb, BootPoint::Finished);
            },
            (BootPoint::StopMariadb, BootEvent::Done) => {
                self.at = BootPoint::Finished;
            },
            _ => {},
        }
    }
}

// ---------------------------------------------------------------------------
// The end
// ---------------------------------------------------------------------------

/// What the thread that ends the stack does next.
#[derive(Clone, Copy, Debug, PartialEq, Eq, Structural)]
pub enum ExitPoint {
    /// Tell the thread that boots the stack that the user has closed the shell.
    SetAbort,
    /// Take the backend out of its place, if it is there, to stop it.
    TakeBackend,
    StopBackend,
    /// Take the database out of its place, if it is there, to stop it.
    TakeMariadb,
    StopMariadb,
    Finished,
}

/// What came of it.
#[derive(Clone, Copy, Debug, PartialEq, Eq, Structural)]
pub enum ExitEvent {
    /// What was to be done is done.
    Done,
    /// Whether a child was in its place.
    Taken(bool),
}

/// How the end goes on. An event that does not belong to a point leaves it as it is.
pub open spec fn exit_next(at: ExitPoint, event: ExitEvent) -> ExitPoint {
    match (at, event) {
        (ExitPoint::SetAbort, ExitEvent::Done) => ExitPoint::TakeBackend,
        (ExitPoint::TakeBackend, ExitEvent::Taken(there)) => if there {
            ExitPoint::StopBackend
        } else {
            ExitPoint::TakeMariadb
        },
        (ExitPoint::StopBackend, ExitEvent::Done) => ExitPoint::TakeMariadb,
        (ExitPoint::TakeMariadb, ExitEvent::Taken(there)) => if there {
            ExitPoint::StopMariadb
        } else {
            ExitPoint::Finished
        },
        (ExitPoint::StopMariadb, ExitEvent::Done) => ExitPoint::Finished,
        _ => at,
    }
}

/// How the end of the stack goes on: the backend is stopped before the database that it
/// uses.
pub fn shutdown_children(at: ExitPoint, event: ExitEvent) -> (next: ExitPoint)
    ensures
        next == exit_next(at, event),
{
    match (at, event) {
        (ExitPoint::SetAbort, ExitEvent::Done) => ExitPoint::TakeBackend,
        (ExitPoint::TakeBackend, ExitEvent::Taken(there)) => if there {
            ExitPoint::StopBackend
        } else {
            ExitPoint::TakeMariadb
        },
        (ExitPoint::StopBackend, ExitEvent::Done) => ExitPoint::TakeMariadb,
        (ExitPoint::TakeMariadb, ExitEvent::Taken(there)) => if there {
            ExitPoint::StopMariadb
        } else {
            ExitPoint::Finished
        },
        (ExitPoint::StopMariadb, ExitEvent::Done) => ExitPoint::Finished,
        _ => at,
    }
}

// ---------------------------------------------------------------------------
// What the user is told
// ---------------------------------------------------------------------------

/// What the user is told of the device bridge where the stack did not come up; nothing
/// where the bridge listens.
pub open spec fn bridge_note(status: StatusView) -> Option<Seq<char>> {
    match status {
        StatusView::Ready => None,
        StatusView::Failed(message) => Some(message),
        StatusView::Starting => Some(
            "Port 19500 (printer / cash-drawer bridge) is busy — another Kiosk instance may be running. Close it, or kill the stray kiosk-desktop process in Task Manager, then relaunch."@,
        ),
    }
}

/// What the user is told of the device bridge where the stack did not come up.
pub fn device_bridge_note(status: &BridgeStatus) -> (note: Option<String>)
    ensures
        text_option(note) == bridge_note(status@),
{
    match status {
        BridgeStatus::Ready => None,
        BridgeStatus::Failed(message) => Some(message.clone()),
        BridgeStatus::Starting => Some(
            "Port 19500 (printer / cash-drawer bridge) is busy — another Kiosk instance may be running. Close it, or kill the stray kiosk-desktop process in Task Manager, then relaunch.".to_owned(),
        ),
    }
}

/// What the user is told where the stack did not come up.
pub open spec fn failure_text(
    message: Seq<char>,
    app_data_shown: Seq<char>,
    status: StatusView,
) -> Seq<char> {
    message + "\n\nLog file: "@ + app_data_shown + "/kiosk.log"@ + (match bridge_note(status) {
        Some(note) => "\n\nDevice bridge: "@ + note,
        None => seq![],
    })
}

/// What the user is told where the stack did not come up: why, where the log is, and
/// what is wrong with the device bridge.
pub fn boot_failure_text(message: &str, app_data_shown: &str, status: &BridgeStatus) -> (text:
    String)
    ensures
        text@ == failure_text(message@, app_data_shown@, status@),
        text@ == message@ + "\n\nLog file: "@ + app_data_shown@ + "/kiosk.log"@ + (match bridge_note(
            status@,
        ) {
            Some(note) => "\n\nDevice bridge: "@ + note,
            None => seq![],
        }),
{
    let mut text: String = message.to_owned();
    text.append("\n\nLog file: ");
    text.append(app_data_shown);
    text.append("/kiosk.log");
    let ghost before = text@;
    match device_bridge_note(status) {
        Some(note) => {
            text.append("\n\nDevice bridge: ");
            text.append(note.as_str());
            assert(text@ == before + ("\n\nDevice bridge: "@ + note@));
        },
        None => {
            assert(text@ == before + Seq::<char>::empty());
        },
    }
    text
}

} // verus!
