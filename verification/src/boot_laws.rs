//! What holds of the steps of starting and ending the stack, and of what the user is told.

use vstd::prelude::*;

use crate::boot::{
    boot_next, bridge_note, exit_next, failure_text, BootErrorView, BootEventView, BootPoint,
    BootView, ExitEvent, ExitPoint,
};
use crate::devices::StatusView;
use crate::number::decimal;

verus! {

/// A boot that meets no trouble starts the database, puts it into its place, starts the
/// backend, puts it into its place, waits for it, and is done; between, it looks whether the
/// user is still there.
pub proof fn law_a_boot_without_trouble_goes_through(boot: BootView)
    ensures
        ({
            let at = |p: BootPoint| BootView { port: boot.port, at: p, error: None };
            &&& boot_next(at(BootPoint::CheckPort), BootEventView::PortOpen(false)) == at(
                BootPoint::StartMariadb,
            )
            &&& boot_next(at(BootPoint::StartMariadb), BootEventView::Started) == at(
                BootPoint::AbortAfterMariadb,
            )
            &&& boot_next(at(BootPoint::AbortAfterMariadb), BootEventView::Aborted(false)) == at(
                BootPoint::StoreMariadb,
            )
            &&& boot_next(at(BootPoint::StoreMariadb), BootEventView::Done) == at(
                BootPoint::StartBackend,
            )
            &&& boot_next(at(BootPoint::StartBackend), BootEventView::Started) == at(
                BootPoint::AbortAfterBackend,
            )
            &&& boot_next(at(BootPoint::AbortAfterBackend), BootEventView::Aborted(false)) == at(
                BootPoint::StoreBackend,
            )
            &&& boot_next(at(BootPoint::StoreBackend), BootEventView::Done) == at(
                BootPoint::AwaitHealth,
            )
            &&& boot_next(at(BootPoint::AwaitHealth), BootEventView::Healthy) == at(
                BootPoint::Finished,
            )
        }),
{
}

/// Each trouble ends the boot with a message of its own, which holds the reason as it was
/// given, and goes to clean up what is there.
pub proof fn law_each_trouble_has_its_message(boot: BootView, why: Seq<char>)
    ensures
        ({
            let failed = |message: Seq<char>| Some(BootErrorView { message, cancelled: false });
            &&& boot.at is CheckPort ==> {
                &&& boot_next(boot, BootEventView::PortOpen(true)).at is TakeBackend
                &&& boot_next(boot, BootEventView::PortOpen(true)).error == failed(
                    "Port "@ + decimal(boot.port as nat)
                        + " is already in use — another Kiosk Desktop instance is running. Close it (system tray / Task Manager), or kill stray kiosk-desktop, java and mariadbd processes, then relaunch."@,
                )
            }
            &&& boot.at is StartMariadb ==> {
                &&& boot_next(boot, BootEventView::NotStarted(why)).at is TakeBackend
                &&& boot_next(boot, BootEventView::NotStarted(why)).error == failed(
                    "MariaDB failed to start: "@ + why,
                )
            }
            &&& boot.at is StartBackend ==> {
                &&& boot_next(boot, BootEventView::NotStarted(why)).at is TakeBackend
                &&& boot_next(boot, BootEventView::NotStarted(why)).error == failed(
                    "Backend JVM failed to start: "@ + why,
                )
            }
            &&& boot.at is AwaitHealth ==> {
                &&& boot_next(boot, BootEventView::Unhealthy(why)).at is AbortAfterWait
                &&& boot_next(boot, BootEventView::Unhealthy(why)).error == failed(
                    "Backend never reported healthy: "@ + why,
                )
            }
        }),
{
}

/// Wherever the boot finds the user gone it is cancelled, with nothing to tell, and stops
/// first what it has just started. A backend that got not healthy while the user was there
/// stays a failure.
pub proof fn law_a_user_who_is_gone_cancels_the_boot(boot: BootView)
    ensures
        ({
            let next = boot_next(boot, BootEventView::Aborted(true));
            let cancelled = Some(BootErrorView { message: seq![], cancelled: true });
            &&& boot.at is AbortAfterMariadb ==> next.at is StopNewMariadb && next.error
                == cancelled
            &&& boot.at is AbortAfterBackend ==> next.at is TakeMariadbOnAbort && next.error
                == cancelled
            &&& boot.at is AbortAfterWait ==> next.at is TakeBackend && next.error == cancelled
            &&& boot.at is AbortAfterWait ==> boot_next(boot, BootEventView::Aborted(false)) == (
            BootView { port: boot.port, at: BootPoint::TakeBackend, error: boot.error })
        }),
{
}

/// Cleaning up keeps the error. What is taken is stopped; what is not there is passed over;
/// the backend comes before the database, but for a boot that was cancelled right after the
/// backend was started, which has the database out of its place first.
pub proof fn law_cleaning_up_keeps_the_error(boot: BootView, there: bool)
    ensures
        ({
            let to = |p: BootPoint| BootView { port: boot.port, at: p, error: boot.error };
            let taken = boot_next(boot, BootEventView::Taken(there));
            let done = boot_next(boot, BootEventView::Done);
            &&& boot.at is StopNewMariadb ==> done == to(BootPoint::TakeBackend)
            &&& boot.at is TakeMariadbOnAbort && there ==> taken == to(
                BootPoint::StopMariadbOnAbort,
            )
            &&& boot.at is TakeMariadbOnAbort && !there ==> taken == to(
                BootPoint::TerminateNewBackend,
            )
            &&& boot.at is StopMariadbOnAbort ==> done == to(BootPoint::TerminateNewBackend)
            &&& boot.at is TerminateNewBackend ==> done == to(BootPoint::TakeBackend)
            &&& boot.at is TakeBackend && there ==> taken == to(BootPoint::TerminateBackend)
            &&& boot.at is TakeBackend && !there ==> taken == to(BootPoint::TakeMariadb)
            &&& boot.at is TerminateBackend ==> done == to(BootPoint::TakeMariadb)
            &&& boot.at is TakeMariadb && there ==> taken == to(BootPoint::StopMariadb)
            &&& boot.at is TakeMariadb && !there ==> taken == to(BootPoint::Finished)
            &&& boot.at is StopMariadb ==> done == to(BootPoint::Finished)
        }),
{
}

/// A boot moves only by what can come of the point it is at, never changes its port, and
/// never moves again once it is finished.
pub proof fn law_a_boot_moves_only_by_what_belongs(boot: BootView, event: BootEventView)
    ensures
        boot_next(boot, event).port == boot.port,
        boot.at is Finished ==> boot_next(boot, event) == boot,
        boot_next(boot, event) != boot ==> {
            ||| event is PortOpen && boot.at is CheckPort
            ||| (event is Started || event is NotStarted) && (boot.at is StartMariadb
                || boot.at is StartBackend)
            ||| event is Aborted && (boot.at is AbortAfterMariadb || boot.at is AbortAfterBackend
                || boot.at is AbortAfterWait)
            ||| event is Taken && (boot.at is TakeMariadbOnAbort || boot.at is TakeBackend
                || boot.at is TakeMariadb)
            ||| (event is Healthy || event is Unhealthy) && boot.at is AwaitHealth
            ||| event is Done && (boot.at is StopNewMariadb || boot.at is StoreMariadb
                || boot.at is StopMariadbOnAbort || boot.at is TerminateNewBackend
                || boot.at is StoreBackend || boot.at is TerminateBackend || boot.at is StopMariadb)
        },
{
}

/// The end of the stack tells the boot first, then takes and stops the backend, and then the
/// database; what is not in its place is passed over. It moves by nothing else.
pub proof fn law_the_end_stops_backend_before_database(at: ExitPoint, event: ExitEvent)
    ensures
        exit_next(ExitPoint::SetAbort, ExitEvent::Done) == ExitPoint::TakeBackend,
        exit_next(ExitPoint::TakeBackend, ExitEvent::Taken(true)) == ExitPoint::StopBackend,
        exit_next(ExitPoint::TakeBackend, ExitEvent::Taken(false)) == ExitPoint::TakeMariadb,
        exit_next(ExitPoint::StopBackend, ExitEvent::Done) == ExitPoint::TakeMariadb,
        exit_next(ExitPoint::TakeMariadb, ExitEvent::Taken(true)) == ExitPoint::StopMariadb,
        exit_next(ExitPoint::TakeMariadb, ExitEvent::Taken(false)) == ExitPoint::Finished,
        exit_next(ExitPoint::StopMariadb, ExitEvent::Done) == ExitPoint::Finished,
        exit_next(ExitPoint::Finished, event) == ExitPoint::Finished,
        event is Taken && at != ExitPoint::TakeBackend && at != ExitPoint::TakeMariadb
            ==> exit_next(at, event) == at,
        event is Done && (at == ExitPoint::TakeBackend || at == ExitPoint::TakeMariadb)
            ==> exit_next(at, event) == at,
{
}

/// The user is told the reason as it is and where the log is; of the bridge exactly where it
/// does not listen: its own reason, or that its port is busy.
pub proof fn law_the_user_is_told_the_reason_and_the_log(
    message: Seq<char>,
    shown: Seq<char>,
    why: Seq<char>,
)
    ensures
        failure_text(message, shown, StatusView::Ready) == message + "\n\nLog file: "@ + shown
            + "/kiosk.log"@,
        failure_text(message, shown, StatusView::Failed(why)) == failure_text(
            message,
            shown,
            StatusView::Ready,
        ) + ("\n\nDevice bridge: "@ + why),
        failure_text(message, shown, StatusView::Starting) == failure_text(
            message,
            shown,
            StatusView::Ready,
        ) + ("\n\nDevice bridge: "@
            + "Port 19500 (printer / cash-drawer bridge) is busy — another Kiosk instance may be running. Close it, or kill the stray kiosk-desktop process in Task Manager, then relaunch."@),
        bridge_note(StatusView::Ready) is None,
        bridge_note(StatusView::Failed(why)) == Some(why),
        bridge_note(StatusView::Starting) == Some(
            "Port 19500 (printer / cash-drawer bridge) is busy — another Kiosk instance may be running. Close it, or kill the stray kiosk-desktop process in Task Manager, then relaunch."@,
        ),
{
    let text = message + "\n\nLog file: "@ + shown + "/kiosk.log"@;
    assert(failure_text(message, shown, StatusView::Ready) == text + Seq::<char>::empty());
}

} // verus!
