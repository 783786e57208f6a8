//! What holds of the device bridge: what a client gets for what it asks, where the bytes of
//! a job go, and how the port is taken.

use vstd::prelude::*;
use vstd::utf8::{is_ascii_chars, is_ascii_chars_encode_utf8};

use crate::devices::{
    bind_decision, delivery_of, handled, job_reply, lp_args, lp_result, settings, settled,
    spool_name, status_after, valid_cups_name, BindEvent, BindView, ConfigFile, DeliveryView,
    HandlingView, Job, PrinterView, StatusView, BIND_RETRY_INTERVAL_MILLIS,
    BIND_RETRY_WINDOW_SECS, DEVICE_PORT,
};
use crate::error::{ErrorKind, ErrorView};
use crate::http::RequestView;
use crate::number::{decimal, is_digit, lemma_decimal_digits};
use crate::path::{PathView, RootView};
use crate::reply::ReplyView;
use crate::text_laws::{law_decimal_is_unique, law_trim_takes_what_is_around, lemma_between};

verus! {

// ---------------------------------------------------------------------------
// Requests
// ---------------------------------------------------------------------------

/// A queue may be named with up to 120 ASCII letters, digits, dots, underscores and
/// hyphens, at least one of them, and with nothing else.
pub proof fn law_queue_names_are_plain(name: Seq<char>)
    ensures
        valid_cups_name(name) <==> {
            &&& 1 <= name.len() <= 120
            &&& forall|i: int|
                0 <= i < name.len() ==> {
                    let c = #[trigger] name[i];
                    ('a' <= c <= 'z') || ('A' <= c <= 'Z') || ('0' <= c <= '9') || c == '.' || c
                        == '_' || c == '-'
                }
        },
{
    if forall|i: int|
        0 <= i < name.len() ==> {
            let c = #[trigger] name[i];
            ('a' <= c <= 'z') || ('A' <= c <= 'Z') || ('0' <= c <= '9') || c == '.' || c == '_' || c
                == '-'
        } {
        assert(is_ascii_chars(name));
        is_ascii_chars_encode_utf8(name);
    }
}

/// Every request to open the drawer opens it, whatever its body: the pulse for pin 2 and
/// that for pin 5 go to the queue that the request names, if it names one, and to the
/// configured printer if not. Only a name that no queue can have is refused.
pub proof fn law_drawer_opens_whatever_the_body(request: RequestView)
    requires
        request.method == "POST"@,
        request.path == "/drawer/kick"@ || request.path == "/drawer/kick/"@,
    ensures
        ({
            let named = request.headers.dom().contains("x-printer-cups-name"@);
            let name = request.headers["x-printer-cups-name"@];
            let pulse = seq![
                0x1bu8,
                0x70u8,
                0x00u8,
                0x19u8,
                0xfau8,
                0x1bu8,
                0x70u8,
                0x01u8,
                0x19u8,
                0xfau8,
            ];
            &&& !named ==> handled(request) == (HandlingView::Printer {
                job: Job::Drawer,
                data: pulse,
            })
            &&& named && valid_cups_name(name) ==> handled(request) == (HandlingView::Cups {
                job: Job::Drawer,
                name,
                data: pulse,
            })
            &&& named && !valid_cups_name(name) ==> handled(request) == HandlingView::Reply(
                ReplyView { status: 400, json: false, body: "invalid CUPS printer name"@ },
            )
        }),
{
    lemma_methods_and_paths();
}

/// Every request to print something prints just that: its body goes to the queue that it
/// names, if it names one, and to the configured printer if not. Refused are an empty body
/// and a name that no queue can have.
pub proof fn law_prints_what_was_posted(request: RequestView)
    requires
        request.method == "POST"@,
        request.path == "/print"@ || request.path == "/print/"@,
    ensures
        ({
            let named = request.headers.dom().contains("x-printer-cups-name"@);
            let name = request.headers["x-printer-cups-name"@];
            &&& request.body.len() == 0 ==> handled(request) == HandlingView::Reply(
                ReplyView { status: 400, json: false, body: "empty body"@ },
            )
            &&& request.body.len() > 0 && !named ==> handled(request) == (HandlingView::Printer {
                job: Job::Print,
                data: request.body,
            })
            &&& request.body.len() > 0 && named && valid_cups_name(name) ==> handled(request) == (
            HandlingView::Cups { job: Job::Print, name, data: request.body })
            &&& request.body.len() > 0 && named && !valid_cups_name(name) ==> handled(request)
                == HandlingView::Reply(
                ReplyView { status: 400, json: false, body: "invalid CUPS printer name"@ },
            )
        }),
{
    lemma_methods_and_paths();
}

/// A browser that asks what it may do is answered on every path, and one that asks whether
/// the bridge is there is told so. Neither reaches a device.
pub proof fn law_questions_are_answered(request: RequestView)
    ensures
        request.method == "OPTIONS"@ ==> handled(request) == HandlingView::Reply(
            ReplyView { status: 204, json: false, body: ""@ },
        ),
        request.method == "GET"@ && (request.path == "/health"@ || request.path == "/health/"@)
            ==> handled(request) == HandlingView::Reply(
            ReplyView { status: 200, json: true, body: "{\"ok\":true,\"cups\":true}"@ },
        ),
{
    lemma_methods_and_paths();
}

/// Anything else is not found.
pub proof fn law_other_requests_are_not_found(request: RequestView)
    requires
        request.method != "OPTIONS"@,
        request.method == "GET"@ ==> request.path != "/health"@ && request.path != "/health/"@,
        request.method == "POST"@ ==> request.path != "/print"@ && request.path != "/print/"@
            && request.path != "/drawer/kick"@ && request.path != "/drawer/kick/"@,
    ensures
        handled(request) == HandlingView::Reply(
            ReplyView { status: 404, json: false, body: "not found"@ },
        ),
{
    lemma_methods_and_paths();
}

proof fn lemma_methods_and_paths()
    ensures
        "POST"@ != "OPTIONS"@,
        "POST"@ != "GET"@,
        "GET"@ != "OPTIONS"@,
        "/health/"@ == "/health"@.push('/'),
        "/print/"@ == "/print"@.push('/'),
        "/drawer/kick/"@ == "/drawer/kick"@.push('/'),
        "/print"@ != "/drawer/kick"@,
        "/print"@ != "/drawer/kick/"@,
        "/print/"@ != "/drawer/kick"@,
        "/print/"@ != "/drawer/kick/"@,
{
    reveal_strlit("POST");
    reveal_strlit("OPTIONS");
    reveal_strlit("GET");
    reveal_strlit("/health");
    reveal_strlit("/health/");
    reveal_strlit("/print");
    reveal_strlit("/print/");
    reveal_strlit("/drawer/kick");
    reveal_strlit("/drawer/kick/");
    assert("POST"@.len() == 4 && "OPTIONS"@.len() == 7 && "GET"@.len() == 3);
    assert("/print"@.len() == 6 && "/print/"@.len() == 7);
    assert("/drawer/kick"@.len() == 12 && "/drawer/kick/"@.len() == 13);
    assert("/health/"@ =~= "/health"@.push('/'));
    assert("/print/"@ =~= "/print"@.push('/'));
    assert("/drawer/kick/"@ =~= "/drawer/kick"@.push('/'));
}

/// A job that went well is answered with 200 and a word for the job; one that did not is
/// answered with 500 and the very error. The answer is never JSON.
pub proof fn law_clients_are_told_how_a_job_went(job: Job, error: Seq<char>)
    ensures
        job_reply(Job::Print, Ok(())) == (ReplyView { status: 200, json: false, body: "printed"@ }),
        job_reply(Job::Drawer, Ok(())) == (ReplyView { status: 200, json: false, body: "drawer"@ }),
        job_reply(job, Err(error)) == (ReplyView { status: 500, json: false, body: error }),
{
}

// ---------------------------------------------------------------------------
// The configured printer
// ---------------------------------------------------------------------------

/// Network settings send the whole job to their own host and port, whatever path they hold;
/// without a host they are an error.
pub proof fn law_network_jobs_go_to_the_configured_address(
    config: PrinterView,
    app_data: PathView,
    data: Seq<u8>,
)
    requires
        config.mode == "network"@,
    ensures
        config.host.len() > 0 ==> delivery_of(config, app_data, data) == Ok::<
            DeliveryView,
            ErrorView,
        >(DeliveryView::Send { addr: config.host + ":"@ + decimal(config.port as nat), data }),
        config.host.len() == 0 ==> delivery_of(config, app_data, data) == Err::<
            DeliveryView,
            ErrorView,
        >(
            ErrorView {
                kind: ErrorKind::InvalidInput,
                message: "printer.json: host required for network mode"@,
            },
        ),
{
    lemma_modes();
}

/// Network settings that differ in their port send to different addresses.
pub proof fn law_different_ports_are_different_addresses(
    a: PrinterView,
    b: PrinterView,
    app_data: PathView,
    data: Seq<u8>,
)
    requires
        a.mode == "network"@ && b.mode == "network"@,
        a.host == b.host,
        a.host.len() > 0,
        a.port != b.port,
    ensures
        delivery_of(a, app_data, data) != delivery_of(b, app_data, data),
{
    lemma_modes();
    let (x, y) = (decimal(a.port as nat), decimal(b.port as nat));
    if a.host + ":"@ + x == a.host + ":"@ + y {
        let start = a.host + ":"@;
        assert(start + x + Seq::<char>::empty() == start + x);
        assert(start + y + Seq::<char>::empty() == start + y);
        lemma_between(start, x, y, seq![]);
        law_decimal_is_unique(a.port as nat, b.port as nat);
    }
}

/// Settings of mode `none` drop every job; those of any other mode but `network` append
/// the whole job to the file that they name, and to the receipts of the installation where
/// they name none. Host and port do not matter to either.
pub proof fn law_other_jobs_go_to_a_file_or_nowhere(
    config: PrinterView,
    app_data: PathView,
    data: Seq<u8>,
)
    ensures
        config.mode == "none"@ ==> delivery_of(config, app_data, data) == Ok::<
            DeliveryView,
            ErrorView,
        >(DeliveryView::Drop),
        config.mode != "none"@ && config.mode != "network"@ && config.path.len() > 0
            ==> delivery_of(config, app_data, data) == Ok::<DeliveryView, ErrorView>(
            DeliveryView::Append {
                path: PathView { root: RootView::Text(config.path), parts: seq![] },
                data,
            },
        ),
        config.mode != "none"@ && config.mode != "network"@ && config.path.len() == 0
            ==> delivery_of(config, app_data, data) == Ok::<DeliveryView, ErrorView>(
            DeliveryView::Append {
                path: PathView {
                    root: app_data.root,
                    parts: app_data.parts.push("receipts.log"@),
                },
                data,
            },
        ),
{
    lemma_modes();
}

/// Settings that could be read are the ones that apply. Without any, and with some that
/// make no sense, a job is appended to the default receipts; with a file that cannot be
/// read, every job is dropped.
pub proof fn law_settings_have_defaults(
    file: ConfigFile,
    receipts: Seq<char>,
    app_data: PathView,
    data: Seq<u8>,
)
    requires
        receipts.len() > 0,
    ensures
        file matches ConfigFile::Parsed(c) ==> settings(file, receipts) == c@,
        file is Missing || file is Malformed ==> {
            &&& delivery_of(settings(file, receipts), app_data, data) == Ok::<
                DeliveryView,
                ErrorView,
            >(
                DeliveryView::Append {
                    path: PathView { root: RootView::Text(receipts), parts: seq![] },
                    data,
                },
            )
            &&& settings(file, receipts).mode == "file"@
            &&& settings(file, receipts).port == 9100
            &&& settings(file, receipts).host.len() == 0
        },
        file is Unreadable ==> {
            &&& delivery_of(settings(file, receipts), app_data, data) == Ok::<
                DeliveryView,
                ErrorView,
            >(DeliveryView::Drop)
            &&& settings(file, receipts).port == 9100
            &&& settings(file, receipts).host.len() == 0
            &&& settings(file, receipts).path.len() == 0
        },
{
    lemma_modes();
    reveal_strlit("");
}

proof fn lemma_modes()
    ensures
        "none"@ != "network"@,
        "file"@ != "network"@,
        "file"@ != "none"@,
{
    reveal_strlit("none");
    reveal_strlit("network");
    reveal_strlit("file");
    assert("none"@.len() == 4 && "network"@.len() == 7 && "file"@[0] == 'f' && "none"@[0] == 'n');
}

// ---------------------------------------------------------------------------
// CUPS
// ---------------------------------------------------------------------------

/// `lp` is told the queue and the file as they are, and to send the file raw.
pub proof fn law_lp_is_told_queue_and_file(queue: Seq<char>, file: Seq<char>)
    ensures
        lp_args(queue, file).len() == 7,
        lp_args(queue, file)[0] == "-d"@ && lp_args(queue, file)[1] == queue,
        lp_args(queue, file)[2] == "-o"@ && lp_args(queue, file)[3] == "raw"@,
        lp_args(queue, file)[4] == "-o"@ && lp_args(queue, file)[5]
            == "document-format=application/vnd.cups-raw"@,
        lp_args(queue, file)[6] == file,
{
}

/// Files of different processes, or of different times, have different names.
pub proof fn law_spool_names_are_unique(pid_a: u32, millis_a: u128, pid_b: u32, millis_b: u128)
    ensures
        spool_name(pid_a, millis_a) == spool_name(pid_b, millis_b) ==> pid_a == pid_b && millis_a
            == millis_b,
        spool_name(pid_a, millis_a) == "palmart-escpos-"@ + decimal(pid_a as nat) + "-"@ + decimal(
            millis_a as nat,
        ) + ".bin"@,
{
    if spool_name(pid_a, millis_a) == spool_name(pid_b, millis_b) {
        let start = "palmart-escpos-"@;
        let end = ".bin"@;
        let (p, q) = (decimal(pid_a as nat), decimal(pid_b as nat));
        let (s, t) = (decimal(millis_a as nat), decimal(millis_b as nat));
        let (x, y) = (p + "-"@ + s, q + "-"@ + t);
        assert(spool_name(pid_a, millis_a) == start + x + end);
        assert(spool_name(pid_b, millis_b) == start + y + end);
        lemma_between(start, x, y, end);
        reveal_strlit("-");
        lemma_decimal_digits(pid_a as nat);
        lemma_decimal_digits(pid_b as nat);
        assert(x[p.len() as int] == '-' && y[q.len() as int] == '-');
        if p.len() < q.len() {
            assert(y[p.len() as int] == q[p.len() as int]);
            assert(is_digit(q[p.len() as int]));
        } else if q.len() < p.len() {
            assert(x[q.len() as int] == p[q.len() as int]);
            assert(is_digit(p[q.len() as int]));
        }
        assert(x.take(p.len() as int) == p && y.take(q.len() as int) == q);
        assert(x.skip(p.len() + 1int) == s && y.skip(q.len() + 1int) == t);
        law_decimal_is_unique(pid_a as nat, pid_b as nat);
        law_decimal_is_unique(millis_a as nat, millis_b as nat);
    }
}

/// An `lp` that went well is no error whatever it wrote; one that did not is an error with
/// just what it wrote, the white space around it aside.
pub proof fn law_lp_says_why_it_failed(said: Seq<char>)
    requires
        said.len() > 0 ==> !crate::text::is_space(said[0]) && !crate::text::is_space(said.last()),
    ensures
        lp_result(true, said) is Ok,
        lp_result(false, said.push('\n')) == Err::<(), ErrorView>(
            ErrorView { kind: ErrorKind::Other, message: said },
        ),
{
    law_trim_takes_what_is_around(seq![], said, seq!['\n']);
    assert(Seq::<char>::empty() + said + seq!['\n'] == said.push('\n'));
}

// ---------------------------------------------------------------------------
// Taking the port
// ---------------------------------------------------------------------------

/// The bridge is at port 19500; a busy port is tried for 30 seconds, every 750
/// milliseconds.
pub proof fn law_bridge_port_and_times()
    ensures
        DEVICE_PORT == 19500,
        BIND_RETRY_WINDOW_SECS == 30,
        BIND_RETRY_INTERVAL_MILLIS == 750,
{
}

/// A port that was taken is listened on, however long that took. A busy one is tried again
/// until the time is over, with one notice at the first time. Any other error ends the
/// bridge at once, and is what it is known to have failed of.
pub proof fn law_bridge_takes_its_port(
    addr: Seq<char>,
    error: String,
    tried_before: bool,
    time_over: bool,
)
    ensures
        bind_decision(addr, BindEvent::Bound, tried_before, time_over) is Listen,
        !time_over ==> bind_decision(addr, BindEvent::Busy, tried_before, time_over) == (
        BindView::Retry { first: !tried_before }),
        bind_decision(addr, BindEvent::Busy, tried_before, true) == BindView::StillBusy(
            ErrorView {
                kind: ErrorKind::AddrInUse,
                message: "could not bind "@ + addr
                    + ": port already in use. Another Kiosk instance is likely running — close it, or kill the stray kiosk-desktop process in Task Manager, then relaunch. Printing and cash-drawer control stay unavailable until the port is free."@,
            },
        ),
        bind_decision(addr, BindEvent::Failed(error), tried_before, time_over) == BindView::Broken(
            error@,
        ),
{
}

/// The bridge is ready exactly where it listens, starting exactly where it tries again, and
/// failed, with the reason, where it gave up.
pub proof fn law_status_says_what_came_of_it(first: bool, e: ErrorView, m: Seq<char>)
    ensures
        status_after(BindView::Listen) is Ready,
        status_after(BindView::Retry { first }) is Starting,
        status_after(BindView::StillBusy(e)) == StatusView::Failed(e.message),
        status_after(BindView::Broken(m)) == StatusView::Failed(m),
{
}

/// A wait for the bridge goes on exactly while nothing is settled and there is time; it
/// ends with the status that was seen.
pub proof fn law_wait_for_the_bridge_ends_with_what_was_seen(status: StatusView, time_over: bool)
    ensures
        settled(status, true) == Some(status),
        !(status is Starting) ==> settled(status, time_over) == Some(status),
        settled(StatusView::Starting, false) is None,
{
}

} // verus!
