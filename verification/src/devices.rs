//! The bridge to receipt printers and cash drawers: what it does with a request,
//! where a receipt goes, and how it takes its port.

use vstd::prelude::*;
use vstd::utf8::{decode_utf8, encode_utf8, valid_utf8};

use crate::error::{ErrorKind, ErrorView, ShellError};
use crate::http::{header_ci, HttpRequest, RequestView};
use crate::number::{decimal, push_decimal};
use crate::outside::{text_from_utf8_lossy, utf8_lossy};
use crate::path::{text_path, DesktopPath, PathView};
use crate::reply::{Reply, ReplyView};
use crate::text::{chars_of, str_eq, texts, trim, trim_text};

verus! {

/// The port of the bridge.
pub const DEVICE_PORT: u16 = 19500;

/// How long a busy port is tried, in seconds.
pub const BIND_RETRY_WINDOW_SECS: u64 = 30;

/// The pause between two tries, in milliseconds.
pub const BIND_RETRY_INTERVAL_MILLIS: u64 = 750;

// ---------------------------------------------------------------------------
// Requests
// ---------------------------------------------------------------------------

/// What a request wants of a device.
#[derive(Clone, Copy, Debug, PartialEq, Eq, Structural)]
pub enum Job {
    Print,
    Drawer,
}

/// What to do with a request.
pub enum Handling {
    /// Reply at once.
    Reply(Reply),
    /// Send `data` to the CUPS queue `name`, then reply by the outcome.
    Cups { job: Job, name: String, data: Vec<u8> },
    /// Send `data` to the configured printer, then reply by the outcome.
    Printer { job: Job, data: Vec<u8> },
}

/// What to do with a request, as a value.
pub enum HandlingView {
    Reply(ReplyView),
    Cups { job: Job, name: Seq<char>, data: Seq<u8> },
    Printer { job: Job, data: Seq<u8> },
}

impl View for Handling {
    type V = HandlingView;

    open spec fn view(&self) -> HandlingView {
        match *self {
            Handling::Reply(r) => HandlingView::Reply(r@),
            Handling::Cups { job, name, data } => HandlingView::Cups {
                job,
                name: name@,
                data: data@,
            },
            Handling::Printer { job, data } => HandlingView::Printer { job, data: data@ },
        }
    }
}

/// The ESC/POS pulse that opens a drawer: pin 2, then pin 5.
pub open spec fn drawer_pulse() -> Seq<u8> {
    seq![0x1bu8, 0x70u8, 0x00u8, 0x19u8, 0xfau8, 0x1bu8, 0x70u8, 0x01u8, 0x19u8, 0xfau8]
}

pub open spec fn is_cups_char(c: char) -> bool {
    ('0' <= c <= '9') || ('A' <= c <= 'Z') || ('a' <= c <= 'z') || c == '.' || c == '_' || c == '-'
}

/// Whether `name` may name a CUPS queue: 1 to 120 bytes, all of them ASCII letters,
/// digits, dots, underscores and hyphens.
pub open spec fn valid_cups_name(name: Seq<char>) -> bool {
    &&& name.len() > 0
    &&& encode_utf8(name).len() <= 120
    &&& forall|i: int| 0 <= i < name.len() ==> is_cups_char(#[trigger] name[i])
}

pub open spec fn plain_reply(status: u16, body: Seq<char>) -> HandlingView {
    HandlingView::Reply(ReplyView { status, json: false, body })
}

/// Where a job goes: to the CUPS queue that the request names, if it names one, else
/// to the configured printer.
pub open spec fn dispatched(
    job: Job,
    headers: Map<Seq<char>, Seq<char>>,
    data: Seq<u8>,
) -> HandlingView {
    if headers.dom().contains("x-printer-cups-name"@) {
        let name = headers["x-printer-cups-name"@];
        if valid_cups_name(name) {
            HandlingView::Cups { job, name, data }
        } else {
            plain_reply(400, "invalid CUPS printer name"@)
        }
    } else {
        HandlingView::Printer { job, data }
    }
}

pub open spec fn is_path(path: Seq<char>, name: Seq<char>) -> bool {
    path == name || path == name.push('/')
}

/// What the bridge does with a request.
pub open spec fn handled(request: RequestView) -> HandlingView {
    if request.method == "OPTIONS"@ {
        plain_reply(204, ""@)
    } else if request.method == "GET"@ && is_path(request.path, "/health"@) {
        HandlingView::Reply(
            ReplyView { status: 200, json: true, body: "{\"ok\":true,\"cups\":true}"@ },
        )
    } else if request.method == "POST"@ && is_path(request.path, "/print"@) {
        if request.body.len() == 0 {
            plain_reply(400, "empty body"@)
        } else {
            dispatched(Job::Print, request.headers, request.body)
        }
    } else if request.method == "POST"@ && is_path(request.path, "/drawer/kick"@) {
        dispatched(Job::Drawer, request.headers, drawer_pulse())
    } else {
        plain_reply(404, "not found"@)
    }
}

/// The reply to a job, by its outcome: the error, where it failed.
pub open spec fn job_reply(job: Job, outcome: Result<(), Seq<char>>) -> ReplyView {
    match outcome {
        Ok(_) => ReplyView {
            status: 200,
            json: false,
            body: match job {
                Job::Print => "printed"@,
                Job::Drawer => "drawer"@,
            },
        },
        Err(e) => ReplyView { status: 500, json: false, body: e },
    }
}

/// The pulse that opens a drawer.
pub fn drawer_kick() -> (data: Vec<u8>)
    ensures
        data@ == drawer_pulse(),
{
    let data: Vec<u8> = vec![0x1b, 0x70, 0x00, 0x19, 0xfa, 0x1b, 0x70, 0x01, 0x19, 0xfa];
    assert(data@ == drawer_pulse());
    data
}

/// Whether `name` may name a CUPS queue.
pub fn is_valid_cups_name(name: &str) -> (valid: bool)
    ensures
        valid == valid_cups_name(name@),
{
    let chars = chars_of(name);
    if chars.len() == 0 || name.as_bytes().len() > 120 {
        return false;
    }
    let mut i: usize = 0;
    while i < chars.len()
        invariant
            i <= chars@.len(),
            chars@ == name@,
            forall|j: int| 0 <= j < i ==> is_cups_char(#[trigger] name@[j]),
        decreases chars@.len() - i,
    {
        let c = chars[i];
        if !(('0' <= c && c <= '9') || ('A' <= c && c <= 'Z') || ('a' <= c && c <= 'z') || c == '.'
            || c == '_' || c == '-') {
            assert(!is_cups_char(name@[i as int]));
            return false;
        }
        i += 1;
    }
    true
}

fn dispatch(job: Job, request: &HttpRequest, data: Vec<u8>) -> (h: Handling)
    ensures
        h@ == dispatched(job, request@.headers, data@),
{
    match header_ci(&request.headers, "x-printer-cups-name") {
        Some(name) => if is_valid_cups_name(name.as_str()) {
            Handling::Cups { job, name, data }
        } else {
            Handling::Reply(Reply::plain(400, "invalid CUPS printer name"))
        },
        None => Handling::Printer { job, data },
    }
}

fn names(path: &str, name: &str, with_slash: &str) -> (b: bool)
    requires
        with_slash@ == name@.push('/'),
    ensures
        b == is_path(path@, name@),
{
    str_eq(path, name) || str_eq(path, with_slash)
}

/// What the bridge does with a request.
pub fn handle_client(request: HttpRequest) -> (h: Handling)
    ensures
        h@ == handled(request@),
{
    proof {
        reveal_strlit("/health");
        reveal_strlit("/health/");
        reveal_strlit("/print");
        reveal_strlit("/print/");
        reveal_strlit("/drawer/kick");
        reveal_strlit("/drawer/kick/");
        assert("/health/"@ == "/health"@.push('/'));
        assert("/print/"@ == "/print"@.push('/'));
        assert("/drawer/kick/"@ == "/drawer/kick"@.push('/'));
    }
    let method = request.method.as_str();
    let path = request.path.as_str();
    if str_eq(method, "OPTIONS") {
        return Handling::Reply(Reply::plain(204, ""));
    }
    if str_eq(method, "GET") && names(path, "/health", "/health/") {
        return Handling::Reply(
            Reply { status: 200, json: true, body: "{\"ok\":true,\"cups\":true}".to_owned() },
        );
    }
    if str_eq(method, "POST") && names(path, "/print", "/print/") {
        if request.body.len() == 0 {
            return Handling::Reply(Reply::plain(400, "empty body"));
        }
        let data = vstd::slice::slice_to_vec(request.body.as_slice());
        return dispatch(Job::Print, &request, data);
    }
    if str_eq(method, "POST") && names(path, "/drawer/kick", "/drawer/kick/") {
        return dispatch(Job::Drawer, &request, drawer_kick());
    }
    Handling::Reply(Reply::plain(404, "not found"))
}

/// The outcome of a job as a value.
pub open spec fn outcome_view(outcome: Result<(), String>) -> Result<(), Seq<char>> {
    match outcome {
        Ok(_) => Ok(()),
        Err(e) => Err(e@),
    }
}

/// The reply to a job, by its outcome.
pub fn reply_to_job(job: Job, outcome: Result<(), String>) -> (reply: Reply)
    ensures
        reply@ == job_reply(job, outcome_view(outcome)),
{
    match outcome {
        Ok(_) => match job {
            Job::Print => Reply::plain(200, "printed"),
            Job::Drawer => Reply::plain(200, "drawer"),
        },
        Err(e) => Reply::plain(500, e.as_str()),
    }
}

/// Only a valid name ever reaches CUPS, and a device is only ever sent the body of a
/// print request or the drawer pulse.
pub proof fn law_devices_get_what_was_asked(request: RequestView)
    ensures
        match handled(request) {
            HandlingView::Reply(_) => true,
            HandlingView::Cups { job, name, data } => {
                &&& valid_cups_name(name)
                &&& request.headers.dom().contains("x-printer-cups-name"@)
                &&& request.headers["x-printer-cups-name"@] == name
                &&& data == (match job {
                    Job::Print => request.body,
                    Job::Drawer => drawer_pulse(),
                })
                &&& data.len() > 0
                &&& request.method == "POST"@
            },
            HandlingView::Printer { job, data } => {
                &&& !request.headers.dom().contains("x-printer-cups-name"@)
                &&& data == (match job {
                    Job::Print => request.body,
                    Job::Drawer => drawer_pulse(),
                })
                &&& data.len() > 0
                &&& request.method == "POST"@
            },
        },
{
}

/// What a client posts to be printed is what the printer is sent, byte for byte: the CUPS
/// queue that it names, or the configured printer.
pub proof fn law_posted_bytes_are_printed(request: RequestView)
    requires
        request.method == "POST"@,
        is_path(request.path, "/print"@),
        request.body.len() > 0,
    ensures
        handled(request) == dispatched(Job::Print, request.headers, request.body),
        !request.headers.dom().contains("x-printer-cups-name"@) ==> handled(request)
            == (HandlingView::Printer { job: Job::Print, data: request.body }),
{
    reveal_strlit("POST");
    reveal_strlit("OPTIONS");
    reveal_strlit("GET");
    assert("POST"@[0] != "OPTIONS"@[0]);
    assert("POST"@[0] != "GET"@[0]);
}

// ---------------------------------------------------------------------------
// CUPS
// ---------------------------------------------------------------------------

/// The `lp` program: the one in `/usr/bin` where it is there, else the one in `/bin`.
pub fn lp_program(in_usr_bin: bool, in_bin: bool) -> (r: Result<&'static str, ShellError>)
    ensures
        match r {
            Ok(program) => (in_usr_bin && program@ == "/usr/bin/lp"@) || (!in_usr_bin && in_bin
                && program@ == "/bin/lp"@),
            Err(e) => !in_usr_bin && !in_bin && e@ == (ErrorView {
                kind: ErrorKind::NotFound,
                message: "CUPS lp not found (expected /usr/bin/lp)"@,
            }),
        },
{
    if in_usr_bin {
        Ok("/usr/bin/lp")
    } else if in_bin {
        Ok("/bin/lp")
    } else {
        Err(ShellError::new(ErrorKind::NotFound, "CUPS lp not found (expected /usr/bin/lp)"))
    }
}

/// The name of the file that hands data to `lp`, by process and time.
pub open spec fn spool_name(pid: u32, unix_millis: u128) -> Seq<char> {
    "palmart-escpos-"@ + decimal(pid as nat) + "-"@ + decimal(unix_millis as nat) + ".bin"@
}

/// The name of the file that hands data to `lp`, by process and time.
pub fn spool_file_name(pid: u32, unix_millis: u128) -> (name: String)
    ensures
        name@ == spool_name(pid, unix_millis),
        name@ == "palmart-escpos-"@ + decimal(pid as nat) + "-"@ + decimal(unix_millis as nat)
            + ".bin"@,
{
    let mut name: String = "palmart-escpos-".to_owned();
    push_decimal(&mut name, pid as u128);
    name.append("-");
    push_decimal(&mut name, unix_millis);
    name.append(".bin");
    name
}

/// The arguments of `lp` that send a file to a queue as it is.
pub open spec fn lp_args(queue: Seq<char>, file: Seq<char>) -> Seq<Seq<char>> {
    seq![
        "-d"@,
        queue,
        "-o"@,
        "raw"@,
        "-o"@,
        "document-format=application/vnd.cups-raw"@,
        file,
    ]
}

/// The arguments of `lp` that send a file to a queue as it is.
pub fn lp_arguments(queue: &str, file: &str) -> (args: Vec<String>)
    ensures
        texts(args@) == lp_args(queue@, file@),
        texts(args@) == seq![
            "-d"@,
            queue@,
            "-o"@,
            "raw"@,
            "-o"@,
            "document-format=application/vnd.cups-raw"@,
            file@,
        ],
{
    let args: Vec<String> = vec![
        "-d".to_owned(),
        queue.to_owned(),
        "-o".to_owned(),
        "raw".to_owned(),
        "-o".to_owned(),
        "document-format=application/vnd.cups-raw".to_owned(),
        file.to_owned(),
    ];
    assert(texts(args@) =~= seq![
        "-d"@,
        queue@,
        "-o"@,
        "raw"@,
        "-o"@,
        "document-format=application/vnd.cups-raw"@,
        file@,
    ]);
    args
}

/// The error of an `lp` that said `said`.
pub fn lp_failure(said: &str) -> (e: ShellError)
    ensures
        e@ == (ErrorView { kind: ErrorKind::Other, message: trim(said@) }),
{
    ShellError { kind: ErrorKind::Other, message: trim_text(said) }
}

/// The outcome of an `lp` that ran and wrote `said`.
pub open spec fn lp_result(success: bool, said: Seq<char>) -> Result<(), ErrorView> {
    if success {
        Ok(())
    } else {
        Err(ErrorView { kind: ErrorKind::Other, message: trim(said) })
    }
}

/// The outcome of an `lp` that ran: an error with what it wrote, where it failed. Valid
/// UTF-8 is read as what it encodes.
pub fn lp_outcome(success: bool, stderr: &[u8]) -> (r: Result<(), ShellError>)
    ensures
        lp_result(success, utf8_lossy(stderr@)) == (match r {
            Ok(_) => Ok(()),
            Err(e) => Err(e@),
        }),
        match r {
            Ok(_) => success,
            Err(e) => !success && e@ == (ErrorView {
                kind: ErrorKind::Other,
                message: trim(utf8_lossy(stderr@)),
            }) && (valid_utf8(stderr@) ==> e@.message == trim(decode_utf8(stderr@))),
        },
{
    if success {
        Ok(())
    } else {
        let said = text_from_utf8_lossy(stderr);
        Err(lp_failure(said.as_str()))
    }
}

// ---------------------------------------------------------------------------
// The configured printer
// ---------------------------------------------------------------------------

/// The printer settings.
#[derive(Debug)]
pub struct PrinterConfig {
    pub mode: String,
    pub host: String,
    pub port: u16,
    pub path: String,
}

/// The printer settings as a value.
pub struct PrinterView {
    pub mode: Seq<char>,
    pub host: Seq<char>,
    pub port: u16,
    pub path: Seq<char>,
}

impl View for PrinterConfig {
    type V = PrinterView;

    open spec fn view(&self) -> PrinterView {
        PrinterView {
            mode: self.mode@,
            host: self.host@,
            port: self.port,
            path: self.path@,
        }
    }
}

/// What came of reading the settings file.
pub enum ConfigFile {
    Missing,
    Unreadable,
    Malformed,
    Parsed(PrinterConfig),
}

/// Settings that append receipts to the file `receipts`.
pub open spec fn file_settings(receipts: Seq<char>) -> PrinterView {
    PrinterView { mode: "file"@, host: ""@, port: 9100, path: receipts }
}

/// The settings that apply: those of the file, where it can be read; without a file,
/// or with one that makes no sense, receipts are appended to `receipts`; with one that
/// cannot be read, nothing is printed.
pub open spec fn settings(file: ConfigFile, receipts: Seq<char>) -> PrinterView {
    match file {
        ConfigFile::Missing | ConfigFile::Malformed => file_settings(receipts),
        ConfigFile::Unreadable => PrinterView { mode: "none"@, host: ""@, port: 9100, path: ""@ },
        ConfigFile::Parsed(config) => config@,
    }
}

/// The mode of settings that name none.
pub fn default_mode() -> (mode: String)
    ensures
        mode@ == "file"@,
{
    "file".to_owned()
}

/// The port of settings that name none.
pub fn default_port() -> (port: u16)
    ensures
        port == 9100,
{
    9100
}

/// Where the settings are kept.
pub fn config_path(app_data: &DesktopPath) -> (p: DesktopPath)
    ensures
        p@ == app_data@.join("conf"@).join("printer.json"@),
{
    app_data.join("conf").join("printer.json")
}

/// The settings that apply. `receipts` is the default receipt file as text.
pub fn load_config(file: ConfigFile, receipts: &str) -> (config: PrinterConfig)
    ensures
        config@ == settings(file, receipts@),
{
    match file {
        ConfigFile::Missing | ConfigFile::Malformed => PrinterConfig {
            mode: default_mode(),
            host: "".to_owned(),
            port: default_port(),
            path: receipts.to_owned(),
        },
        ConfigFile::Unreadable => PrinterConfig {
            mode: "none".to_owned(),
            host: "".to_owned(),
            port: default_port(),
            path: "".to_owned(),
        },
        ConfigFile::Parsed(config) => config,
    }
}

/// Where the bytes of a job go.
pub enum Target {
    /// Nowhere.
    Nothing,
    /// To the printer that listens at an address.
    Network(String),
    /// To the end of a file.
    File(DesktopPath),
}

/// Where the bytes of a job go, as a value.
pub enum TargetView {
    Nothing,
    Network(Seq<char>),
    File(PathView),
}

impl View for Target {
    type V = TargetView;

    open spec fn view(&self) -> TargetView {
        match *self {
            Target::Nothing => TargetView::Nothing,
            Target::Network(addr) => TargetView::Network(addr@),
            Target::File(path) => TargetView::File(path@),
        }
    }
}

/// The text of a network address.
pub open spec fn host_and_port(host: Seq<char>, port: u16) -> Seq<char> {
    host + ":"@ + decimal(port as nat)
}

/// Where settings send the bytes of a job. Network mode needs a host; a mode that is
/// neither `none` nor `network` is file mode.
pub open spec fn target_of(config: PrinterView, app_data: PathView) -> Result<
    TargetView,
    ErrorView,
> {
    if config.mode == "none"@ {
        Ok(TargetView::Nothing)
    } else if config.mode == "network"@ {
        if config.host.len() == 0 {
            Err(
                ErrorView {
                    kind: ErrorKind::InvalidInput,
                    message: "printer.json: host required for network mode"@,
                },
            )
        } else {
            Ok(TargetView::Network(host_and_port(config.host, config.port)))
        }
    } else if config.path.len() == 0 {
        Ok(TargetView::File(app_data.join("receipts.log"@)))
    } else {
        Ok(TargetView::File(text_path(config.path)))
    }
}

/// The text of a network address.
pub fn address(host: &str, port: u16) -> (s: String)
    ensures
        s@ == host_and_port(host@, port),
{
    let mut s: String = host.to_owned();
    s.append(":");
    push_decimal(&mut s, port as u128);
    s
}

/// The receipt file of an installation.
pub fn receipts_path(app_data: &DesktopPath) -> (p: DesktopPath)
    ensures
        p@ == app_data@.join("receipts.log"@),
{
    app_data.join("receipts.log")
}

/// Where settings send the bytes of a job.
pub fn printer_target(config: &PrinterConfig, app_data: &DesktopPath) -> (r: Result<
    Target,
    ShellError,
>)
    ensures
        match r {
            Ok(t) => target_of(config@, app_data@) == Ok::<TargetView, ErrorView>(t@),
            Err(e) => target_of(config@, app_data@) == Err::<TargetView, ErrorView>(e@),
        },
{
    let mode = config.mode.as_str();
    if str_eq(mode, "none") {
        Ok(Target::Nothing)
    } else if str_eq(mode, "network") {
        if config.host.as_str().is_empty() {
            Err(
                ShellError::new(
                    ErrorKind::InvalidInput,
                    "printer.json: host required for network mode",
                ),
            )
        } else {
            Ok(Target::Network(address(config.host.as_str(), config.port)))
        }
    } else if config.path.as_str().is_empty() {
        Ok(Target::File(receipts_path(app_data)))
    } else {
        Ok(Target::File(DesktopPath::text(config.path.as_str())))
    }
}

/// What is done with the bytes of a job.
pub enum Delivery {
    /// They are dropped.
    Drop,
    /// They are sent to the printer that listens at an address.
    Send { addr: String, data: Vec<u8> },
    /// They are added to the end of a file. The file, and the directories above it, are
    /// made where they are missing.
    Append { path: DesktopPath, data: Vec<u8> },
}

/// What is done with the bytes of a job, as a value.
pub enum DeliveryView {
    Drop,
    Send { addr: Seq<char>, data: Seq<u8> },
    Append { path: PathView, data: Seq<u8> },
}

impl View for Delivery {
    type V = DeliveryView;

    open spec fn view(&self) -> DeliveryView {
        match *self {
            Delivery::Drop => DeliveryView::Drop,
            Delivery::Send { addr, data } => DeliveryView::Send { addr: addr@, data: data@ },
            Delivery::Append { path, data } => DeliveryView::Append { path: path@, data: data@ },
        }
    }
}

/// What settings have done with the bytes of a job: all of them go to the target.
pub open spec fn delivery_of(config: PrinterView, app_data: PathView, data: Seq<u8>) -> Result<
    DeliveryView,
    ErrorView,
> {
    match target_of(config, app_data) {
        Err(e) => Err(e),
        Ok(TargetView::Nothing) => Ok(DeliveryView::Drop),
        Ok(TargetView::Network(addr)) => Ok(DeliveryView::Send { addr, data }),
        Ok(TargetView::File(path)) => Ok(DeliveryView::Append { path, data }),
    }
}

/// What is done with the bytes of a job, by what came of reading the settings. `receipts`
/// is the default receipt file as text.
pub fn send_to_printer(
    file: ConfigFile,
    receipts: &str,
    app_data: &DesktopPath,
    data: Vec<u8>,
) -> (r: Result<Delivery, ShellError>)
    ensures
        match r {
            Ok(d) => delivery_of(settings(file, receipts@), app_data@, data@) == Ok::<
                DeliveryView,
                ErrorView,
            >(d@),
            Err(e) => delivery_of(settings(file, receipts@), app_data@, data@) == Err::<
                DeliveryView,
                ErrorView,
            >(e@),
        },
{
    let config = load_config(file, receipts);
    match printer_target(&config, app_data) {
        Err(e) => Err(e),
        Ok(Target::Nothing) => Ok(Delivery::Drop),
        Ok(Target::Network(addr)) => Ok(Delivery::Send { addr, data }),
        Ok(Target::File(path)) => Ok(Delivery::Append { path, data }),
    }
}

/// What a file holds; nothing where it is missing.
pub open spec fn contents(files: Map<PathView, Seq<u8>>, path: PathView) -> Seq<u8> {
    if files.dom().contains(path) {
        files[path]
    } else {
        seq![]
    }
}

/// The files after a delivery.
pub open spec fn delivered(
    files: Map<PathView, Seq<u8>>,
    delivery: Result<DeliveryView, ErrorView>,
) -> Map<PathView, Seq<u8>> {
    match delivery {
        Ok(DeliveryView::Append { path, data }) => files.insert(
            path,
            contents(files, path) + data,
        ),
        _ => files,
    }
}

/// The file that settings in file mode name: their own, or the receipt file of the
/// installation where they name none.
pub open spec fn receipt_file(config: PrinterView, app_data: PathView) -> PathView {
    if config.path.len() == 0 {
        app_data.join("receipts.log"@)
    } else {
        text_path(config.path)
    }
}

/// Whether settings are in file mode, as all are whose mode is neither `none` nor
/// `network`.
pub open spec fn is_file_mode(config: PrinterView) -> bool {
    config.mode != "none"@ && config.mode != "network"@
}

/// In file mode a job is added to the end of the receipt file, byte for byte, and touches
/// no other file; so two jobs leave the files as one job with the bytes of both does.
pub proof fn law_receipts_are_appended(
    config: PrinterView,
    app_data: PathView,
    files: Map<PathView, Seq<u8>>,
    a: Seq<u8>,
    b: Seq<u8>,
)
    requires
        is_file_mode(config),
    ensures
        ({
            let path = receipt_file(config, app_data);
            let one = delivered(files, delivery_of(config, app_data, a));
            let two = delivered(one, delivery_of(config, app_data, b));
            &&& delivery_of(config, app_data, a) == Ok::<DeliveryView, ErrorView>(
                DeliveryView::Append { path, data: a },
            )
            &&& contents(one, path) == contents(files, path) + a
            &&& forall|other: PathView|
                other != path ==> #[trigger] contents(one, other) == contents(files, other)
            &&& two == delivered(files, delivery_of(config, app_data, a + b))
        }),
{
    let path = receipt_file(config, app_data);
    let one = delivered(files, delivery_of(config, app_data, a));
    let two = delivered(one, delivery_of(config, app_data, b));
    assert(contents(files, path) + a + b == contents(files, path) + (a + b));
    assert(two =~= delivered(files, delivery_of(config, app_data, a + b)));
}

/// Without a settings file, or with one that makes no sense, jobs are added to the
/// default receipt file.
pub proof fn law_receipts_have_a_file_without_settings(
    file: ConfigFile,
    receipts: Seq<char>,
    app_data: PathView,
)
    requires
        file is Missing || file is Malformed,
        receipts.len() > 0,
    ensures
        is_file_mode(settings(file, receipts)),
        receipt_file(settings(file, receipts), app_data) == text_path(receipts),
{
    reveal_strlit("file");
    reveal_strlit("none");
    reveal_strlit("network");
    assert("file"@[0] != "none"@[0]);
    assert("file"@[0] != "network"@[0]);
}

// ---------------------------------------------------------------------------
// Taking the port
// ---------------------------------------------------------------------------

/// What came of taking the port of the bridge.
#[derive(Debug, PartialEq)]
pub enum BridgeStatus {
    /// No try has settled it yet.
    Starting,
    /// The bridge is listening.
    Ready,
    /// The bridge gave up; the text says why, and what to do.
    Failed(String),
}

/// What came of taking the port, as a value.
pub enum StatusView {
    Starting,
    Ready,
    Failed(Seq<char>),
}

impl View for BridgeStatus {
    type V = StatusView;

    open spec fn view(&self) -> StatusView {
        match *self {
            BridgeStatus::Starting => StatusView::Starting,
            BridgeStatus::Ready => StatusView::Ready,
            BridgeStatus::Failed(m) => StatusView::Failed(m@),
        }
    }
}

impl Clone for BridgeStatus {
    fn clone(&self) -> (copy: BridgeStatus)
        ensures
            copy@ == self@,
    {
        match self {
            BridgeStatus::Starting => BridgeStatus::Starting,
            BridgeStatus::Ready => BridgeStatus::Ready,
            BridgeStatus::Failed(m) => BridgeStatus::Failed(m.clone()),
        }
    }
}

/// What a try to take the port gave.
pub enum BindEvent {
    Bound,
    /// The port is in use.
    Busy,
    /// Another error, as text.
    Failed(String),
}

/// What to do after a try.
pub enum BindStep {
    /// Serve requests.
    Listen,
    /// Try again after a pause; `first` where it is the first pause.
    Retry { first: bool },
    /// Give up: the port stayed busy.
    StillBusy(ShellError),
    /// Give up: another error.
    Broken(String),
}

/// What to do after a try, as a value.
pub enum BindView {
    Listen,
    Retry { first: bool },
    StillBusy(ErrorView),
    Broken(Seq<char>),
}

impl View for BindStep {
    type V = BindView;

    open spec fn view(&self) -> BindView {
        match *self {
            BindStep::Listen => BindView::Listen,
            BindStep::Retry { first } => BindView::Retry { first },
            BindStep::StillBusy(e) => BindView::StillBusy(e@),
            BindStep::Broken(m) => BindView::Broken(m@),
        }
    }
}

pub open spec fn busy_message(addr: Seq<char>) -> Seq<char> {
    "could not bind "@ + addr
        + ": port already in use. Another Kiosk instance is likely running — close it, or kill the stray kiosk-desktop process in Task Manager, then relaunch. Printing and cash-drawer control stay unavailable until the port is free."@
}

/// What to do after a try: a busy port is tried until the time is over.
pub open spec fn bind_decision(
    addr: Seq<char>,
    event: BindEvent,
    tried_before: bool,
    time_over: bool,
) -> BindView {
    match event {
        BindEvent::Bound => BindView::Listen,
        BindEvent::Busy => if time_over {
            BindView::StillBusy(
                ErrorView { kind: ErrorKind::AddrInUse, message: busy_message(addr) },
            )
        } else {
            BindView::Retry { first: !tried_before }
        },
        BindEvent::Failed(m) => BindView::Broken(m@),
    }
}

/// The status that a step stands for.
pub open spec fn status_after(step: BindView) -> StatusView {
    match step {
        BindView::Listen => StatusView::Ready,
        BindView::Retry { first } => StatusView::Starting,
        BindView::StillBusy(e) => StatusView::Failed(e.message),
        BindView::Broken(m) => StatusView::Failed(m),
    }
}

/// The address that the bridge listens on.
pub fn bridge_address() -> (addr: String)
    ensures
        addr@ == host_and_port("127.0.0.1"@, DEVICE_PORT),
{
    address("127.0.0.1", DEVICE_PORT)
}

/// What to do after a try to take the port.
pub fn bind_step(addr: &str, event: BindEvent, tried_before: bool, time_over: bool) -> (step:
    BindStep)
    ensures
        step@ == bind_decision(addr@, event, tried_before, time_over),
{
    match event {
        BindEvent::Bound => BindStep::Listen,
        BindEvent::Busy => if time_over {
            let mut message: String = "could not bind ".to_owned();
            message.append(addr);
            message.append(
                ": port already in use. Another Kiosk instance is likely running — close it, or kill the stray kiosk-desktop process in Task Manager, then relaunch. Printing and cash-drawer control stay unavailable until the port is free.",
            );
            BindStep::StillBusy(ShellError { kind: ErrorKind::AddrInUse, message })
        } else {
            BindStep::Retry { first: !tried_before }
        },
        BindEvent::Failed(m) => BindStep::Broken(m),
    }
}

impl BindStep {
    /// The status that the step stands for.
    pub fn status(&self) -> (status: BridgeStatus)
        ensures
            status@ == status_after(self@),
    {
        match self {
            BindStep::Listen => BridgeStatus::Ready,
            BindStep::Retry { first } => BridgeStatus::Starting,
            BindStep::StillBusy(e) => BridgeStatus::Failed(e.message.clone()),
            BindStep::Broken(m) => BridgeStatus::Failed(m.clone()),
        }
    }
}

/// The status to go on with after a look at the bridge; `None` to look again.
pub open spec fn settled(status: StatusView, time_over: bool) -> Option<StatusView> {
    if status is Starting && !time_over {
        None
    } else {
        Some(status)
    }
}

/// Waiting for the bridge: the status to go on with, `None` to look again after a
/// pause. The wait ends when the port is settled, or when the time is over.
pub fn wait_for_bridge_bind(status: BridgeStatus, time_over: bool) -> (r: Option<BridgeStatus>)
    ensures
        settled(status@, time_over) == (match r {
            Some(s) => Some(s@),
            None => None,
        }),
        match r {
            Some(s) => s@ == status@ && (!(status@ is Starting) || time_over),
            None => status@ is Starting && !time_over,
        },
{
    match status {
        BridgeStatus::Starting => if time_over {
            Some(BridgeStatus::Starting)
        } else {
            None
        },
        other => Some(other),
    }
}

/// A busy port is never a failure before the time is over, and never goes on after it.
pub proof fn law_busy_port_is_tried_until_the_end(
    addr: Seq<char>,
    tried_before: bool,
    time_over: bool,
)
    ensures
        status_after(bind_decision(addr, BindEvent::Busy, tried_before, time_over)) == (
        if time_over {
            StatusView::Failed(busy_message(addr))
        } else {
            StatusView::Starting
        }),
{
}

} // verus!
