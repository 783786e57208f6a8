use kiosk_desktop::devices::{
    bind_step, bridge_address, config_path, default_mode, default_port, drawer_kick,
    handle_client, is_valid_cups_name, load_config, lp_arguments, lp_outcome, lp_program,
    printer_target, reply_to_job, send_to_printer, spool_file_name, wait_for_bridge_bind,
    BindEvent, BindStep, BridgeStatus, ConfigFile, Delivery, Handling, Job, PrinterConfig, Target,
};
use kiosk_desktop::error::ErrorKind;
use kiosk_desktop::http::{Headers, HttpRequest};
use kiosk_desktop::path::{DesktopPath, PathRoot};

const PULSE: [u8; 10] = [0x1b, 0x70, 0x00, 0x19, 0xfa, 0x1b, 0x70, 0x01, 0x19, 0xfa];

fn request(method: &str, path: &str, queue: Option<&str>, body: &[u8]) -> HttpRequest {
    let mut headers = Headers::new();
    if let Some(q) = queue {
        headers.insert("x-printer-cups-name".to_string(), q.to_string());
    }
    HttpRequest {
        method: method.to_string(),
        path: path.to_string(),
        headers,
        body: body.to_vec(),
    }
}

fn replied(h: Handling) -> (u16, bool, String) {
    match h {
        Handling::Reply(r) => (r.status, r.json, r.body),
        _ => panic!("no reply"),
    }
}

fn written(p: &DesktopPath) -> String {
    let mut s = match &p.root {
        PathRoot::Text(t) => t.clone(),
        PathRoot::Native(b) => format!("{:?}", b),
    };
    for part in &p.parts {
        s.push('|');
        s.push_str(part);
    }
    s
}

#[test]
fn options_are_answered_whatever_the_path() {
    assert_eq!(
        replied(handle_client(request("OPTIONS", "/anything", None, b""))),
        (204, false, String::new())
    );
}

#[test]
fn health_is_reported() {
    for path in ["/health", "/health/"] {
        assert_eq!(
            replied(handle_client(request("GET", path, None, b""))),
            (200, true, "{\"ok\":true,\"cups\":true}".to_string())
        );
    }
}

#[test]
fn other_requests_are_not_found() {
    for (method, path) in [
        ("GET", "/print"),
        ("POST", "/health"),
        ("POST", "/print//"),
        ("post", "/print"),
        ("POST", "/drawer"),
        ("PUT", "/print"),
    ] {
        assert_eq!(
            replied(handle_client(request(method, path, None, b"x"))),
            (404, false, "not found".to_string())
        );
    }
}

#[test]
fn an_empty_print_is_refused() {
    for queue in [None, Some("q")] {
        assert_eq!(
            replied(handle_client(request("POST", "/print", queue, b""))),
            (400, false, "empty body".to_string())
        );
    }
}

#[test]
fn a_bad_queue_name_is_refused() {
    for path in ["/print", "/drawer/kick"] {
        assert_eq!(
            replied(handle_client(request("POST", path, Some("a b"), b"x"))),
            (400, false, "invalid CUPS printer name".to_string())
        );
    }
}

#[test]
fn devices_get_what_was_asked() {
    match handle_client(request("POST", "/print/", None, b"abc")) {
        Handling::Printer { job, data } => {
            assert_eq!(job, Job::Print);
            assert_eq!(data, b"abc");
        }
        _ => panic!("no printer"),
    }
    match handle_client(request("POST", "/print", Some("Till-1"), b"abc")) {
        Handling::Cups { job, name, data } => {
            assert_eq!(job, Job::Print);
            assert_eq!(name, "Till-1");
            assert_eq!(data, b"abc");
        }
        _ => panic!("no queue"),
    }
    match handle_client(request("POST", "/drawer/kick/", None, b"ignored")) {
        Handling::Printer { job, data } => {
            assert_eq!(job, Job::Drawer);
            assert_eq!(data, PULSE);
        }
        _ => panic!("no printer"),
    }
    match handle_client(request("POST", "/drawer/kick", Some("q"), b"")) {
        Handling::Cups { job, name, data } => {
            assert_eq!(job, Job::Drawer);
            assert_eq!(name, "q");
            assert_eq!(data, PULSE);
        }
        _ => panic!("no queue"),
    }
    assert_eq!(drawer_kick(), PULSE);
}

#[test]
fn outcomes_become_replies() {
    let text = |job, outcome: Result<(), String>| {
        let r = reply_to_job(job, outcome);
        (r.status, r.json, r.body)
    };
    assert_eq!(text(Job::Print, Ok(())), (200, false, "printed".to_string()));
    assert_eq!(text(Job::Drawer, Ok(())), (200, false, "drawer".to_string()));
    assert_eq!(text(Job::Print, Err("no paper".to_string())), (500, false, "no paper".to_string()));
}

#[test]
fn queue_names_are_plain() {
    assert!(is_valid_cups_name("A.b_c-9"));
    assert!(is_valid_cups_name(&"x".repeat(120)));
    for bad in ["", "a b", "a/b", "ä", "a\n", "-d;x"] {
        assert!(!is_valid_cups_name(bad), "{:?}", bad);
    }
    assert!(!is_valid_cups_name(&"x".repeat(121)));
}

#[test]
fn lp_is_looked_for_in_two_places() {
    assert_eq!(lp_program(true, true).ok(), Some("/usr/bin/lp"));
    assert_eq!(lp_program(true, false).ok(), Some("/usr/bin/lp"));
    assert_eq!(lp_program(false, true).ok(), Some("/bin/lp"));
    match lp_program(false, false) {
        Ok(_) => panic!("found"),
        Err(e) => {
            assert_eq!(e.kind, ErrorKind::NotFound);
            assert_eq!(e.message, "CUPS lp not found (expected /usr/bin/lp)");
        }
    }
}

#[test]
fn lp_is_called_with_raw_data() {
    assert_eq!(spool_file_name(42, 1700000000123), "palmart-escpos-42-1700000000123.bin");
    assert_eq!(
        lp_arguments("Till", "/tmp/f"),
        ["-d", "Till", "-o", "raw", "-o", "document-format=application/vnd.cups-raw", "/tmp/f"]
    );
}

#[test]
fn lp_tells_why_it_failed() {
    assert!(lp_outcome(true, b"noise").is_ok());
    match lp_outcome(false, b" lp: no such \xff queue \n") {
        Ok(_) => panic!("went well"),
        Err(e) => {
            assert_eq!(e.kind, ErrorKind::Other);
            assert_eq!(e.message, "lp: no such \u{fffd} queue");
        }
    }
}

#[test]
fn printer_settings_have_defaults() {
    assert_eq!(default_mode(), "file");
    assert_eq!(default_port(), 9100);
    for file in [ConfigFile::Missing, ConfigFile::Malformed] {
        let c = load_config(file, "/d/receipts.log");
        assert_eq!((c.mode.as_str(), c.host.as_str(), c.port), ("file", "", 9100));
        assert_eq!(c.path, "/d/receipts.log");
    }
    let c = load_config(ConfigFile::Unreadable, "/d/receipts.log");
    assert_eq!((c.mode.as_str(), c.host.as_str(), c.port, c.path.as_str()), ("none", "", 9100, ""));
    let c = load_config(
        ConfigFile::Parsed(PrinterConfig {
            mode: "network".to_string(),
            host: "till".to_string(),
            port: 9101,
            path: "p".to_string(),
        }),
        "/d/receipts.log",
    );
    assert_eq!((c.mode.as_str(), c.host.as_str(), c.port, c.path.as_str()), ("network", "till", 9101, "p"));
    assert_eq!(written(&config_path(&DesktopPath::text("/d"))), "/d|conf|printer.json");
}

fn target(mode: &str, host: &str, path: &str) -> String {
    let config = PrinterConfig {
        mode: mode.to_string(),
        host: host.to_string(),
        port: 9100,
        path: path.to_string(),
    };
    match printer_target(&config, &DesktopPath::text("/d")) {
        Ok(Target::Nothing) => "nothing".to_string(),
        Ok(Target::Network(addr)) => format!("net {}", addr),
        Ok(Target::File(p)) => format!("file {}", written(&p)),
        Err(e) => format!("{:?} {}", e.kind, e.message),
    }
}

#[test]
fn receipts_go_where_the_settings_say() {
    assert_eq!(target("none", "h", "/r"), "nothing");
    assert_eq!(target("network", "10.0.0.9", ""), "net 10.0.0.9:9100");
    assert_eq!(
        target("network", "", "/r"),
        "InvalidInput printer.json: host required for network mode"
    );
    assert_eq!(target("file", "", "/r"), "file /r");
    assert_eq!(target("file", "", ""), "file /d|receipts.log");
    assert_eq!(target("anything", "h", ""), "file /d|receipts.log");
}

/// Runs a job in memory: the files after it, by the text of their paths.
fn run_job(files: &mut Vec<(String, Vec<u8>)>, file: ConfigFile, data: &[u8]) -> String {
    match send_to_printer(file, "/d/receipts.log", &DesktopPath::text("/d"), data.to_vec()) {
        Ok(Delivery::Drop) => "dropped".to_string(),
        Ok(Delivery::Send { addr, data }) => format!("{} {:?}", addr, data),
        Ok(Delivery::Append { path, data }) => {
            let name = written(&path);
            match files.iter_mut().find(|f| f.0 == name) {
                Some(f) => f.1.extend_from_slice(&data),
                None => files.push((name.clone(), data)),
            }
            name
        }
        Err(e) => e.message,
    }
}

fn parsed(mode: &str, host: &str, path: &str) -> ConfigFile {
    ConfigFile::Parsed(PrinterConfig {
        mode: mode.to_string(),
        host: host.to_string(),
        port: 9100,
        path: path.to_string(),
    })
}

#[test]
fn jobs_are_delivered_whole() {
    let mut files = Vec::new();
    assert_eq!(run_job(&mut files, parsed("none", "", ""), b"ab"), "dropped");
    assert_eq!(run_job(&mut files, ConfigFile::Unreadable, b"ab"), "dropped");
    assert_eq!(run_job(&mut files, parsed("network", "h", ""), b"ab"), "h:9100 [97, 98]");
    assert_eq!(
        run_job(&mut files, parsed("network", "", ""), b"ab"),
        "printer.json: host required for network mode"
    );
    assert!(files.is_empty());
}

#[test]
fn two_receipts_are_as_one_longer_receipt() {
    for make in [
        || ConfigFile::Missing,
        || ConfigFile::Malformed,
        || parsed("file", "", "/r"),
        || parsed("odd", "", ""),
    ] {
        let (mut two, mut one) = (Vec::new(), Vec::new());
        run_job(&mut two, make(), b"ab");
        run_job(&mut two, make(), b"\x00c");
        run_job(&mut one, make(), b"ab\x00c");
        assert_eq!(two, one);
        assert_eq!(one[0].1, b"ab\x00c");
    }
    assert_eq!(run_job(&mut Vec::new(), ConfigFile::Missing, b"x"), "/d/receipts.log");
    assert_eq!(run_job(&mut Vec::new(), parsed("file", "", ""), b"x"), "/d|receipts.log");
}

#[test]
fn a_free_port_is_taken() {
    let step = bind_step("a:1", BindEvent::Bound, true, true);
    assert!(matches!(step, BindStep::Listen));
    assert_eq!(step.status(), BridgeStatus::Ready);
    assert_eq!(bridge_address(), "127.0.0.1:19500");
}

#[test]
fn a_busy_port_is_tried_until_the_end() {
    let step = bind_step("a:1", BindEvent::Busy, false, false);
    assert!(matches!(step, BindStep::Retry { first: true }));
    assert_eq!(step.status(), BridgeStatus::Starting);
    assert!(matches!(
        bind_step("a:1", BindEvent::Busy, true, false),
        BindStep::Retry { first: false }
    ));
    let step = bind_step("a:1", BindEvent::Busy, true, true);
    let message = "could not bind a:1: port already in use. Another Kiosk instance is likely running — close it, or kill the stray kiosk-desktop process in Task Manager, then relaunch. Printing and cash-drawer control stay unavailable until the port is free.";
    assert_eq!(step.status(), BridgeStatus::Failed(message.to_string()));
    match step {
        BindStep::StillBusy(e) => {
            assert_eq!(e.kind, ErrorKind::AddrInUse);
            assert_eq!(e.message, message);
        }
        _ => panic!("goes on"),
    }
}

#[test]
fn another_error_ends_the_bridge() {
    let step = bind_step("a:1", BindEvent::Failed("denied".to_string()), false, false);
    assert_eq!(step.status(), BridgeStatus::Failed("denied".to_string()));
    assert!(matches!(step, BindStep::Broken(_)));
}

#[test]
fn the_wait_for_the_bridge_ends() {
    assert_eq!(wait_for_bridge_bind(BridgeStatus::Starting, false), None);
    assert_eq!(wait_for_bridge_bind(BridgeStatus::Starting, true), Some(BridgeStatus::Starting));
    assert_eq!(wait_for_bridge_bind(BridgeStatus::Ready, false), Some(BridgeStatus::Ready));
    assert_eq!(
        wait_for_bridge_bind(BridgeStatus::Failed("x".to_string()), true),
        Some(BridgeStatus::Failed("x".to_string()))
    );
}
