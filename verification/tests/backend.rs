use kiosk_desktop::backend::{
    backend_exited, backend_log_tail, health_url, is_cut, lan_marker, last_lines, log_sections,
    plain_form, read_tail, request_graceful_shutdown, shutdown, shutdown_url, spawn_failure,
    start, tail_start, BackendEnv, HealthEvent, HealthStep, HealthWatch, Launch, LaunchProbe,
    LogEnd, ProcessSeen, StopEvent, StopStep, Word,
};
use kiosk_desktop::error::{ErrorKind, ShellError};
use kiosk_desktop::path::{DesktopPath, PathRoot};
use kiosk_desktop::supervisor::BackendConfig;

fn config() -> BackendConfig {
    BackendConfig {
        jar_path: DesktopPath::text("/k.jar"),
        java_bin: DesktopPath::text("java"),
        port: 5050,
        profile: "desktop".to_string(),
        app_data: DesktopPath::text("/data"),
        mariadb_port: 33306,
        mariadb_user: "ub_local".to_string(),
        mariadb_password: "db-pass".to_string(),
        jwt_secret: "jwt-key".to_string(),
        payment_encryption_key: "pay-key".to_string(),
    }
}

fn probe(jar_exists: bool, lan_enabled: bool) -> LaunchProbe {
    LaunchProbe {
        java: PathRoot::Text("java".to_string()),
        jar: PathRoot::Text("/k.jar".to_string()),
        jar_exists,
        jar_shown: "/k.jar".to_string(),
        lan_enabled,
    }
}

fn env(bind: Option<&str>) -> BackendEnv {
    BackendEnv {
        bind: bind.map(str::to_string),
        log_ingest_key: None,
        log_reporting_url: None,
    }
}

fn word(w: &Word) -> String {
    match w {
        Word::Text(s) => s.clone(),
        Word::Path(p) => {
            let mut s = match &p.root {
                PathRoot::Text(t) => t.clone(),
                PathRoot::Native(b) => format!("{:?}", b),
            };
            for part in &p.parts {
                s.push('|');
                s.push_str(part);
            }
            s
        }
    }
}

fn launch(bind: Option<&str>, lan: bool) -> Launch {
    match start(&config(), probe(true, lan), env(bind)) {
        Ok(l) => l,
        Err(e) => panic!("{}", e.message),
    }
}

fn variable(l: &Launch, name: &str) -> Option<String> {
    l.variables.iter().find(|v| v.name == name).map(|v| word(&v.value))
}

#[test]
fn the_jvm_is_started_with_the_jar() {
    let l = launch(None, false);
    assert_eq!(word(&Word::Path(l.program.clone())), "java");
    let args: Vec<String> = l.arguments.iter().map(word).collect();
    assert_eq!(
        args,
        ["-Xmx1024m", "-jar", "/k.jar", "--spring.profiles.active=desktop", "--server.port=5050"]
    );
    assert_eq!(l.stdout.parts, ["backend.out.log"]);
    assert_eq!(l.stderr.parts, ["backend.err.log"]);
}

#[test]
fn the_jvm_is_told_by_variables() {
    let l = launch(None, false);
    for (name, value) in [
        (
            "SPRING_DATASOURCE_URL",
            "jdbc:mariadb://127.0.0.1:33306/ub?connectionCollation=utf8mb4_unicode_ci",
        ),
        ("SPRING_DATASOURCE_USERNAME", "ub_local"),
        ("SPRING_DATASOURCE_PASSWORD", "db-pass"),
        ("APP_DATA", "/data"),
        ("APP_DESKTOP_BIND", "127.0.0.1"),
        ("APP_DESKTOP_DB_PORT", "33306"),
        ("APP_DESKTOP_DB_USER", "ub_local"),
        ("APP_DESKTOP_DB_PASSWORD", "db-pass"),
        ("APP_JWT_SECRET", "jwt-key"),
        ("APP_PAYMENTS_ENCRYPTION_KEY", "pay-key"),
    ] {
        assert_eq!(variable(&l, name), Some(value.to_string()), "{}", name);
    }
    assert_eq!(l.variables.len(), 10);
}

#[test]
fn no_secret_is_an_argument() {
    let l = launch(None, false);
    for a in l.arguments.iter().map(word) {
        for secret in ["db-pass", "jwt-key", "pay-key", "ub_local"] {
            assert!(!a.contains(secret));
        }
    }
}

#[test]
fn reporting_is_handed_on() {
    let env = BackendEnv {
        bind: None,
        log_ingest_key: Some("k".to_string()),
        log_reporting_url: Some("u".to_string()),
    };
    match start(&config(), probe(true, false), env) {
        Ok(l) => {
            assert_eq!(variable(&l, "APP_DESKTOP_LOG_INGEST_KEY"), Some("k".to_string()));
            assert_eq!(variable(&l, "APP_DESKTOP_LOG_REPORTING_URL"), Some("u".to_string()));
            assert_eq!(l.variables.len(), 12);
        }
        Err(e) => panic!("{}", e.message),
    }
}

#[test]
fn an_installation_is_shared_when_marked() {
    assert_eq!(variable(&launch(None, true), "APP_DESKTOP_BIND"), Some("0.0.0.0".to_string()));
    assert_eq!(variable(&launch(Some("::1"), true), "APP_DESKTOP_BIND"), Some("::1".to_string()));
    assert_eq!(lan_marker(&DesktopPath::text("/d")).parts, ["conf", "lan-enabled"]);
}

#[test]
fn a_missing_jar_is_told() {
    match start(&config(), probe(false, false), env(None)) {
        Ok(_) => panic!("started"),
        Err(e) => {
            assert_eq!(e.kind, ErrorKind::NotFound);
            assert_eq!(e.message, "desktop bootJar missing at /k.jar");
        }
    }
}

#[test]
fn plain_paths_stay() {
    for s in ["/a/b", "C:\\a", "java"] {
        match plain_form(&PathRoot::Text(s.to_string())) {
            PathRoot::Text(t) => assert_eq!(t, s),
            PathRoot::Native(_) => panic!("native"),
        }
    }
    match plain_form(&PathRoot::Native(vec![0xff])) {
        PathRoot::Native(b) => assert_eq!(b, [0xff]),
        PathRoot::Text(_) => panic!("text"),
    }
}

#[test]
fn an_extended_length_path_is_plain_where_the_platform_has_drives() {
    let plain = |s: &str| match plain_form(&PathRoot::Text(s.to_string())) {
        PathRoot::Text(t) => t,
        PathRoot::Native(_) => panic!("native"),
    };
    let marked = "\\\\?\\C:\\app\\k.jar";
    let wanted = if std::path::MAIN_SEPARATOR == '\\' { "C:\\app\\k.jar" } else { marked };
    assert_eq!(plain(marked), wanted);
    for s in ["\\\\?\\UNC\\host\\share", "\\\\?\\", "\\\\?\\1:\\a", "\\\\.\\C:\\a"] {
        assert_eq!(plain(s), s);
    }
}

#[test]
fn a_jvm_that_does_not_start_is_told() {
    let e = spawn_failure(ErrorKind::NotFound, "no such file", "/j");
    assert_eq!(e.kind, ErrorKind::NotFound);
    assert_eq!(
        e.message,
        "spawn java (/j) failed: no such file. Set APP_JAVA_BIN if java isn't on PATH."
    );
}

fn failed(step: HealthStep) -> ShellError {
    match step {
        HealthStep::Failed(e) => e,
        other => panic!("{:?}", other),
    }
}

fn round(time_over: bool, aborted: bool, exited: bool) -> HealthEvent {
    HealthEvent::Round { time_over, aborted, exited }
}

#[test]
fn a_healthy_backend_answers_200() {
    let mut w = HealthWatch::new();
    assert!(matches!(w.wait_healthy(round(false, false, false)), HealthStep::Ask));
    assert!(matches!(w.wait_healthy(HealthEvent::Answer(200)), HealthStep::Healthy));
    for status in [201, 204, 302, 503] {
        assert!(matches!(w.wait_healthy(HealthEvent::Answer(status)), HealthStep::Wait));
    }
}

#[test]
fn a_timeout_names_the_last_reply() {
    let mut w = HealthWatch::new();
    let e = failed(w.wait_healthy(round(true, true, true)));
    assert_eq!(e.kind, ErrorKind::TimedOut);
    assert_eq!(e.message, "/actuator/health never returned 200 within 300s (last error: —)");
    w.wait_healthy(HealthEvent::NoAnswer("refused".to_string()));
    w.wait_healthy(HealthEvent::Answer(204));
    w.wait_healthy(round(false, false, false));
    let e = failed(w.wait_healthy(round(true, false, false)));
    assert_eq!(
        e.message,
        "/actuator/health never returned 200 within 300s (last error: status 204)"
    );
    w.wait_healthy(HealthEvent::NoAnswer("refused".to_string()));
    let e = failed(w.wait_healthy(round(true, false, false)));
    assert_eq!(
        e.message,
        "/actuator/health never returned 200 within 300s (last error: refused)"
    );
}

#[test]
fn the_user_can_end_the_wait() {
    let mut w = HealthWatch::new();
    let e = failed(w.wait_healthy(round(false, true, true)));
    assert_eq!((e.kind, e.message.as_str()), (ErrorKind::Interrupted, "startup cancelled"));
}

#[test]
fn a_dead_jvm_is_told_with_its_logs() {
    let mut w = HealthWatch::new();
    assert!(matches!(w.wait_healthy(round(false, false, true)), HealthStep::ReadLogs));
    let e = failed(w.wait_healthy(HealthEvent::LogTail("\nboom\n".to_string())));
    assert_eq!(e.kind, ErrorKind::ConnectionRefused);
    assert_eq!(e.message, "the backend JVM exited before reporting healthy.\nboom\n");
    assert!(backend_exited(ProcessSeen::Exited));
    assert!(backend_exited(ProcessSeen::NeverStored));
    for seen in [ProcessSeen::Locked, ProcessSeen::Running, ProcessSeen::Unknown] {
        assert!(!backend_exited(seen));
    }
}

#[test]
fn addresses_name_the_port() {
    assert_eq!(health_url(5050), "http://127.0.0.1:5050/actuator/health");
    assert_eq!(shutdown_url(5050), "http://127.0.0.1:5050/actuator/shutdown");
}

#[test]
fn the_end_of_a_log_starts_late() {
    assert_eq!(tail_start(10, 8192), 0);
    assert_eq!(tail_start(8192, 8192), 0);
    assert_eq!(tail_start(8200, 8192), 8);
}

#[test]
fn the_last_whole_lines_are_shown() {
    assert_eq!(last_lines("a\nb\nc\n", false, 2), "b\nc");
    assert_eq!(last_lines("a\r\nb", false, 40), "a\nb");
    assert_eq!(last_lines("a\nb\nc", false, 0), "");
    assert_eq!(last_lines("", false, 40), "");
    assert_eq!(last_lines("of a line\nb\nc\n", true, 40), "b\nc");
    assert_eq!(last_lines("of a line\nb\nc\n", true, 1), "c");
    assert_eq!(last_lines("of a line", true, 40), "");
}

#[test]
fn logs_are_shown_under_their_names() {
    let bytes = |b: &[u8], cut| LogEnd::Bytes {
        before: if cut { Some(b'x') } else { None },
        bytes: b.to_vec(),
    };
    assert_eq!(read_tail(&LogEnd::Unreadable, 40), "");
    assert_eq!(read_tail(&bytes(b"x\xff\ny\n", false), 40), "x\u{fffd}\ny");
    assert_eq!(
        backend_log_tail(&bytes(b"err\n", false), &bytes(b"cut\nout\n", true), 40),
        "\n--- tail of backend.err.log ---\nerr\n\n--- tail of backend.out.log ---\nout\n"
    );
    assert_eq!(
        backend_log_tail(&LogEnd::Unreadable, &bytes(b"out", false), 40),
        "\n--- tail of backend.out.log ---\nout\n"
    );
    assert_eq!(backend_log_tail(&bytes(b"", false), &LogEnd::Unreadable, 40), "");
    assert_eq!(log_sections("", ""), "");
}

#[test]
fn a_tail_that_starts_with_a_line_keeps_it() {
    assert!(!is_cut(None));
    assert!(!is_cut(Some(b'\n')));
    assert!(is_cut(Some(b'\r')));
    assert!(is_cut(Some(b'c')));
    let end = |before| LogEnd::Bytes { before, bytes: b"xyz".to_vec() };
    assert_eq!(read_tail(&end(Some(b'\n')), 40), "xyz");
    assert_eq!(read_tail(&end(None), 40), "xyz");
    assert_eq!(read_tail(&end(Some(b'w')), 40), "");
    let end = LogEnd::Bytes { before: Some(b'w'), bytes: "ä\nö\n".as_bytes().to_vec() };
    assert_eq!(read_tail(&end, 40), "ö");
}

#[test]
fn paths_without_parts_are_those_of_the_settings() {
    let mut p = probe(true, false);
    p.java = PathRoot::Text("/other/java".to_string());
    p.jar = PathRoot::Text("/other.jar".to_string());
    match start(&config(), p, env(None)) {
        Ok(l) => {
            assert_eq!(word(&Word::Path(l.program.clone())), "java");
            assert_eq!(word(&l.arguments[2]), "/k.jar");
        }
        Err(e) => panic!("{}", e.message),
    }
    let mut c = config();
    c.java_bin = DesktopPath::text("/jre").join("bin/java");
    let mut p = probe(true, false);
    p.java = PathRoot::Text("/jre/bin/java".to_string());
    match start(&c, p, env(None)) {
        Ok(l) => assert_eq!(word(&Word::Path(l.program.clone())), "/jre/bin/java"),
        Err(e) => panic!("{}", e.message),
    }
}

#[test]
fn a_jvm_that_accepts_is_not_signalled() {
    assert_eq!(shutdown(StopStep::Ask, StopEvent::Answer(200)), StopStep::Look);
    assert!(request_graceful_shutdown(200));
}

#[test]
fn a_jvm_that_does_not_accept_is_signalled() {
    for event in [StopEvent::Answer(401), StopEvent::Answer(204), StopEvent::NoAnswer] {
        assert_eq!(shutdown(StopStep::Ask, event), StopStep::Signal);
    }
    assert!(!request_graceful_shutdown(204));
    assert_eq!(shutdown(StopStep::Signal, StopEvent::Done), StopStep::Look);
}

#[test]
fn a_jvm_is_waited_for_until_the_time_is_over() {
    let look = |event| shutdown(StopStep::Look, event);
    assert_eq!(look(StopEvent::Running { time_over: false }), StopStep::Wait);
    assert_eq!(shutdown(StopStep::Wait, StopEvent::Done), StopStep::Look);
    assert_eq!(look(StopEvent::Exited), StopStep::Finished);
    assert_eq!(look(StopEvent::Unknown), StopStep::Finished);
    assert_eq!(look(StopEvent::Running { time_over: true }), StopStep::Kill);
    assert_eq!(shutdown(StopStep::Kill, StopEvent::Done), StopStep::Finished);
}

#[test]
fn events_that_do_not_belong_change_nothing() {
    assert_eq!(shutdown(StopStep::Ask, StopEvent::Done), StopStep::Ask);
    assert_eq!(shutdown(StopStep::Finished, StopEvent::Answer(200)), StopStep::Finished);
}
