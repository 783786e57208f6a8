use kiosk_desktop::bundle::{
    bundle_resources_dir, default_system_mariadb_bin_dir, exe_name, jar_dir, java_executable_in,
    jre_root, mariadb_bin_dir_under, mariadb_daemon, mariadb_lib_dir, mariadb_root,
    opt_homebrew_bin_dir, resolve_java_bin, resolve_mariadb_bin_dir, resources_candidates,
    sibling_lib, uses_bundled_java, uses_bundled_mariadb, ForcedDir, LibProbe, MariadbRoot, Probed, ResourcesCandidate,
};
use kiosk_desktop::error::ErrorKind;
use kiosk_desktop::jar::{
    bundled_jar, first_jar_in, jar_candidates, resolve_jar_path, AskedJar, JarDir, Listing,
};
use kiosk_desktop::path::{DesktopPath, PathRoot, Platform};
use kiosk_desktop::supervisor::{
    parse_env_port, resolve_app_data, AppDataBase, BackendSecrets, BackendSettings, MariadbEnv,
    MariadbPrograms, MariadbSettings, Supervisor,
};

fn written(p: &DesktopPath) -> String {
    let mut s = match &p.root {
        PathRoot::Text(t) => t.clone(),
        PathRoot::Native(b) => format!("{:?}", b),
    };
    for part in &p.parts {
        s.push('|');
        s.push_str(part);
    }
    s
}

fn path(s: &str) -> DesktopPath {
    DesktopPath::text(s)
}

fn text(s: &str) -> Option<String> {
    Some(s.to_string())
}

#[test]
fn programs_have_an_extension_on_windows() {
    assert_eq!(exe_name(Platform::Windows, "mariadbd"), "mariadbd.exe");
    assert_eq!(exe_name(Platform::MacOs, "mariadbd"), "mariadbd");
    assert_eq!(exe_name(Platform::Unix, "mariadbd"), "mariadbd");
    assert_eq!(written(&mariadb_daemon(Platform::Windows, &path("b"))), "b|mariadbd.exe");
}

#[test]
fn paths_are_joined_in_turn() {
    let p = DesktopPath::native(vec![0xff, 0x2f]);
    assert_eq!(written(&p.join("a").join("b/c")), "[255, 47]|a|b/c");
    assert_eq!(written(&p.clone()), "[255, 47]");
}

#[test]
fn resources_are_looked_for_around_the_program() {
    let list = resources_candidates(Some(path("/app")), &path("/src"));
    let list: Vec<String> = list.iter().map(written).collect();
    assert_eq!(
        list,
        ["/app|../Resources", "/app|../resources", "/app|resources", "/src|Resources"]
    );
    let list = resources_candidates(None, &path("/src"));
    assert_eq!(list.len(), 1);
    assert_eq!(written(&jar_dir(&list[0])), "/src|Resources|jar");
    assert_eq!(written(&jre_root(&list[0])), "/src|Resources|jre");
    assert_eq!(written(&mariadb_root(&list[0])), "/src|Resources|mariadb");
}

fn candidate(name: &str, exists: bool, has: [bool; 3], canonical: bool) -> ResourcesCandidate {
    ResourcesCandidate {
        path: path(name),
        exists,
        has_jar: has[0],
        has_jre: has[1],
        has_mariadb: has[2],
        canonical: if canonical { Some(path("canonical")) } else { None },
    }
}

#[test]
fn the_first_place_with_resources_counts() {
    let list = vec![
        candidate("a", false, [true, true, true], true),
        candidate("b", true, [false, false, false], true),
        candidate("c", true, [false, false, true], false),
        candidate("d", true, [true, false, false], true),
    ];
    assert_eq!(bundle_resources_dir(None, &list).as_ref().map(written), text("c"));
    assert_eq!(
        bundle_resources_dir(None, &vec![candidate("d", true, [true, false, false], true)])
            .as_ref()
            .map(written),
        text("canonical")
    );
    assert!(bundle_resources_dir(None, &vec![]).is_none());
    let forced = ForcedDir { exists: true, canonical: Some(path("f")) };
    assert_eq!(bundle_resources_dir(Some(forced), &list).as_ref().map(written), text("f"));
    let forced = ForcedDir { exists: true, canonical: None };
    assert!(bundle_resources_dir(Some(forced), &list).is_none());
    let forced = ForcedDir { exists: false, canonical: None };
    assert_eq!(bundle_resources_dir(Some(forced), &list).as_ref().map(written), text("c"));
}

#[test]
fn the_jvm_is_asked_for_or_bundled_or_of_the_search_path() {
    let java = |asked: Option<&str>, there: Option<bool>| {
        let bundled = there.map(|exists| Probed { path: path("b"), exists });
        written(&resolve_java_bin(asked.map(str::to_string), bundled))
    };
    assert_eq!(java(Some("/j"), Some(true)), "/j");
    assert_eq!(java(None, Some(true)), "b");
    assert_eq!(java(None, Some(false)), "java");
    assert_eq!(java(None, None), "java");
    let bundled = |exists| Some(Probed { path: path("b"), exists });
    assert!(uses_bundled_java(&None, &bundled(true)));
    assert!(!uses_bundled_java(&None, &bundled(false)));
    assert!(!uses_bundled_java(&None, &None));
    assert!(!uses_bundled_java(&text("/j"), &bundled(true)));
    let under = |platform, there| written(&java_executable_in(platform, &path("r"), there));
    assert_eq!(under(Platform::Windows, true), "r|bin/java.exe");
    assert_eq!(under(Platform::Windows, false), "r|bin/java");
    assert_eq!(under(Platform::Unix, true), "r|bin/java");
}

fn root(in_bin: bool, in_root: bool, canonical: bool) -> MariadbRoot {
    let c = |s: &str| if canonical { Some(path(s)) } else { None };
    MariadbRoot {
        root: path("m"),
        in_bin,
        in_root,
        canonical_bin: c("cb"),
        canonical_root: c("cr"),
    }
}

#[test]
fn mariadb_is_asked_for_or_bundled_or_of_the_platform() {
    let under = |r: MariadbRoot| mariadb_bin_dir_under(r).as_ref().map(written);
    assert_eq!(under(root(true, true, true)), text("cb"));
    assert_eq!(under(root(true, true, false)), text("m|bin"));
    assert_eq!(under(root(false, true, true)), text("cr"));
    assert_eq!(under(root(false, true, false)), text("m"));
    assert_eq!(under(root(false, false, true)), None);
    let dir = |asked: Option<&str>, bundled, platform, homebrew| {
        written(&resolve_mariadb_bin_dir(asked.map(str::to_string), bundled, platform, homebrew))
    };
    assert_eq!(dir(Some("/x"), Some(root(true, true, true)), Platform::Unix, false), "/x");
    assert_eq!(dir(None, Some(root(true, false, true)), Platform::Unix, false), "cb");
    assert_eq!(dir(None, Some(root(false, false, true)), Platform::Unix, false), "/usr/bin");
    assert_eq!(dir(None, None, Platform::Windows, true), "mariadb/bin");
    assert!(uses_bundled_mariadb(&None, &Some(root(true, false, true))));
    assert!(uses_bundled_mariadb(&None, &Some(root(false, true, true))));
    assert!(!uses_bundled_mariadb(&None, &Some(root(false, false, true))));
    assert!(!uses_bundled_mariadb(&None, &None));
    assert!(!uses_bundled_mariadb(&text("/x"), &Some(root(true, true, true))));
    assert_eq!(
        written(&default_system_mariadb_bin_dir(Platform::MacOs, true)),
        "/opt/homebrew/opt/mariadb@10.11/bin"
    );
    assert_eq!(
        written(&default_system_mariadb_bin_dir(Platform::MacOs, false)),
        "/usr/local/opt/mariadb@10.11/bin"
    );
    assert_eq!(written(&opt_homebrew_bin_dir()), "/opt/homebrew/opt/mariadb@10.11/bin");
}

#[test]
fn the_libraries_of_mariadb_are_beside_its_programs() {
    let lib = |named_bin, parent: bool, parent_has_lib, sibling_is_dir| {
        mariadb_lib_dir(LibProbe {
            named_bin,
            parent: if parent { Some(path("p")) } else { None },
            parent_has_lib,
            sibling_is_dir,
            sibling_canonical: Some(path("s")),
        })
        .as_ref()
        .map(written)
    };
    assert_eq!(lib(true, true, true, true), text("p|lib"));
    assert_eq!(lib(true, true, false, true), text("s"));
    assert_eq!(lib(true, false, true, true), None);
    assert_eq!(lib(false, true, true, true), text("s"));
    assert_eq!(lib(false, true, true, false), None);
    assert_eq!(written(&sibling_lib(&path("b"))), "b|../lib");
}

fn listing(names: &[&str]) -> Option<Listing> {
    Some(Listing { dir: path("dir"), names: names.iter().map(|s| s.to_string()).collect() })
}

#[test]
fn the_last_archive_of_a_directory_counts() {
    let names = |list: &[&str]| list.iter().map(|s| s.to_string()).collect::<Vec<_>>();
    let list = names(&[
        "kiosk-desktop-1.2.jar",
        "zzz.jar",
        "kiosk-desktop-1.10.jar",
        "kiosk-desktop-9.txt",
        "x-kiosk-desktop-9.jar",
    ]);
    assert_eq!(first_jar_in(&list, "kiosk-desktop"), text("kiosk-desktop-1.2.jar"));
    assert_eq!(first_jar_in(&names(&["kiosk-desktop.jar"]), "kiosk-desktop"), text("kiosk-desktop.jar"));
    assert_eq!(first_jar_in(&names(&["kiosk.jar"]), "kiosk-desktop"), None);
    assert_eq!(first_jar_in(&names(&[]), "kiosk-desktop"), None);
}

#[test]
fn archives_are_looked_for_around_the_program() {
    let list: Vec<String> =
        jar_candidates(Some(path("/app")), &path("/src")).iter().map(written).collect();
    assert_eq!(
        list,
        [
            "/app|../Resources/jar",
            "/app|jar",
            "/app",
            "/app|../../../backend/build/libs",
            "/src|../../backend/build/libs",
        ]
    );
    assert_eq!(jar_candidates(None, &path("/src")).len(), 1);
    assert_eq!(written(&bundled_jar(&path("r"))), "r|jar/kiosk.jar");
}

#[test]
fn the_archive_is_asked_for_or_bundled_or_found() {
    let dirs = vec![
        JarDir { shown: "one".to_string(), listing: None },
        JarDir { shown: "two".to_string(), listing: listing(&["a.jar"]) },
        JarDir { shown: "three".to_string(), listing: listing(&["kiosk-desktop-1.jar"]) },
    ];
    let find = |asked: Option<bool>, bundled: Option<bool>, dirs: &Vec<JarDir>| {
        let asked = asked.map(|exists| AskedJar { path: "/a.jar".to_string(), exists });
        let bundled = bundled.map(|exists| Probed { path: path("b"), exists });
        match resolve_jar_path(asked, bundled, dirs) {
            Ok(p) => written(&p),
            Err(e) => {
                assert_eq!(e.kind, ErrorKind::NotFound);
                e.message
            }
        }
    };
    assert_eq!(find(Some(true), Some(true), &dirs), "/a.jar");
    assert_eq!(find(Some(false), Some(true), &dirs), "APP_DESKTOP_JAR=/a.jar does not exist");
    assert_eq!(find(None, Some(true), &dirs), "b");
    assert_eq!(find(None, Some(false), &dirs), "dir|kiosk-desktop-1.jar");
    assert_eq!(find(None, None, &dirs), "dir|kiosk-desktop-1.jar");
    let without = vec![
        JarDir { shown: "one".to_string(), listing: None },
        JarDir { shown: "two".to_string(), listing: listing(&["a.jar"]) },
    ];
    assert_eq!(
        find(None, None, &without),
        "kiosk-desktop-*.jar not found. Build it with `cd backend && ./gradlew bootJar -Pdesktop=true`, or set APP_DESKTOP_JAR. Searched: one, two"
    );
}

#[test]
fn an_archive_next_to_the_program_is_found() {
    let dirs: Vec<JarDir> = jar_candidates(Some(path("/app")), &path("/src"))
        .iter()
        .map(|d| JarDir {
            shown: written(d),
            listing: if written(d) == "/app" {
                Some(Listing {
                    dir: path("/app"),
                    names: vec!["kiosk-desktop".to_string(), "kiosk-desktop-1.0.jar".to_string()],
                })
            } else {
                None
            },
        })
        .collect();
    match resolve_jar_path(None, None, &dirs) {
        Ok(p) => assert_eq!(written(&p), "/app|kiosk-desktop-1.0.jar"),
        Err(e) => panic!("{}", e.message),
    }
}

#[test]
fn the_directory_of_an_installation_is_resolved() {
    let base = |name: &str, exists, legacy_exists| {
        Some(AppDataBase { dir: path(name), exists, legacy_exists })
    };
    let at = |platform, asked: Option<&str>, data, home| {
        match resolve_app_data(platform, asked.map(str::to_string), data, home) {
            Ok(p) => written(&p),
            Err(e) => format!("{:?} {}", e.kind, e.message),
        }
    };
    let mac = Platform::MacOs;
    assert_eq!(at(mac, Some("/x"), base("d", true, true), None), "/x");
    assert_eq!(at(mac, None, base("d", true, true), base("h", true, true)), "d|Palmart");
    assert_eq!(at(mac, None, base("d", false, true), None), "d|Kiosk");
    assert_eq!(at(mac, None, base("d", false, false), None), "d|Palmart");
    assert_eq!(at(Platform::Windows, None, base("d", true, false), None), "d|Palmart");
    assert_eq!(at(Platform::Unix, None, base("d", true, false), None), "d|palmart");
    assert_eq!(at(mac, None, None, base("h", true, true)), "h|.palmart");
    assert_eq!(at(mac, None, None, base("h", false, true)), "h|.kiosk");
    assert_eq!(at(mac, None, None, base("h", false, false)), "h|.palmart");
    assert_eq!(at(mac, None, None, None), "NotFound no app-data dir candidate available");
}

#[test]
fn a_port_is_read_from_the_environment() {
    let port = |value: Option<&str>| {
        parse_env_port("APP_X", value.map(str::to_string), 7).map_err(|e| (e.kind, e.message))
    };
    assert_eq!(port(None), Ok(7));
    assert_eq!(port(Some("8080")), Ok(8080));
    assert_eq!(port(Some("0")), Ok(0));
    for (value, why) in [
        ("", "cannot parse integer from empty string"),
        ("80a\"", "invalid digit found in string"),
        (" 80", "invalid digit found in string"),
        ("65536", "number too large to fit in target type"),
    ] {
        assert_eq!(
            port(Some(value)),
            Err((ErrorKind::InvalidInput, format!("APP_X={:?} is not a valid u16: {}", value, why)))
        );
        assert_eq!(value.parse::<u16>().map_err(|e| e.to_string()), Err(why.to_string()));
    }
}

fn programs(daemon_exists: bool) -> MariadbPrograms {
    MariadbPrograms {
        bin_dir: path("bin"),
        lib_dir: Some(path("lib")),
        daemon_exists,
        shown: "/shown/bin".to_string(),
    }
}

fn env(port: Option<&str>, skip: Option<&str>, user: Option<&str>) -> MariadbEnv {
    MariadbEnv {
        port: port.map(str::to_string),
        skip: skip.map(str::to_string),
        user: user.map(str::to_string),
    }
}

#[test]
fn the_database_has_defaults() {
    match MariadbSettings::resolve(programs(true), env(None, None, None)) {
        Ok(s) => {
            assert_eq!(s.port, 33306);
            assert_eq!(s.user, "ub_local");
            assert!(!s.external);
            assert_eq!(s.lib_dir.as_ref().map(written), text("lib"));
        }
        Err(e) => panic!("{}", e.message),
    }
}

#[test]
fn the_database_is_external_when_asked() {
    for (value, external) in
        [("1", true), ("true", true), ("TRUE", true), ("True", false), ("0", false), ("", false)]
    {
        match MariadbSettings::resolve(programs(true), env(Some("3306"), Some(value), Some("u"))) {
            Ok(s) => {
                assert_eq!(s.external, external, "{:?}", value);
                assert_eq!(s.port, 3306);
                assert_eq!(s.user, "u");
            }
            Err(e) => panic!("{}", e.message),
        }
    }
}

#[test]
fn a_missing_server_is_told_before_a_bad_port() {
    let error = |exists| match MariadbSettings::resolve(programs(exists), env(Some("x"), None, None)) {
        Ok(_) => panic!("resolved"),
        Err(e) => (e.kind, e.message),
    };
    assert_eq!(
        error(false),
        (
            ErrorKind::NotFound,
            "mariadbd not found under /shown/bin. Run desktop/scripts/prepare-tauri-resources.sh, install `brew install mariadb@10.11`, or set APP_MARIADB_BIN_DIR.".to_string()
        )
    );
    assert_eq!(
        error(true),
        (
            ErrorKind::InvalidInput,
            "APP_DESKTOP_DB_PORT=\"x\" is not a valid u16: invalid digit found in string".to_string()
        )
    );
}

fn supervisor() -> Supervisor {
    let mariadb = match MariadbSettings::resolve(programs(true), env(Some("4000"), None, Some("u"))) {
        Ok(s) => s,
        Err(e) => panic!("{}", e.message),
    };
    let backend = match BackendSettings::resolve(None, None) {
        Ok(s) => s,
        Err(e) => panic!("{}", e.message),
    };
    Supervisor::discover(
        path("/data"),
        mariadb,
        "secret".to_string(),
        backend,
        path("java"),
        path("k.jar"),
        BackendSecrets {
            jwt_secret: "jwt".to_string(),
            payment_encryption_key: "key".to_string(),
        },
    )
}

#[test]
fn the_backend_uses_the_database_of_its_installation() {
    let s = supervisor();
    assert_eq!(written(s.app_data()), "/data");
    assert_eq!(s.backend_port(), 5050);
    assert_eq!(s.backend_url(), "http://127.0.0.1:5050/");
    let m = s.mariadb_config().clone();
    assert_eq!(written(&m.datadir), "/data|db");
    assert_eq!(written(&m.socket), "/data|mariadb.sock");
    assert_eq!(written(&m.pid_file), "/data|mariadb.pid");
    assert_eq!(written(&m.log_file), "/data|mariadb.log");
    assert_eq!(written(&m.bin_dir), "bin");
    let b = s.backend_config().clone();
    assert_eq!((b.mariadb_port, b.mariadb_user, b.mariadb_password), (m.port, m.user, m.password));
    assert_eq!(b.profile, "desktop");
    assert_eq!(written(&b.app_data), "/data");
    assert_eq!((b.jwt_secret.as_str(), b.payment_encryption_key.as_str()), ("jwt", "key"));
    assert_eq!(written(&b.jar_path), "k.jar");
    assert_eq!(written(&b.java_bin), "java");
}

#[test]
fn the_backend_can_be_set_up_otherwise() {
    match BackendSettings::resolve(text("8081"), text("dev")) {
        Ok(s) => assert_eq!((s.port, s.profile.as_str()), (8081, "dev")),
        Err(e) => panic!("{}", e.message),
    }
    match BackendSettings::resolve(text("-1"), None) {
        Ok(_) => panic!("resolved"),
        Err(e) => assert_eq!(
            e.message,
            "APP_DESKTOP_BACKEND_PORT=\"-1\" is not a valid u16: invalid digit found in string"
        ),
    }
}
