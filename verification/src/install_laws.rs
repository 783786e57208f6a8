//! What holds of an installation: where its runtime and its archive are found, where it
//! lives, how it is set up, and which secrets it uses.

use vstd::prelude::*;

use crate::bundle::{
    bin_dir_under, java_in, java_of, lib_dir_of, mariadb_dir_of, program_file, resources,
    resources_places, system_bin_dir, ForcedDir, LibProbe, MariadbRoot, Probed, ResourcesCandidate,
};
use crate::error::{ErrorKind, ErrorView};
use crate::jar::{
    first_jar, is_jar, jar_path, jar_places, law_last_jar_is_last, shown_dirs, AskedJar, JarDir,
};
use crate::number::{decimal, law_decimal_reads_back, read_number, NumberError};
use crate::outside::{base64_decoded, debug_quoted};
use crate::path::{PathView, Platform, RootView};
use crate::secrets::{
    env_password, env_secret, file_secret, is_payment_key, is_random_text, payment_key_in,
    JWT_SECRET_LEN, PASSWORD_LEN, SECRET_FILE_MODE,
};
use crate::supervisor::{
    app_data, backend_config_of, backend_settings, is_on, mariadb_config_of, mariadb_settings,
    port_of, supervised, AppDataBase, BackendSecrets, BackendSettings, MariadbEnv, MariadbPrograms,
    MariadbSettingsView, MariadbView, SupervisorView, DEFAULT_BACKEND_PORT, DEFAULT_MARIADB_PORT,
};
use crate::text::{in_order, is_space, join, texts};
use crate::text_laws::{is_blank, law_only_digits_are_read, law_trim_takes_what_is_around};

verus! {

// ---------------------------------------------------------------------------
// The resources
// ---------------------------------------------------------------------------

/// The resources are looked for beside the directory of the program, in it, and where the
/// shell was built, in this order; only there where the program's directory is unknown.
pub proof fn law_resources_are_looked_for_around_the_program(exe: PathView, built: PathView)
    ensures
        resources_places(Some(exe), built) == seq![
            PathView { root: exe.root, parts: exe.parts.push("../Resources"@) },
            PathView { root: exe.root, parts: exe.parts.push("../resources"@) },
            PathView { root: exe.root, parts: exe.parts.push("resources"@) },
            PathView { root: built.root, parts: built.parts.push("Resources"@) },
        ],
        resources_places(None, built) == seq![
            PathView { root: built.root, parts: built.parts.push("Resources"@) },
        ],
{
}

/// The first candidate that exists and holds a `jar`, a `jre` or a `mariadb`, or any two of
/// them, or all, is the one in use: in canonical form where that could be had, and as it is
/// where not.
pub proof fn law_first_bundle_is_used(list: Seq<ResourcesCandidate>, i: int)
    requires
        0 <= i < list.len(),
        list[i].exists,
        list[i].has_jar || list[i].has_jre || list[i].has_mariadb,
        forall|k: int|
            0 <= k < i ==> !(#[trigger] list[k]).exists || !(list[k].has_jar || list[k].has_jre
                || list[k].has_mariadb),
    ensures
        list[i].canonical matches Some(c) ==> resources(None, list) == Some(c@),
        list[i].canonical is None ==> resources(None, list) == Some(list[i].path@),
    decreases i,
{
    if i > 0 {
        let rest = list.drop_first();
        assert(rest[i - 1] == list[i]);
        assert forall|k: int| 0 <= k < i - 1 implies !(#[trigger] rest[k]).exists || !(
        rest[k].has_jar || rest[k].has_jre || rest[k].has_mariadb) by {
            assert(rest[k] == list[k + 1]);
        }
        assert(!list[0].exists || !(list[0].has_jar || list[0].has_jre || list[0].has_mariadb));
        law_first_bundle_is_used(rest, i - 1);
    }
}

/// No resources are in use exactly where no candidate that exists holds any.
pub proof fn law_no_bundle_only_where_there_is_none(list: Seq<ResourcesCandidate>)
    ensures
        resources(None, list) is None <==> forall|k: int|
            0 <= k < list.len() && (#[trigger] list[k]).exists ==> !list[k].has_jar
                && !list[k].has_jre && !list[k].has_mariadb,
    decreases list.len(),
{
    if list.len() > 0 {
        let rest = list.drop_first();
        law_no_bundle_only_where_there_is_none(rest);
        assert forall|k: int| 0 < k < list.len() implies list[k] == #[trigger] rest[k - 1] by {}
        if forall|k: int|
            0 <= k < rest.len() && (#[trigger] rest[k]).exists ==> !rest[k].has_jar
                && !rest[k].has_jre && !rest[k].has_mariadb {
            assert forall|k: int| 0 < k < list.len() && (#[trigger] list[k]).exists implies
                !list[k].has_jar && !list[k].has_jre && !list[k].has_mariadb by {
                assert(list[k] == rest[k - 1]);
            }
        } else {
            let k = choose|k: int|
                0 <= k < rest.len() && (#[trigger] rest[k]).exists && (rest[k].has_jar
                    || rest[k].has_jre || rest[k].has_mariadb);
            assert(list[k + 1] == rest[k]);
        }
    }
}

/// A candidate that is in use stays in use when it holds more than before.
pub proof fn law_a_fuller_bundle_stays_in_use(
    list: Seq<ResourcesCandidate>,
    i: int,
    fuller: ResourcesCandidate,
)
    requires
        0 <= i < list.len(),
        list[i].exists,
        list[i].has_jar || list[i].has_jre || list[i].has_mariadb,
        forall|k: int|
            0 <= k < i ==> !(#[trigger] list[k]).exists || !(list[k].has_jar || list[k].has_jre
                || list[k].has_mariadb),
        fuller.exists,
        fuller.path == list[i].path,
        fuller.canonical == list[i].canonical,
        list[i].has_jar ==> fuller.has_jar,
        list[i].has_jre ==> fuller.has_jre,
        list[i].has_mariadb ==> fuller.has_mariadb,
    ensures
        resources(None, list.update(i, fuller)) == resources(None, list),
        resources(None, list) is Some,
{
    law_first_bundle_is_used(list, i);
    let more = list.update(i, fuller);
    assert forall|k: int| 0 <= k < i implies !(#[trigger] more[k]).exists || !(more[k].has_jar
        || more[k].has_jre || more[k].has_mariadb) by {
        assert(more[k] == list[k]);
    }
    law_first_bundle_is_used(more, i);
}

/// A directory that the user asks for is used where it exists, in canonical form, and
/// whatever it holds; where it does not exist, asking changes nothing.
pub proof fn law_asked_resources_are_used(
    dir: ForcedDir,
    list: Seq<ResourcesCandidate>,
)
    ensures
        dir.exists ==> (match dir.canonical {
            Some(c) => resources(Some(dir), list) == Some(c@),
            None => resources(Some(dir), list) is None,
        }),
        !dir.exists ==> resources(Some(dir), list) == resources(None, list),
{
}

// ---------------------------------------------------------------------------
// The programs
// ---------------------------------------------------------------------------

/// Programs have the extension `.exe` on Windows, and none elsewhere.
pub proof fn law_programs_have_an_extension_on_windows(base: Seq<char>)
    ensures
        program_file(Platform::Windows, base) == base + ".exe"@,
        program_file(Platform::MacOs, base) == base,
        program_file(Platform::Unix, base) == base,
{
}

/// The JVM of a JRE is `bin/java.exe` on Windows where that is there, and `bin/java`
/// otherwise.
pub proof fn law_java_is_in_the_jre(jre: PathView, there: bool)
    ensures
        java_in(Platform::Windows, jre, true) == (PathView {
            root: jre.root,
            parts: jre.parts.push("bin/java.exe"@),
        }),
        java_in(Platform::Windows, jre, false) == (PathView {
            root: jre.root,
            parts: jre.parts.push("bin/java"@),
        }),
        java_in(Platform::MacOs, jre, there) == java_in(Platform::Windows, jre, false),
        java_in(Platform::Unix, jre, there) == java_in(Platform::Windows, jre, false),
{
}

/// The JVM that the user asks for is run; else the one that is shipped, where it exists;
/// else the `java` of the search path.
pub proof fn law_asked_java_before_shipped_before_any(
    asked: String,
    shipped: Probed,
    any: Option<Probed>,
)
    ensures
        java_of(Some(asked), any) == (PathView { root: RootView::Text(asked@), parts: seq![] }),
        shipped.exists ==> java_of(None, Some(shipped)) == shipped.path@,
        !shipped.exists ==> java_of(None, Some(shipped)) == java_of(None, None),
        java_of(None, None) == (PathView { root: RootView::Text("java"@), parts: seq![] }),
{
}

/// MariaDB is in the `bin` below a directory where its server is there, whatever else the
/// directory holds; else in the directory itself where the server is there; each in
/// canonical form where that could be had.
pub proof fn law_mariadb_is_where_its_server_is(found: MariadbRoot)
    ensures
        found.in_bin && found.canonical_bin is Some ==> bin_dir_under(found) == Some(
            found.canonical_bin->0@,
        ),
        found.in_bin && found.canonical_bin is None ==> bin_dir_under(found) == Some(
            PathView { root: found.root@.root, parts: found.root@.parts.push("bin"@) },
        ),
        !found.in_bin && found.in_root && found.canonical_root is Some ==> bin_dir_under(found)
            == Some(found.canonical_root->0@),
        !found.in_bin && found.in_root && found.canonical_root is None ==> bin_dir_under(found)
            == Some(found.root@),
        bin_dir_under(found) is None <==> !found.in_bin && !found.in_root,
{
}

/// Each platform has its own place for MariaDB; only that of macOS depends on what is
/// installed.
pub proof fn law_platforms_keep_mariadb(there: bool)
    ensures
        system_bin_dir(Platform::Windows, there) == (PathView {
            root: RootView::Text("mariadb/bin"@),
            parts: seq![],
        }),
        system_bin_dir(Platform::Unix, there) == (PathView {
            root: RootView::Text("/usr/bin"@),
            parts: seq![],
        }),
        system_bin_dir(Platform::MacOs, true) == (PathView {
            root: RootView::Text("/opt/homebrew/opt/mariadb@10.11/bin"@),
            parts: seq![],
        }),
        system_bin_dir(Platform::MacOs, false) == (PathView {
            root: RootView::Text("/usr/local/opt/mariadb@10.11/bin"@),
            parts: seq![],
        }),
{
}

/// The MariaDB that the user asks for is used; else the one that is shipped, where its
/// server is there; else that of the platform.
pub proof fn law_asked_mariadb_before_shipped_before_any(
    asked: String,
    shipped: MariadbRoot,
    any: Option<MariadbRoot>,
    platform: Platform,
    there: bool,
)
    ensures
        mariadb_dir_of(Some(asked), any, platform, there) == (PathView {
            root: RootView::Text(asked@),
            parts: seq![],
        }),
        shipped.in_bin || shipped.in_root ==> Some(
            mariadb_dir_of(None, Some(shipped), platform, there),
        ) == bin_dir_under(shipped),
        !shipped.in_bin && !shipped.in_root ==> mariadb_dir_of(
            None,
            Some(shipped),
            platform,
            there,
        ) == system_bin_dir(platform, there),
        mariadb_dir_of(None, None, platform, there) == system_bin_dir(platform, there),
{
}

/// The libraries of MariaDB are in the `lib` beside a `bin`, where there is one; else in
/// the `../lib` of the directory, where that is a directory, in canonical form; a `bin`
/// that nothing holds has none.
pub proof fn law_libraries_are_beside_the_programs(probe: LibProbe)
    ensures
        probe.named_bin && probe.parent is None ==> lib_dir_of(probe) is None,
        probe.named_bin && probe.parent is Some && probe.parent_has_lib ==> lib_dir_of(probe)
            == Some(
            PathView {
                root: probe.parent->0@.root,
                parts: probe.parent->0@.parts.push("lib"@),
            },
        ),
        !probe.named_bin || (probe.parent is Some && !probe.parent_has_lib) ==> (
        if probe.sibling_is_dir && probe.sibling_canonical is Some {
            lib_dir_of(probe) == Some(probe.sibling_canonical->0@)
        } else {
            lib_dir_of(probe) is None
        }),
{
}

// ---------------------------------------------------------------------------
// The archive
// ---------------------------------------------------------------------------

/// An archive is a file whose name starts with the prefix and ends with `.jar`, whatever
/// stands between.
pub proof fn law_archives_are_known_by_their_names(
    prefix: Seq<char>,
    middle: Seq<char>,
    name: Seq<char>,
)
    ensures
        is_jar(prefix + middle + ".jar"@, prefix),
        is_jar(name, prefix) && name.len() >= prefix.len() + 4 ==> exists|m: Seq<char>|
            name == #[trigger] (prefix + m + ".jar"@),
        is_jar(name, prefix) ==> name.len() >= 4 && name.skip(name.len() - 4) == seq![
            '.',
            'j',
            'a',
            'r',
        ] && name.len() >= prefix.len() && name.take(prefix.len() as int) == prefix,
{
    reveal_strlit(".jar");
    let end = ".jar"@;
    assert(end =~= seq!['.', 'j', 'a', 'r']);
    let whole = prefix + middle + end;
    assert(whole.take(prefix.len() as int) == prefix);
    assert(whole.skip(whole.len() - 4) == end);
    assert(prefix.is_prefix_of(whole));
    assert(end.is_suffix_of(whole));
    if is_jar(name, prefix) {
        assert(name.skip(name.len() - 4) == end);
        assert(name.take(prefix.len() as int) == prefix);
        if name.len() >= prefix.len() + 4 {
            let m = name.subrange(prefix.len() as int, name.len() - 4);
            assert(name == prefix + m + end);
        }
    }
}

/// Archives are looked for among the resources beside the program, in its `jar`, in its own
/// directory and where the backend is built, seen from the program and from where the shell
/// was built, in this order.
pub proof fn law_archives_are_looked_for_around_the_program(exe: PathView, built: PathView)
    ensures
        jar_places(Some(exe), built) == seq![
            PathView { root: exe.root, parts: exe.parts.push("../Resources/jar"@) },
            PathView { root: exe.root, parts: exe.parts.push("jar"@) },
            exe,
            PathView { root: exe.root, parts: exe.parts.push("../../../backend/build/libs"@) },
            PathView { root: built.root, parts: built.parts.push("../../backend/build/libs"@) },
        ],
        jar_places(None, built) == seq![
            PathView { root: built.root, parts: built.parts.push("../../backend/build/libs"@) },
        ],
{
}

/// The archive that the user asks for is run where it exists, and is an error that names it
/// where it does not, whatever else is there. Without asking, the one that is shipped is
/// run where it exists; else the one of the first directory that offers one; and where none
/// does, the error names every directory that was searched.
pub proof fn law_asked_archive_before_shipped_before_found(
    asked: AskedJar,
    shipped: Option<Probed>,
    dirs: Seq<JarDir>,
)
    ensures
        asked.exists ==> jar_path(Some(asked), shipped, dirs) == Ok::<PathView, ErrorView>(
            PathView { root: RootView::Text(asked.path@), parts: seq![] },
        ),
        !asked.exists ==> jar_path(Some(asked), shipped, dirs) == Err::<PathView, ErrorView>(
            ErrorView {
                kind: ErrorKind::NotFound,
                message: "APP_DESKTOP_JAR="@ + asked.path@ + " does not exist"@,
            },
        ),
        shipped matches Some(s) ==> s.exists ==> jar_path(None, shipped, dirs) == Ok::<
            PathView,
            ErrorView,
        >(s.path@),
        shipped matches Some(s) ==> !s.exists ==> jar_path(None, shipped, dirs) == jar_path(
            None,
            None,
            dirs,
        ),
        (forall|i: int| 0 <= i < dirs.len() ==> (#[trigger] dirs[i]).jar() is None) ==> jar_path(
            None,
            None,
            dirs,
        ) == Err::<PathView, ErrorView>(
            ErrorView {
                kind: ErrorKind::NotFound,
                message: "kiosk-desktop-*.jar not found. Build it with `cd backend && ./gradlew bootJar -Pdesktop=true`, or set APP_DESKTOP_JAR. Searched: "@
                    + join(
                    Seq::new(dirs.len(), |i: int| dirs[i].shown@),
                    ", "@,
                ),
            },
        ),
{
    if forall|i: int| 0 <= i < dirs.len() ==> (#[trigger] dirs[i]).jar() is None {
        lemma_no_jar(dirs);
        assert(shown_dirs(dirs) =~= Seq::new(dirs.len(), |i: int| dirs[i].shown@));
    }
}

proof fn lemma_no_jar(dirs: Seq<JarDir>)
    requires
        forall|i: int| 0 <= i < dirs.len() ==> (#[trigger] dirs[i]).jar() is None,
    ensures
        first_jar(dirs) is None,
    decreases dirs.len(),
{
    if dirs.len() > 0 {
        let rest = dirs.drop_first();
        assert(dirs[0].jar() is None);
        assert forall|i: int| 0 <= i < rest.len() implies (#[trigger] rest[i]).jar() is None by {
            assert(rest[i] == dirs[i + 1]);
        }
        lemma_no_jar(rest);
    }
}

/// A directory that could not be listed, and one without an archive of the application,
/// offers nothing; any other offers, from where the directory really is, the archive that
/// comes last in the order of names.
pub proof fn law_the_last_archive_is_offered(dir: JarDir, name: Seq<char>)
    ensures
        dir.listing is None ==> dir.jar() is None,
        dir.listing matches Some(l) ==> {
            let names = texts(l.names@);
            &&& (forall|i: int|
                0 <= i < names.len() ==> !is_jar(#[trigger] names[i], "kiosk-desktop"@))
                ==> dir.jar() is None
            &&& names.contains(name) && is_jar(name, "kiosk-desktop"@) && (forall|i: int|
                0 <= i < names.len() && is_jar(names[i], "kiosk-desktop"@) ==> in_order(
                    #[trigger] names[i],
                    name,
                )) ==> dir.jar() == Some(
                PathView { root: l.dir@.root, parts: l.dir@.parts.push(name) },
            )
        },
{
    if let Some(l) = dir.listing {
        let names = texts(l.names@);
        law_last_jar_is_last(names, "kiosk-desktop"@);
        if names.contains(name) && is_jar(name, "kiosk-desktop"@) {
            let k = choose|k: int| 0 <= k < names.len() && names[k] == name;
            assert(is_jar(names[k], "kiosk-desktop"@));
        }
    }
}

// ---------------------------------------------------------------------------
// Where an installation lives
// ---------------------------------------------------------------------------

/// The directory that the user asks for is used, whatever is there.
pub proof fn law_asked_directory_is_used(
    platform: Platform,
    asked: String,
    data_dir: Option<AppDataBase>,
    home: Option<AppDataBase>,
)
    ensures
        app_data(platform, Some(asked), data_dir, home) == Ok::<PathView, ErrorView>(
            PathView { root: RootView::Text(asked@), parts: seq![] },
        ),
{
}

/// An installation lives below the data directory of the user, under its own name, which is
/// in lower case on Linux; under the name of earlier builds exactly where only that exists.
pub proof fn law_installation_lives_in_the_data_directory(
    platform: Platform,
    base: AppDataBase,
    home: Option<AppDataBase>,
)
    ensures
        ({
            let own = if platform == Platform::Unix {
                "palmart"@
            } else {
                "Palmart"@
            };
            app_data(platform, None, Some(base), home) == Ok::<PathView, ErrorView>(
                PathView {
                    root: base.dir@.root,
                    parts: base.dir@.parts.push(
                        if base.legacy_exists && !base.exists {
                            "Kiosk"@
                        } else {
                            own
                        },
                    ),
                },
            )
        }),
{
}

/// Without a data directory an installation lives below the home directory, under a hidden
/// name; and without a home directory there is none.
pub proof fn law_installation_lives_in_the_home_directory(platform: Platform, base: AppDataBase)
    ensures
        app_data(platform, None, None, Some(base)) == Ok::<PathView, ErrorView>(
            PathView {
                root: base.dir@.root,
                parts: base.dir@.parts.push(
                    if base.legacy_exists && !base.exists {
                        ".kiosk"@
                    } else {
                        ".palmart"@
                    },
                ),
            },
        ),
        app_data(platform, None, None, None) == Err::<PathView, ErrorView>(
            ErrorView {
                kind: ErrorKind::NotFound,
                message: "no app-data dir candidate available"@,
            },
        ),
{
}

// ---------------------------------------------------------------------------
// How it is set up
// ---------------------------------------------------------------------------

/// A port is the default where nothing is asked for, and the very number that is asked for,
/// for every port there is.
pub proof fn law_every_port_can_be_asked_for(name: Seq<char>, port: u16, default: u16)
    ensures
        port_of(name, None, default) == Ok::<u16, ErrorView>(default),
        port_of(name, Some(decimal(port as nat)), default) == Ok::<u16, ErrorView>(port),
        DEFAULT_BACKEND_PORT == 5050,
        DEFAULT_MARIADB_PORT == 33306,
{
    law_decimal_reads_back(port as nat, u16::MAX as nat);
}

/// A value that is no number, or one above 65535, is an error that names the variable, shows
/// the value and says what is wrong with it. The default never takes its place.
pub proof fn law_bad_ports_are_refused(name: Seq<char>, value: Seq<char>, default: u16, i: int)
    ensures
        value.len() == 0 ==> port_of(name, Some(value), default) == Err::<u16, ErrorView>(
            ErrorView {
                kind: ErrorKind::InvalidInput,
                message: name + "="@ + debug_quoted(value) + " is not a valid u16: "@
                    + "cannot parse integer from empty string"@,
            },
        ),
        read_number(value, 65535) == Err::<nat, NumberError>(NumberError::InvalidDigit) ==> port_of(
            name,
            Some(value),
            default,
        ) == Err::<u16, ErrorView>(
            ErrorView {
                kind: ErrorKind::InvalidInput,
                message: name + "="@ + debug_quoted(value) + " is not a valid u16: "@
                    + "invalid digit found in string"@,
            },
        ),
        read_number(value, 65535) == Err::<nat, NumberError>(NumberError::TooLarge) ==> port_of(
            name,
            Some(value),
            default,
        ) == Err::<u16, ErrorView>(
            ErrorView {
                kind: ErrorKind::InvalidInput,
                message: name + "="@ + debug_quoted(value) + " is not a valid u16: "@
                    + "number too large to fit in target type"@,
            },
        ),
        0 < i < value.len() && !('0' <= value[i] <= '9') ==> port_of(
            name,
            Some(value),
            default,
        ) is Err,
{
    if 0 < i < value.len() && !('0' <= value[i] <= '9') {
        if read_number(value, u16::MAX as nat) is Ok {
            law_only_digits_are_read(value, u16::MAX as nat);
        }
    }
}

/// A switch is on where it is set to `1`, `true` or `TRUE`, and only there.
pub proof fn law_switches_are_on_by_three_words(value: Seq<char>)
    ensures
        !is_on(None),
        is_on(Some("1"@)) && is_on(Some("true"@)) && is_on(Some("TRUE"@)),
        is_on(Some(value)) ==> value == "1"@ || value == "true"@ || value == "TRUE"@,
{
}

/// The database needs its server first, and a good port then; the error of either comes
/// through. With both, it has the programs that were found, the port and the user that are
/// asked for, or 33306 and `ub_local`, and is left to others exactly where that is asked.
pub proof fn law_database_is_set_up_as_asked(programs: MariadbPrograms, env: MariadbEnv)
    ensures
        !programs.daemon_exists ==> mariadb_settings(programs, env) == Err::<
            MariadbSettingsView,
            ErrorView,
        >(
            ErrorView {
                kind: ErrorKind::NotFound,
                message: "mariadbd not found under "@ + programs.shown@
                    + ". Run desktop/scripts/prepare-tauri-resources.sh, install `brew install mariadb@10.11`, or set APP_MARIADB_BIN_DIR."@,
            },
        ),
        ({
            let asked = match env.port {
                Some(p) => Some(p@),
                None => None,
            };
            let skip = match env.skip {
                Some(s) => Some(s@),
                None => None,
            };
            programs.daemon_exists ==> match port_of("APP_DESKTOP_DB_PORT"@, asked, 33306) {
                Err(e) => mariadb_settings(programs, env) == Err::<MariadbSettingsView, ErrorView>(
                    e,
                ),
                Ok(port) => {
                    &&& mariadb_settings(programs, env) is Ok
                    &&& mariadb_settings(programs, env)->Ok_0.port == port
                    &&& mariadb_settings(programs, env)->Ok_0.bin_dir == programs.bin_dir@
                    &&& programs.lib_dir is None ==> mariadb_settings(
                        programs,
                        env,
                    )->Ok_0.lib_dir is None
                    &&& programs.lib_dir matches Some(lib) ==> mariadb_settings(
                        programs,
                        env,
                    )->Ok_0.lib_dir == Some(lib@)
                    &&& env.user is None ==> mariadb_settings(programs, env)->Ok_0.user
                        == "ub_local"@
                    &&& env.user matches Some(user) ==> mariadb_settings(programs, env)->Ok_0.user
                        == user@
                    &&& mariadb_settings(programs, env)->Ok_0.external == is_on(skip)
                },
            }
        }),
{
}

/// The backend has the port and the profile that are asked for, or 5050 and `desktop`; the
/// error of a bad port comes through, whatever the profile.
pub proof fn law_backend_is_set_up_as_asked(
    port: Option<Seq<char>>,
    profile: Seq<char>,
)
    ensures
        match port_of("APP_DESKTOP_BACKEND_PORT"@, port, 5050) {
            Ok(p) => {
                &&& backend_settings(port, Some(profile)) == Ok::<(u16, Seq<char>), ErrorView>(
                    (p, profile),
                )
                &&& backend_settings(port, None) == Ok::<(u16, Seq<char>), ErrorView>(
                    (p, "desktop"@),
                )
            },
            Err(e) => {
                &&& backend_settings(port, Some(profile)) == Err::<(u16, Seq<char>), ErrorView>(e)
                &&& backend_settings(port, None) == Err::<(u16, Seq<char>), ErrorView>(e)
            },
        },
{
}

/// The database of an installation keeps its files in the directory of the installation,
/// each under its own name, and is otherwise as it was set up.
pub proof fn law_database_lives_in_its_installation(
    at: PathView,
    settings: MariadbSettingsView,
    password: Seq<char>,
)
    ensures
        ({
            let c = mariadb_config_of(at, settings, password);
            &&& c.datadir == (PathView { root: at.root, parts: at.parts.push("db"@) })
            &&& c.socket == (PathView { root: at.root, parts: at.parts.push("mariadb.sock"@) })
            &&& c.pid_file == (PathView { root: at.root, parts: at.parts.push("mariadb.pid"@) })
            &&& c.log_file == (PathView { root: at.root, parts: at.parts.push("mariadb.log"@) })
            &&& c.bin_dir == settings.bin_dir
            &&& c.lib_dir == settings.lib_dir
            &&& c.port == settings.port
            &&& c.user == settings.user
            &&& c.external == settings.external
            &&& c.password == password
        }),
{
}

/// The backend of an installation lives in its directory, has the port, the account and the
/// password of its database, and is otherwise as it was set up.
pub proof fn law_backend_has_the_account_of_its_database(
    at: PathView,
    mariadb: MariadbView,
    settings: BackendSettings,
    java: PathView,
    jar: PathView,
    secrets: BackendSecrets,
)
    ensures
        ({
            let c = backend_config_of(at, mariadb, settings, java, jar, secrets);
            &&& c.app_data == at
            &&& c.mariadb_port == mariadb.port
            &&& c.mariadb_user == mariadb.user
            &&& c.mariadb_password == mariadb.password
            &&& c.port == settings.port
            &&& c.profile == settings.profile@
            &&& c.java_bin == java
            &&& c.jar_path == jar
            &&& c.jwt_secret == secrets.jwt_secret@
            &&& c.payment_encryption_key == secrets.payment_encryption_key@
        }),
{
}

/// An installation has what was found of it: its database the settings and the password,
/// its backend the settings, the program, the archive and the keys, each in its own place.
pub proof fn law_an_installation_is_what_was_found(
    at: PathView,
    mariadb: MariadbSettingsView,
    password: Seq<char>,
    backend: BackendSettings,
    java: PathView,
    jar: PathView,
    secrets: BackendSecrets,
)
    ensures
        ({
            let s = supervised(at, mariadb, password, backend, java, jar, secrets);
            &&& s.app_data == at
            &&& s.consistent()
            &&& s.mariadb.password == password && s.backend.mariadb_password == password
            &&& s.mariadb.port == mariadb.port && s.backend.mariadb_port == mariadb.port
            &&& s.mariadb.user == mariadb.user && s.backend.mariadb_user == mariadb.user
            &&& s.mariadb.bin_dir == mariadb.bin_dir && s.mariadb.lib_dir == mariadb.lib_dir
            &&& s.mariadb.external == mariadb.external
            &&& s.backend.port == backend.port && s.backend.profile == backend.profile@
            &&& s.backend.java_bin == java && s.backend.jar_path == jar
            &&& s.backend.jwt_secret == secrets.jwt_secret@
            &&& s.backend.payment_encryption_key == secrets.payment_encryption_key@
        }),
{
}

/// What it means for database and backend to belong together.
pub proof fn law_database_and_backend_belong_together(s: SupervisorView)
    requires
        s.consistent(),
    ensures
        s.backend.app_data == s.app_data,
        s.backend.mariadb_port == s.mariadb.port,
        s.backend.mariadb_user == s.mariadb.user,
        s.backend.mariadb_password == s.mariadb.password,
        s.mariadb.datadir == (PathView {
            root: s.app_data.root,
            parts: s.app_data.parts.push("db"@),
        }),
{
}

// ---------------------------------------------------------------------------
// Secrets
// ---------------------------------------------------------------------------

/// A password has 32 characters and a signing key 64; nobody but the owner may read or write
/// the file of a secret.
pub proof fn law_secret_sizes()
    ensures
        PASSWORD_LEN == 32,
        JWT_SECRET_LEN == 64,
        SECRET_FILE_MODE == 0o600,
{
}

/// A password of the environment is used as it is, even an empty one; a signing key is used
/// as it is unless it is empty.
pub proof fn law_environment_comes_first(s: Seq<char>)
    ensures
        env_password(Some(s)) == Some(s),
        env_password(None) is None,
        s.len() > 0 ==> env_secret(Some(s)) == Some(s),
        env_secret(Some(seq![])) is None,
        env_secret(None) is None,
{
}

/// A file gives the secret that it holds, whatever white space is around it; without a file
/// there is none yet.
pub proof fn law_files_give_their_secret(a: Seq<char>, s: Seq<char>, b: Seq<char>)
    requires
        is_blank(a),
        is_blank(b),
        s.len() > 0 ==> !is_space(s[0]) && !is_space(s.last()),
    ensures
        file_secret(Some(a + s + b)) == Some(s),
        file_secret(None) is None,
{
    law_trim_takes_what_is_around(a, s, b);
}

/// A payment key is text that decodes to 32 bytes, whatever white space is around it. It is
/// used without that; anything else is not used at all.
pub proof fn law_payment_keys_decode_to_32_bytes(a: Seq<char>, s: Seq<char>, b: Seq<char>)
    requires
        is_blank(a),
        is_blank(b),
        s.len() > 0 ==> !is_space(s[0]) && !is_space(s.last()),
    ensures
        ({
            let good = s.len() > 0 && base64_decoded(s) is Some && base64_decoded(s)->0.len() == 32;
            &&& is_payment_key(a + s + b) == good
            &&& good ==> payment_key_in(Some(a + s + b)) == Some(s)
            &&& !good ==> payment_key_in(Some(a + s + b)) is None
            &&& payment_key_in(None) is None
        }),
{
    law_trim_takes_what_is_around(a, s, b);
}

/// Random text has the length that is asked for, and holds ASCII letters and digits only.
pub proof fn law_random_text_is_letters_and_digits(s: Seq<char>, len: nat)
    requires
        is_random_text(s, len),
    ensures
        s.len() == len,
        forall|i: int|
            0 <= i < s.len() ==> {
                let c = #[trigger] s[i];
                ('a' <= c <= 'z') || ('A' <= c <= 'Z') || ('0' <= c <= '9')
            },
{
}

} // verus!
