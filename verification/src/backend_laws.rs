//! What holds of the backend: what its JVM is told, how its health is waited for, what its
//! logs are shown with, and how it is stopped.

use vstd::prelude::*;

use crate::backend::{
    backend_address, health_step, is_plain_form, jar_missing, last_lines_of, launch_of,
    log_section, sections_of, spawn_error, start_of_tail, started, starts_inside_line, stop_step,
    tail_of, whole_of, BackendEnv, HealthEventView, HealthStepView, LaunchProbe, LaunchView, LogEnd, StopEvent, StopStep,
    VariableView, WordView, HEALTH_POLL_MILLIS, HEALTH_REQUEST_SECS, HEALTH_TIMEOUT_SECS,
    LOG_TAIL_BYTES, LOG_TAIL_LINES, SHUTDOWN_POLL_MILLIS, SHUTDOWN_REQUEST_SECS,
    SHUTDOWN_TIMEOUT_SECS,
};
use crate::error::{ErrorKind, ErrorView};
use crate::number::decimal;
use crate::path::{PathView, RootView};
use crate::supervisor::BackendView;
use crate::text::{find_char, join, lemma_find_char, lines};
use crate::text_laws::{
    is_line, law_decimal_is_unique, law_joined_lines_come_apart, lemma_between,
};

verus! {

// ---------------------------------------------------------------------------
// The command
// ---------------------------------------------------------------------------

/// The JVM runs the given jar with the given program, under the profile and on the port of
/// the configuration, and writes to the two logs of the installation.
pub proof fn law_jvm_runs_the_jar(
    config: BackendView,
    java: RootView,
    jar: RootView,
    env: BackendEnv,
    lan_enabled: bool,
)
    ensures
        ({
            let launch = launch_of(config, java, jar, env, lan_enabled);
            &&& launch.program == (PathView { root: java, parts: seq![] })
            &&& launch.arguments.len() == 5
            &&& launch.arguments[0] == WordView::Text("-Xmx1024m"@)
            &&& launch.arguments[1] == WordView::Text("-jar"@)
            &&& launch.arguments[2] == WordView::Path(PathView { root: jar, parts: seq![] })
            &&& launch.arguments[3] == WordView::Text("--spring.profiles.active="@ + config.profile)
            &&& launch.arguments[4] == WordView::Text(
                "--server.port="@ + decimal(config.port as nat),
            )
            &&& launch.stdout == (PathView {
                root: config.app_data.root,
                parts: config.app_data.parts.push("backend.out.log"@),
            })
            &&& launch.stderr == (PathView {
                root: config.app_data.root,
                parts: config.app_data.parts.push("backend.err.log"@),
            })
        }),
{
}

/// Whether the JVM is given `value` under `name`, and nothing else under that name.
pub open spec fn is_given(vars: Seq<VariableView>, name: Seq<char>, value: WordView) -> bool {
    &&& exists|i: int| 0 <= i < vars.len() && #[trigger] vars[i] == (VariableView { name, value })
    &&& forall|i: int|
        0 <= i < vars.len() && #[trigger] vars[i].name == name ==> vars[i].value == value
}

/// The JVM is given the address of the database on the configured port, its account, the
/// directory of the installation and both keys, each once and as configured.
pub proof fn law_jvm_is_given_its_configuration(
    config: BackendView,
    java: RootView,
    jar: RootView,
    env: BackendEnv,
    lan_enabled: bool,
)
    ensures
        ({
            let vars = launch_of(config, java, jar, env, lan_enabled).variables;
            &&& is_given(
                vars,
                "SPRING_DATASOURCE_URL"@,
                WordView::Text(
                    "jdbc:mariadb://127.0.0.1:"@ + decimal(config.mariadb_port as nat)
                        + "/ub?connectionCollation=utf8mb4_unicode_ci"@,
                ),
            )
            &&& is_given(
                vars,
                "SPRING_DATASOURCE_USERNAME"@,
                WordView::Text(config.mariadb_user),
            )
            &&& is_given(
                vars,
                "SPRING_DATASOURCE_PASSWORD"@,
                WordView::Text(config.mariadb_password),
            )
            &&& is_given(vars, "APP_DATA"@, WordView::Path(config.app_data))
            &&& is_given(
                vars,
                "APP_DESKTOP_DB_PORT"@,
                WordView::Text(decimal(config.mariadb_port as nat)),
            )
            &&& is_given(vars, "APP_DESKTOP_DB_USER"@, WordView::Text(config.mariadb_user))
            &&& is_given(vars, "APP_DESKTOP_DB_PASSWORD"@, WordView::Text(config.mariadb_password))
            &&& is_given(vars, "APP_JWT_SECRET"@, WordView::Text(config.jwt_secret))
            &&& is_given(
                vars,
                "APP_PAYMENTS_ENCRYPTION_KEY"@,
                WordView::Text(config.payment_encryption_key),
            )
        }),
{
    lemma_variables(config, java, jar, env, lan_enabled);
    lemma_each_is_given(launch_of(config, java, jar, env, lan_enabled).variables);
}

/// The backend listens where the user asks it to; else on every address exactly where the
/// installation is shared on the local network, and on this machine alone where it is not.
pub proof fn law_backend_is_shared_only_where_marked(
    config: BackendView,
    java: RootView,
    jar: RootView,
    env: BackendEnv,
    lan_enabled: bool,
)
    ensures
        is_given(
            launch_of(config, java, jar, env, lan_enabled).variables,
            "APP_DESKTOP_BIND"@,
            WordView::Text(
                match env.bind {
                    Some(asked) => asked@,
                    None => if lan_enabled {
                        "0.0.0.0"@
                    } else {
                        "127.0.0.1"@
                    },
                },
            ),
        ),
{
    lemma_variables(config, java, jar, env, lan_enabled);
    lemma_each_is_given(launch_of(config, java, jar, env, lan_enabled).variables);
}

/// The settings of the log reporter are handed on as they are where they are set, and the
/// JVM is given nothing under their names where they are not. There are no other variables.
pub proof fn law_reporting_is_handed_on(
    config: BackendView,
    java: RootView,
    jar: RootView,
    env: BackendEnv,
    lan_enabled: bool,
)
    ensures
        ({
            let vars = launch_of(config, java, jar, env, lan_enabled).variables;
            &&& env.log_ingest_key matches Some(key) ==> is_given(
                vars,
                "APP_DESKTOP_LOG_INGEST_KEY"@,
                WordView::Text(key@),
            )
            &&& env.log_ingest_key is None ==> forall|i: int|
                0 <= i < vars.len() ==> #[trigger] vars[i].name != "APP_DESKTOP_LOG_INGEST_KEY"@
            &&& env.log_reporting_url matches Some(url) ==> is_given(
                vars,
                "APP_DESKTOP_LOG_REPORTING_URL"@,
                WordView::Text(url@),
            )
            &&& env.log_reporting_url is None ==> forall|i: int|
                0 <= i < vars.len() ==> #[trigger] vars[i].name != "APP_DESKTOP_LOG_REPORTING_URL"@
            &&& vars.len() == 10 + (if env.log_ingest_key is Some {
                1int
            } else {
                0
            }) + (if env.log_reporting_url is Some {
                1int
            } else {
                0
            })
        }),
{
    lemma_variables(config, java, jar, env, lan_enabled);
    lemma_each_is_given(launch_of(config, java, jar, env, lan_enabled).variables);
}

/// Configurations with different database ports are told different addresses.
pub proof fn law_different_ports_are_different_databases(
    a: BackendView,
    b: BackendView,
    java: RootView,
    jar: RootView,
    env: BackendEnv,
    lan_enabled: bool,
    url: Seq<char>,
)
    requires
        a.mariadb_port != b.mariadb_port,
    ensures
        !(is_given(
            launch_of(a, java, jar, env, lan_enabled).variables,
            "SPRING_DATASOURCE_URL"@,
            WordView::Text(url),
        ) && is_given(
            launch_of(b, java, jar, env, lan_enabled).variables,
            "SPRING_DATASOURCE_URL"@,
            WordView::Text(url),
        )),
{
    law_jvm_is_given_its_configuration(a, java, jar, env, lan_enabled);
    law_jvm_is_given_its_configuration(b, java, jar, env, lan_enabled);
    let va = launch_of(a, java, jar, env, lan_enabled).variables;
    let vb = launch_of(b, java, jar, env, lan_enabled).variables;
    let name = "SPRING_DATASOURCE_URL"@;
    let value = WordView::Text(url);
    if is_given(va, name, value) && is_given(vb, name, value) {
        let i = choose|i: int|
            0 <= i < va.len() && #[trigger] va[i] == (VariableView { name, value });
        let j = choose|j: int|
            0 <= j < vb.len() && #[trigger] vb[j] == (VariableView { name, value });
        assert(va[i].name == name && vb[j].name == name);
        lemma_between(
            "jdbc:mariadb://127.0.0.1:"@,
            decimal(a.mariadb_port as nat),
            decimal(b.mariadb_port as nat),
            "/ub?connectionCollation=utf8mb4_unicode_ci"@,
        );
        law_decimal_is_unique(a.mariadb_port as nat, b.mariadb_port as nat);
    }
}

/// Of variables with different names, each is given as it is.
proof fn lemma_each_is_given(vars: Seq<VariableView>)
    requires
        forall|i: int, j: int|
            0 <= i < j < vars.len() ==> #[trigger] vars[i].name != #[trigger] vars[j].name,
    ensures
        forall|i: int|
            0 <= i < vars.len() ==> is_given(vars, (#[trigger] vars[i]).name, vars[i].value),
{
    assert forall|i: int| 0 <= i < vars.len() implies is_given(
        vars,
        (#[trigger] vars[i]).name,
        vars[i].value,
    ) by {
        assert(vars[i] == (VariableView { name: vars[i].name, value: vars[i].value }));
        assert forall|j: int| 0 <= j < vars.len() && #[trigger] vars[j].name
            == vars[i].name implies vars[j].value == vars[i].value by {
            if j < i {
                assert(vars[j].name != vars[i].name);
            } else if i < j {
                assert(vars[i].name != vars[j].name);
            }
        }
    }
}

/// The names of the variables are all different.
proof fn lemma_names()
    ensures
        ({
            let names = seq![
                "APP_DESKTOP_LOG_INGEST_KEY"@,
                "APP_DESKTOP_LOG_REPORTING_URL"@,
                "SPRING_DATASOURCE_URL"@,
                "SPRING_DATASOURCE_USERNAME"@,
                "SPRING_DATASOURCE_PASSWORD"@,
                "APP_DATA"@,
                "APP_DESKTOP_BIND"@,
                "APP_DESKTOP_DB_PORT"@,
                "APP_DESKTOP_DB_USER"@,
                "APP_DESKTOP_DB_PASSWORD"@,
                "APP_JWT_SECRET"@,
                "APP_PAYMENTS_ENCRYPTION_KEY"@,
            ];
            forall|i: int, j: int|
                0 <= i < j < 12 ==> #[trigger] names[i] != #[trigger] names[j]
        }),
{
    reveal_strlit("APP_DESKTOP_LOG_INGEST_KEY");
    reveal_strlit("APP_DESKTOP_LOG_REPORTING_URL");
    reveal_strlit("SPRING_DATASOURCE_URL");
    reveal_strlit("SPRING_DATASOURCE_USERNAME");
    reveal_strlit("SPRING_DATASOURCE_PASSWORD");
    reveal_strlit("APP_DATA");
    reveal_strlit("APP_DESKTOP_BIND");
    reveal_strlit("APP_DESKTOP_DB_PORT");
    reveal_strlit("APP_DESKTOP_DB_USER");
    reveal_strlit("APP_DESKTOP_DB_PASSWORD");
    reveal_strlit("APP_JWT_SECRET");
    reveal_strlit("APP_PAYMENTS_ENCRYPTION_KEY");
    assert("APP_DESKTOP_LOG_INGEST_KEY"@.len() == 26);
    assert("APP_DESKTOP_LOG_REPORTING_URL"@.len() == 29);
    assert("SPRING_DATASOURCE_URL"@.len() == 21);
    assert("SPRING_DATASOURCE_USERNAME"@.len() == 26);
    assert("SPRING_DATASOURCE_PASSWORD"@.len() == 26);
    assert("APP_DATA"@.len() == 8);
    assert("APP_DESKTOP_BIND"@.len() == 16);
    assert("APP_DESKTOP_DB_PORT"@.len() == 19);
    assert("APP_DESKTOP_DB_USER"@.len() == 19);
    assert("APP_DESKTOP_DB_PASSWORD"@.len() == 23);
    assert("APP_JWT_SECRET"@.len() == 14);
    assert("APP_PAYMENTS_ENCRYPTION_KEY"@.len() == 27);
    assert("SPRING_DATASOURCE_USERNAME"@[18] == 'U');
    assert("SPRING_DATASOURCE_PASSWORD"@[18] == 'P');
    assert("APP_DESKTOP_LOG_INGEST_KEY"@[18] == 'G');
    assert("APP_DESKTOP_DB_PORT"@[15] == 'P');
    assert("APP_DESKTOP_DB_USER"@[15] == 'U');
    let names = seq![
        "APP_DESKTOP_LOG_INGEST_KEY"@,
        "APP_DESKTOP_LOG_REPORTING_URL"@,
        "SPRING_DATASOURCE_URL"@,
        "SPRING_DATASOURCE_USERNAME"@,
        "SPRING_DATASOURCE_PASSWORD"@,
        "APP_DATA"@,
        "APP_DESKTOP_BIND"@,
        "APP_DESKTOP_DB_PORT"@,
        "APP_DESKTOP_DB_USER"@,
        "APP_DESKTOP_DB_PASSWORD"@,
        "APP_JWT_SECRET"@,
        "APP_PAYMENTS_ENCRYPTION_KEY"@,
    ];
    assert forall|i: int, j: int| 0 <= i < j < 12 implies #[trigger] names[i] != #[trigger] names[j] by {
        let (a, b) = (names[i], names[j]);
        assert(a.len() != b.len() || a[18] != b[18] || a[15] != b[15]);
    }
}

proof fn lemma_variables(
    config: BackendView,
    java: RootView,
    jar: RootView,
    env: BackendEnv,
    lan_enabled: bool,
)
    ensures
        ({
            let vars = launch_of(config, java, jar, env, lan_enabled).variables;
            let k = if env.log_ingest_key is Some {
                1int
            } else {
                0
            };
            let n = k + if env.log_reporting_url is Some {
                1int
            } else {
                0
            };
            &&& vars.len() == n + 10
            &&& forall|i: int, j: int|
                0 <= i < j < vars.len() ==> #[trigger] vars[i].name != #[trigger] vars[j].name
            &&& env.log_ingest_key matches Some(key) ==> vars[0] == (VariableView {
                name: "APP_DESKTOP_LOG_INGEST_KEY"@,
                value: WordView::Text(key@),
            })
            &&& env.log_reporting_url matches Some(url) ==> vars[k] == (VariableView {
                name: "APP_DESKTOP_LOG_REPORTING_URL"@,
                value: WordView::Text(url@),
            })
            &&& env.log_ingest_key is None ==> forall|i: int|
                0 <= i < vars.len() ==> #[trigger] vars[i].name != "APP_DESKTOP_LOG_INGEST_KEY"@
            &&& env.log_reporting_url is None ==> forall|i: int|
                0 <= i < vars.len() ==> #[trigger] vars[i].name != "APP_DESKTOP_LOG_REPORTING_URL"@
            &&& vars[n] == (VariableView {
                name: "SPRING_DATASOURCE_URL"@,
                value: WordView::Text(
                    "jdbc:mariadb://127.0.0.1:"@ + decimal(config.mariadb_port as nat)
                        + "/ub?connectionCollation=utf8mb4_unicode_ci"@,
                ),
            })
            &&& vars[n + 1] == (VariableView {
                name: "SPRING_DATASOURCE_USERNAME"@,
                value: WordView::Text(config.mariadb_user),
            })
            &&& vars[n + 2] == (VariableView {
                name: "SPRING_DATASOURCE_PASSWORD"@,
                value: WordView::Text(config.mariadb_password),
            })
            &&& vars[n + 3] == (VariableView {
                name: "APP_DATA"@,
                value: WordView::Path(config.app_data),
            })
            &&& vars[n + 4] == (VariableView {
                name: "APP_DESKTOP_BIND"@,
                value: WordView::Text(
                    match env.bind {
                        Some(asked) => asked@,
                        None => if lan_enabled {
                            "0.0.0.0"@
                        } else {
                            "127.0.0.1"@
                        },
                    },
                ),
            })
            &&& vars[n + 5] == (VariableView {
                name: "APP_DESKTOP_DB_PORT"@,
                value: WordView::Text(decimal(config.mariadb_port as nat)),
            })
            &&& vars[n + 6] == (VariableView {
                name: "APP_DESKTOP_DB_USER"@,
                value: WordView::Text(config.mariadb_user),
            })
            &&& vars[n + 7] == (VariableView {
                name: "APP_DESKTOP_DB_PASSWORD"@,
                value: WordView::Text(config.mariadb_password),
            })
            &&& vars[n + 8] == (VariableView {
                name: "APP_JWT_SECRET"@,
                value: WordView::Text(config.jwt_secret),
            })
            &&& vars[n + 9] == (VariableView {
                name: "APP_PAYMENTS_ENCRYPTION_KEY"@,
                value: WordView::Text(config.payment_encryption_key),
            })
        }),
{
    let vars = launch_of(config, java, jar, env, lan_enabled).variables;
    let names = seq![
        "APP_DESKTOP_LOG_INGEST_KEY"@,
        "APP_DESKTOP_LOG_REPORTING_URL"@,
        "SPRING_DATASOURCE_URL"@,
        "SPRING_DATASOURCE_USERNAME"@,
        "SPRING_DATASOURCE_PASSWORD"@,
        "APP_DATA"@,
        "APP_DESKTOP_BIND"@,
        "APP_DESKTOP_DB_PORT"@,
        "APP_DESKTOP_DB_USER"@,
        "APP_DESKTOP_DB_PASSWORD"@,
        "APP_JWT_SECRET"@,
        "APP_PAYMENTS_ENCRYPTION_KEY"@,
    ];
    lemma_names();
    let k = if env.log_ingest_key is Some {
        1int
    } else {
        0
    };
    let n = k + if env.log_reporting_url is Some {
        1int
    } else {
        0
    };
    // Where the name of a variable stands among all names.
    let place = |i: int|
        if i >= n {
            i - n + 2
        } else if i == 0 && env.log_ingest_key is Some {
            0int
        } else {
            1int
        };
    assert forall|i: int| 0 <= i < vars.len() implies #[trigger] vars[i].name == names[place(i)]
        && 0 <= place(i) < 12 by {}
    assert forall|i: int, j: int| 0 <= i < j < vars.len() implies #[trigger] vars[i].name
        != #[trigger] vars[j].name by {
        assert(place(i) < place(j));
        assert(names[place(i)] != names[place(j)]);
    }
    if env.log_ingest_key is None {
        assert forall|i: int| 0 <= i < vars.len() implies #[trigger] vars[i].name != names[0] by {
            assert(0 < place(i));
            assert(names[0] != names[place(i)]);
        }
    }
    if env.log_reporting_url is None {
        assert forall|i: int| 0 <= i < vars.len() implies #[trigger] vars[i].name != names[1] by {
            if place(i) < 1 {
                assert(names[place(i)] != names[1]);
            } else {
                assert(1 < place(i));
                assert(names[1] != names[place(i)]);
            }
        }
    }
}

/// The JVM is started exactly where its jar exists, and then in the one way that the
/// configuration has; a jar that is missing is the only error.
pub proof fn law_jvm_is_started_where_its_jar_exists(
    config: BackendView,
    probe: LaunchProbe,
    env: BackendEnv,
    java: RootView,
    jar: RootView,
)
    ensures
        probe.jar_exists ==> started(config, probe, env, java, jar) == Ok::<LaunchView, ErrorView>(
            launch_of(config, java, jar, env, probe.lan_enabled),
        ),
        !probe.jar_exists ==> started(config, probe, env, java, jar) == Err::<
            LaunchView,
            ErrorView,
        >(
            ErrorView {
                kind: ErrorKind::NotFound,
                message: "desktop bootJar missing at "@ + probe.jar_shown@,
            },
        ),
{
}

/// A jar that is missing is an error that names it; a JVM that cannot be started is an
/// error of the class that the platform gave, with what it said and the program.
pub proof fn law_launch_errors_name_their_cause(kind: ErrorKind, said: Seq<char>, shown: Seq<char>)
    ensures
        jar_missing(shown) == (ErrorView {
            kind: ErrorKind::NotFound,
            message: "desktop bootJar missing at "@ + shown,
        }),
        spawn_error(kind, said, shown).kind == kind,
        spawn_error(kind, said, shown).message == "spawn java ("@ + shown + ") failed: "@ + said
            + ". Set APP_JAVA_BIN if java isn't on PATH."@,
{
}

/// The plain form of a path is the path, unless it is text with the mark `\\?\` before a
/// drive; then it can only be what follows the mark.
pub proof fn law_plain_form_keeps_the_path(path: RootView, plain: RootView)
    requires
        is_plain_form(path, plain),
    ensures
        path is Native ==> plain == path,
        path matches RootView::Text(s) ==> plain is Text && (plain->Text_0 == s || s == seq![
            '\\',
            '\\',
            '?',
            '\\',
        ] + plain->Text_0),
        path matches RootView::Text(s) ==> s.len() < 6 || s[0] != '\\' || s[1] != '\\' || s[2]
            != '?' || s[3] != '\\' || s[5] != ':' ==> plain == path,
{
    if let RootView::Text(s) = path {
        if plain != path {
            let mark = seq!['\\', '\\', '?', '\\'];
            assert(s == mark + s.skip(4));
            assert(s[0] == mark[0] && s[1] == mark[1] && s[2] == mark[2] && s[3] == mark[3]);
        }
    }
}

/// The whole of a path without parts is its start, whatever the platform says; that of a
/// path with parts is what the platform says.
pub proof fn law_whole_path_is_joined_by_the_platform(root: RootView, part: Seq<char>, joined: RootView)
    ensures
        whole_of(PathView { root, parts: seq![] }, joined) == root,
        whole_of(PathView { root, parts: seq![part] }, joined) == joined,
{
}

// ---------------------------------------------------------------------------
// Waiting for the backend
// ---------------------------------------------------------------------------

/// The backend has 300 seconds to get healthy. It is asked every 750 milliseconds, for 2
/// seconds at most. It has 45 seconds to end, is looked at every 250 milliseconds then, and
/// asked to end for 5 seconds at most. Of a log, 8192 bytes and 40 lines are shown.
pub proof fn law_backend_times_and_sizes()
    ensures
        HEALTH_TIMEOUT_SECS == 300,
        HEALTH_POLL_MILLIS == 750,
        HEALTH_REQUEST_SECS == 2,
        SHUTDOWN_TIMEOUT_SECS == 45,
        SHUTDOWN_POLL_MILLIS == 250,
        SHUTDOWN_REQUEST_SECS == 5,
        LOG_TAIL_BYTES == 8192,
        LOG_TAIL_LINES == 40,
{
}

/// Every reply but status 200, a missing one among them, is waited for once more, and
/// remembered; nothing else is waited for, or remembered.
pub proof fn law_other_replies_are_waited_for(
    last_error: Option<Seq<char>>,
    event: HealthEventView,
)
    ensures
        health_step(last_error, event).1 is Wait <==> event is NoAnswer || (event is Answer && event
            != HealthEventView::Answer(200)),
        event matches HealthEventView::NoAnswer(why) ==> health_step(last_error, event).0 == Some(
            why,
        ),
        event matches HealthEventView::Answer(status) ==> status != 200 ==> health_step(
            last_error,
            event,
        ).0 == Some("status "@ + decimal(status as nat)),
        !(health_step(last_error, event).1 is Wait) ==> health_step(last_error, event).0
            == last_error,
{
}

/// The logs are read exactly where a round finds the JVM ended, with time left and the user
/// still there.
pub proof fn law_logs_are_read_of_a_dead_jvm(last_error: Option<Seq<char>>, event: HealthEventView)
    ensures
        health_step(last_error, event).1 is ReadLogs <==> event == (HealthEventView::Round {
            time_over: false,
            aborted: false,
            exited: true,
        }),
{
}

/// A wait fails exactly at a round whose time is over, at a round that finds the user gone,
/// and after the logs were read; each time with an error of its own.
pub proof fn law_wait_fails_for_three_reasons(
    last_error: Option<Seq<char>>,
    event: HealthEventView,
    aborted: bool,
    exited: bool,
    tail: Seq<char>,
)
    ensures
        health_step(last_error, event).1 is Failed <==> event is LogTail || (event is Round && (
        event->time_over || event->aborted)),
        health_step(
            last_error,
            HealthEventView::Round { time_over: true, aborted, exited },
        ).1 == HealthStepView::Failed(
            ErrorView {
                kind: ErrorKind::TimedOut,
                message: "/actuator/health never returned 200 within "@ + decimal(300)
                    + "s (last error: "@ + (match last_error {
                    Some(e) => e,
                    None => "—"@,
                }) + ")"@,
            },
        ),
        health_step(
            last_error,
            HealthEventView::Round { time_over: false, aborted: true, exited },
        ).1 == HealthStepView::Failed(
            ErrorView { kind: ErrorKind::Interrupted, message: "startup cancelled"@ },
        ),
        health_step(last_error, HealthEventView::LogTail(tail)).1 == HealthStepView::Failed(
            ErrorView {
                kind: ErrorKind::ConnectionRefused,
                message: "the backend JVM exited before reporting healthy."@ + tail,
            },
        ),
{
}

/// Whether every event comes of the step before it: a reply of a question, the end of the
/// logs of reading them, and a round of the start or of a pause.
pub open spec fn each_event_answers(events: Seq<HealthEventView>) -> bool {
    forall|i: int|
        0 <= i < events.len() ==> match #[trigger] events[i] {
            HealthEventView::Round { time_over, aborted, exited } => i == 0 || health_step(
                None,
                events[i - 1],
            ).1 is Wait,
            HealthEventView::LogTail(_) => i > 0 && health_step(None, events[i - 1]).1 is ReadLogs,
            _ => i > 0 && health_step(None, events[i - 1]).1 is Ask,
        }
}

/// A wait that found time left, the user there and the JVM running at every round does not
/// fail, however often the backend does not answer, and whatever it answers.
pub proof fn law_a_coming_backend_is_waited_for(events: Seq<HealthEventView>, i: int)
    requires
        each_event_answers(events),
        forall|k: int|
            0 <= k < events.len() && (#[trigger] events[k]) is Round ==> events[k] == (
            HealthEventView::Round { time_over: false, aborted: false, exited: false }),
        0 <= i < events.len(),
    ensures
        !(health_step(None, events[i]).1 is Failed),
        !(health_step(None, events[i]).1 is ReadLogs),
{
    if events[i] is LogTail {
        let before = events[i - 1];
        assert(health_step(None, before).1 is ReadLogs);
        assert(before is Round);
    }
}

/// The addresses of the backend are on this machine and on its own port, so backends on
/// different ports have different addresses.
pub proof fn law_addresses_name_the_port(a: u16, b: u16, place: Seq<char>)
    ensures
        backend_address(a, place) == "http://127.0.0.1:"@ + decimal(a as nat) + place,
        backend_address(a, place) == backend_address(b, place) ==> a == b,
{
    if backend_address(a, place) == backend_address(b, place) {
        lemma_between("http://127.0.0.1:"@, decimal(a as nat), decimal(b as nat), place);
        law_decimal_is_unique(a as nat, b as nat);
    }
}

// ---------------------------------------------------------------------------
// The end of a log
// ---------------------------------------------------------------------------

/// The end of a log starts so that what follows is the whole log, or as much of it as asked.
pub proof fn law_tail_is_as_long_as_asked(len: int, max: int)
    requires
        0 <= len,
        0 <= max,
    ensures
        0 <= start_of_tail(len, max) <= len,
        len - start_of_tail(len, max) <= max,
        len - start_of_tail(len, max) == len || len - start_of_tail(len, max) == max,
{
}

/// Bytes start inside a line exactly where there is a byte before them that is no line
/// feed.
pub proof fn law_lines_start_behind_line_feeds(b: u8)
    ensures
        !starts_inside_line(None),
        !starts_inside_line(Some(10)),
        b != 10 ==> starts_inside_line(Some(b)),
{
}

/// What is shown of a log is its last lines, as many as asked or all there are, in order
/// and as they are. Of a log that was cut inside a line, the rest of that line is left out.
pub proof fn law_tail_is_the_last_whole_lines(
    rest: Seq<char>,
    ls: Seq<Seq<char>>,
    max_lines: nat,
)
    requires
        forall|i: int| 0 <= i < ls.len() ==> is_line(#[trigger] ls[i]),
        ls.len() > 0 ==> ls.last().len() > 0,
        forall|i: int| 0 <= i < rest.len() ==> #[trigger] rest[i] != '\n',
    ensures
        ({
            let shown = if ls.len() <= max_lines {
                ls
            } else {
                ls.subrange(ls.len() - max_lines, ls.len() as int)
            };
            &&& last_lines_of(join(ls, seq!['\n']), false, max_lines) == join(shown, seq!['\n'])
            &&& last_lines_of(rest + seq!['\n'] + join(ls, seq!['\n']), true, max_lines) == join(
                shown,
                seq!['\n'],
            )
            &&& last_lines_of(rest, true, max_lines) == Seq::<char>::empty()
        }),
{
    reveal_strlit("\n");
    assert("\n"@ =~= seq!['\n']);
    law_joined_lines_come_apart(ls);
    let text = join(ls, seq!['\n']);
    let whole = rest + seq!['\n'] + text;
    let n = rest.len() as int;
    lemma_find_char(whole, '\n');
    let found = find_char(whole, '\n') as int;
    assert(found == n) by {
        if found < n {
            assert(whole[found] == rest[found]);
        } else if n < found {
            assert(whole[n] != '\n');
        }
    }
    assert(whole.skip(n + 1) == text);
    lemma_find_char(rest, '\n');
    let k = find_char(rest, '\n') as int;
    assert(k == n) by {
        if k < n {
            assert(rest[k] == '\n');
        }
    }
    assert(lines(Seq::<char>::empty()) == Seq::<Seq<char>>::empty());
    assert(join(Seq::<Seq<char>>::empty(), "\n"@) == Seq::<char>::empty());
    if ls.len() > max_lines {
        assert(ls.skip(ls.len() - max_lines) == ls.subrange(
            ls.len() - max_lines,
            ls.len() as int,
        ));
    }
}

/// A log that cannot be read is not shown, and neither is one that ends with nothing. The
/// others stand under their names, that of the errors first.
pub proof fn law_logs_stand_under_their_names(err: Seq<char>, out: Seq<char>, max_lines: nat)
    ensures
        tail_of(LogEnd::Unreadable, max_lines) == Seq::<char>::empty(),
        sections_of(seq![], seq![]) == Seq::<char>::empty(),
        err.len() > 0 ==> sections_of(err, seq![]) == "\n--- tail of "@ + "backend.err.log"@
            + " ---\n"@ + err + "\n"@,
        out.len() > 0 ==> sections_of(seq![], out) == "\n--- tail of "@ + "backend.out.log"@
            + " ---\n"@ + out + "\n"@,
        sections_of(err, out) == sections_of(err, seq![]) + sections_of(seq![], out),
{
    let none = Seq::<char>::empty();
    assert(log_section("backend.err.log"@, none) == none);
    assert(log_section("backend.out.log"@, none) == none);
    assert(sections_of(none, none) == none);
    assert(sections_of(err, none) == log_section("backend.err.log"@, err));
    assert(sections_of(none, out) == log_section("backend.out.log"@, out));
}

// ---------------------------------------------------------------------------
// Stopping the backend
// ---------------------------------------------------------------------------

/// When each step to stop the JVM is come to. A signal is sent exactly where the backend did
/// not accept to end by itself; force is used exactly where the process still runs when the
/// time is over; and it is over where the process has ended, cannot be seen any more, or was
/// ended by force.
pub proof fn law_stopping_goes_from_asking_to_force(step: StopStep, event: StopEvent)
    ensures
        step != StopStep::Signal ==> (stop_step(step, event) == StopStep::Signal <==> step
            == StopStep::Ask && (event is NoAnswer || (event is Answer && event
            != StopEvent::Answer(200)))),
        step != StopStep::Kill ==> (stop_step(step, event) == StopStep::Kill <==> step
            == StopStep::Look && event == (StopEvent::Running { time_over: true })),
        step != StopStep::Wait ==> (stop_step(step, event) == StopStep::Wait <==> step
            == StopStep::Look && event == (StopEvent::Running { time_over: false })),
        step != StopStep::Look ==> (stop_step(step, event) == StopStep::Look <==> (step
            == StopStep::Ask && event == StopEvent::Answer(200)) || (event == StopEvent::Done && (
        step == StopStep::Signal || step == StopStep::Wait))),
        step != StopStep::Finished ==> (stop_step(step, event) == StopStep::Finished <==> (step
            == StopStep::Look && (event is Exited || event is Unknown)) || (step == StopStep::Kill
            && event == StopEvent::Done)),
        step != StopStep::Ask ==> stop_step(step, event) != StopStep::Ask,
        stop_step(StopStep::Finished, event) == StopStep::Finished,
{
}

} // verus!
