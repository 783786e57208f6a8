//! The backend: how its JVM is started, when it counts as healthy, what its logs end
//! with, and how it is stopped.

use vstd::prelude::*;
use vstd::utf8::{decode_utf8, valid_utf8};

use crate::error::{ErrorKind, ErrorView, ShellError};
use crate::number::{decimal, decimal_text, push_decimal};
use crate::outside::{dunce_simplified, is_verbatim_disk, text_from_utf8_lossy, utf8_lossy};
use crate::path::{DesktopPath, PathRoot, PathView, RootView};
use crate::supervisor::{BackendConfig, BackendView, SupervisorView};
use crate::text::{
    chars_of, find_char, join, join_from, lines, position, split_lines, texts,
};

verus! {

// ---------------------------------------------------------------------------
// The command
// ---------------------------------------------------------------------------

/// An argument or the value of a variable: text, or a path.
#[derive(Debug)]
pub enum Word {
    Text(String),
    Path(DesktopPath),
}

/// An argument or the value of a variable, as a value.
pub enum WordView {
    Text(Seq<char>),
    Path(PathView),
}

impl View for Word {
    type V = WordView;

    open spec fn view(&self) -> WordView {
        match *self {
            Word::Text(s) => WordView::Text(s@),
            Word::Path(p) => WordView::Path(p@),
        }
    }
}

/// A variable of the environment.
#[derive(Debug)]
pub struct Variable {
    pub name: String,
    pub value: Word,
}

/// A variable of the environment, as a value.
pub struct VariableView {
    pub name: Seq<char>,
    pub value: WordView,
}

impl View for Variable {
    type V = VariableView;

    open spec fn view(&self) -> VariableView {
        VariableView { name: self.name@, value: self.value@ }
    }
}

/// How the JVM is started. The variables are added to those of the shell, and what the
/// JVM writes is appended to the two logs.
#[derive(Debug)]
pub struct Launch {
    pub program: DesktopPath,
    pub arguments: Vec<Word>,
    pub variables: Vec<Variable>,
    pub stdout: DesktopPath,
    pub stderr: DesktopPath,
}

/// How the JVM is started, as a value.
pub struct LaunchView {
    pub program: PathView,
    pub arguments: Seq<WordView>,
    pub variables: Seq<VariableView>,
    pub stdout: PathView,
    pub stderr: PathView,
}

pub open spec fn words_of(list: Seq<Word>) -> Seq<WordView> {
    Seq::new(list.len(), |i: int| list[i]@)
}

pub open spec fn variables_of(list: Seq<Variable>) -> Seq<VariableView> {
    Seq::new(list.len(), |i: int| list[i]@)
}

impl View for Launch {
    type V = LaunchView;

    open spec fn view(&self) -> LaunchView {
        LaunchView {
            program: self.program@,
            arguments: words_of(self.arguments@),
            variables: variables_of(self.variables@),
            stdout: self.stdout@,
            stderr: self.stderr@,
        }
    }
}

/// What the environment of the shell says of the backend.
pub struct BackendEnv {
    /// `APP_DESKTOP_BIND`.
    pub bind: Option<String>,
    /// `APP_DESKTOP_LOG_INGEST_KEY`.
    pub log_ingest_key: Option<String>,
    /// `APP_DESKTOP_LOG_REPORTING_URL`.
    pub log_reporting_url: Option<String>,
}

/// The arguments of the JVM.
pub open spec fn jvm_arguments(jar: RootView, profile: Seq<char>, port: u16) -> Seq<WordView> {
    seq![
        WordView::Text("-Xmx1024m"@),
        WordView::Text("-jar"@),
        WordView::Path(PathView { root: jar, parts: seq![] }),
        WordView::Text("--spring.profiles.active="@ + profile),
        WordView::Text("--server.port="@ + decimal(port as nat)),
    ]
}

/// The address that the backend listens on: the one that is asked for; else every
/// address where the installation is shared on the local network, and this machine
/// alone where it is not.
pub open spec fn bind_address(asked: Option<String>, lan_enabled: bool) -> Seq<char> {
    match asked {
        Some(a) => a@,
        None => if lan_enabled {
            "0.0.0.0"@
        } else {
            "127.0.0.1"@
        },
    }
}

/// The address of the database, with the collation that its tables have.
pub open spec fn datasource_url(port: u16) -> Seq<char> {
    "jdbc:mariadb://127.0.0.1:"@ + decimal(port as nat)
        + "/ub?connectionCollation=utf8mb4_unicode_ci"@
}

/// A variable that is handed on where it is set.
pub open spec fn handed_on(name: Seq<char>, value: Option<String>) -> Seq<VariableView> {
    match value {
        Some(v) => seq![VariableView { name, value: WordView::Text(v@) }],
        None => seq![],
    }
}

/// A variable that holds text.
pub open spec fn text_variable(name: Seq<char>, value: Seq<char>) -> VariableView {
    VariableView { name, value: WordView::Text(value) }
}

/// The variables of the JVM. The account of the database and the keys are here, and not
/// among the arguments, which every user of the machine can see.
pub open spec fn jvm_variables(
    config: BackendView,
    env: BackendEnv,
    lan_enabled: bool,
) -> Seq<VariableView> {
    handed_on("APP_DESKTOP_LOG_INGEST_KEY"@, env.log_ingest_key) + handed_on(
        "APP_DESKTOP_LOG_REPORTING_URL"@,
        env.log_reporting_url,
    ) + seq![
        text_variable("SPRING_DATASOURCE_URL"@, datasource_url(config.mariadb_port)),
        text_variable("SPRING_DATASOURCE_USERNAME"@, config.mariadb_user),
        text_variable("SPRING_DATASOURCE_PASSWORD"@, config.mariadb_password),
        VariableView { name: "APP_DATA"@, value: WordView::Path(config.app_data) },
        text_variable("APP_DESKTOP_BIND"@, bind_address(env.bind, lan_enabled)),
        text_variable("APP_DESKTOP_DB_PORT"@, decimal(config.mariadb_port as nat)),
        text_variable("APP_DESKTOP_DB_USER"@, config.mariadb_user),
        text_variable("APP_DESKTOP_DB_PASSWORD"@, config.mariadb_password),
        text_variable("APP_JWT_SECRET"@, config.jwt_secret),
        text_variable("APP_PAYMENTS_ENCRYPTION_KEY"@, config.payment_encryption_key),
    ]
}

/// How the JVM is started, given the plain forms of the paths of its program and of its
/// jar.
pub open spec fn launch_of(
    config: BackendView,
    java: RootView,
    jar: RootView,
    env: BackendEnv,
    lan_enabled: bool,
) -> LaunchView {
    LaunchView {
        program: PathView { root: java, parts: seq![] },
        arguments: jvm_arguments(jar, config.profile, config.port),
        variables: jvm_variables(config, env, lan_enabled),
        stdout: config.app_data.join("backend.out.log"@),
        stderr: config.app_data.join("backend.err.log"@),
    }
}

/// The error of a jar that is missing.
pub open spec fn jar_missing(shown: Seq<char>) -> ErrorView {
    ErrorView { kind: ErrorKind::NotFound, message: "desktop bootJar missing at "@ + shown }
}

/// Whether `plain` is `path` or, where `path` has the extended-length mark of Windows with
/// a drive behind it, `path` without the mark. Any other path, and one that is not valid
/// Unicode, stays as it is.
pub open spec fn is_plain_form(path: RootView, plain: RootView) -> bool {
    ||| plain == path
    ||| {
        &&& path matches RootView::Text(s)
        &&& is_verbatim_disk(s)
        &&& plain == RootView::Text(s.skip(4))
    }
}

/// The whole of a path. One without parts is its start; how the platform writes one with
/// parts is `joined`.
pub open spec fn whole_of(path: PathView, joined: RootView) -> RootView {
    if path.parts.len() == 0 {
        path.root
    } else {
        joined
    }
}

/// The path of the marker by which the backend shares an installation on the local
/// network.
pub fn lan_marker(app_data: &DesktopPath) -> (p: DesktopPath)
    ensures
        p@ == app_data@.join("conf"@).join("lan-enabled"@),
{
    app_data.join("conf").join("lan-enabled")
}

/// The path of the log of what the JVM writes to its standard output.
pub fn out_log(app_data: &DesktopPath) -> (p: DesktopPath)
    ensures
        p@ == app_data@.join("backend.out.log"@),
{
    app_data.join("backend.out.log")
}

/// The path of the log of what the JVM writes to its standard error.
pub fn err_log(app_data: &DesktopPath) -> (p: DesktopPath)
    ensures
        p@ == app_data@.join("backend.err.log"@),
{
    app_data.join("backend.err.log")
}

/// A path in the form that the JVM can open: its loader of nested jars knows no
/// extended-length paths.
pub fn plain_form(path: &PathRoot) -> (plain: PathRoot)
    ensures
        is_plain_form(path@, plain@),
{
    match path {
        PathRoot::Text(s) => PathRoot::Text(dunce_simplified(s.as_str())),
        PathRoot::Native(_) => path.clone(),
    }
}

/// The whole of a path, where `joined` is how the platform writes it.
pub fn whole_root(path: &DesktopPath, joined: &PathRoot) -> (root: PathRoot)
    ensures
        root@ == whole_of(path@, joined@),
{
    if path.parts.len() == 0 {
        path.root.clone()
    } else {
        joined.clone()
    }
}

fn whole_path(root: PathRoot) -> (p: DesktopPath)
    ensures
        p@ == (PathView { root: root@, parts: seq![] }),
{
    let p = DesktopPath { root, parts: Vec::new() };
    assert(texts(p.parts@) == Seq::<Seq<char>>::empty());
    p
}

fn add_variable(list: &mut Vec<Variable>, name: &str, value: Word)
    ensures
        variables_of(final(list)@) == variables_of(old(list)@).push(
            VariableView { name: name@, value: value@ },
        ),
{
    list.push(Variable { name: name.to_owned(), value });
    assert(variables_of(list@) == variables_of(old(list)@).push(
        VariableView { name: name@, value: value@ },
    ));
}

fn hand_on(list: &mut Vec<Variable>, name: &str, value: Option<String>)
    ensures
        variables_of(final(list)@) == variables_of(old(list)@) + handed_on(name@, value),
{
    match value {
        Some(v) => add_variable(list, name, Word::Text(v)),
        None => {},
    }
    assert(variables_of(list@) == variables_of(old(list)@) + handed_on(name@, value));
}

fn arguments(jar: PathRoot, profile: &str, port: u16) -> (list: Vec<Word>)
    ensures
        words_of(list@) == jvm_arguments(jar@, profile@, port),
{
    let mut active: String = "--spring.profiles.active=".to_owned();
    active.append(profile);
    let mut server: String = "--server.port=".to_owned();
    push_decimal(&mut server, port as u128);
    let list: Vec<Word> = vec![
        Word::Text("-Xmx1024m".to_owned()),
        Word::Text("-jar".to_owned()),
        Word::Path(whole_path(jar)),
        Word::Text(active),
        Word::Text(server),
    ];
    assert(words_of(list@) == jvm_arguments(jar@, profile@, port));
    list
}

fn variables(config: &BackendConfig, env: BackendEnv, lan_enabled: bool) -> (list: Vec<Variable>)
    ensures
        variables_of(list@) == jvm_variables(config@, env, lan_enabled),
{
    let mut url: String = "jdbc:mariadb://127.0.0.1:".to_owned();
    push_decimal(&mut url, config.mariadb_port as u128);
    url.append("/ub?connectionCollation=utf8mb4_unicode_ci");
    let bind = match env.bind {
        Some(a) => a,
        None => if lan_enabled {
            "0.0.0.0".to_owned()
        } else {
            "127.0.0.1".to_owned()
        },
    };
    let mut list: Vec<Variable> = Vec::new();
    hand_on(&mut list, "APP_DESKTOP_LOG_INGEST_KEY", env.log_ingest_key);
    hand_on(&mut list, "APP_DESKTOP_LOG_REPORTING_URL", env.log_reporting_url);
    add_variable(&mut list, "SPRING_DATASOURCE_URL", Word::Text(url));
    add_variable(&mut list, "SPRING_DATASOURCE_USERNAME", Word::Text(config.mariadb_user.clone()));
    add_variable(
        &mut list,
        "SPRING_DATASOURCE_PASSWORD",
        Word::Text(config.mariadb_password.clone()),
    );
    add_variable(&mut list, "APP_DATA", Word::Path(config.app_data.clone()));
    add_variable(&mut list, "APP_DESKTOP_BIND", Word::Text(bind));
    add_variable(
        &mut list,
        "APP_DESKTOP_DB_PORT",
        Word::Text(decimal_text(config.mariadb_port as u128)),
    );
    add_variable(&mut list, "APP_DESKTOP_DB_USER", Word::Text(config.mariadb_user.clone()));
    add_variable(&mut list, "APP_DESKTOP_DB_PASSWORD", Word::Text(config.mariadb_password.clone()));
    add_variable(&mut list, "APP_JWT_SECRET", Word::Text(config.jwt_secret.clone()));
    add_variable(
        &mut list,
        "APP_PAYMENTS_ENCRYPTION_KEY",
        Word::Text(config.payment_encryption_key.clone()),
    );
    assert(variables_of(list@) == jvm_variables(config@, env, lan_enabled));
    list
}

/// What was found of the program and of the jar of the backend.
pub struct LaunchProbe {
    /// The path of the program, as the platform writes it with its parts joined.
    pub java: PathRoot,
    /// The path of the jar, as the platform writes it with its parts joined.
    pub jar: PathRoot,
    /// Whether the plain form of the path of the jar exists.
    pub jar_exists: bool,
    /// The plain form of the path of the jar, as it is shown to the user.
    pub jar_shown: String,
    /// Whether the installation is shared on the local network.
    pub lan_enabled: bool,
}

/// How the JVM is started, given the plain forms of the paths of its program and of its
/// jar.
pub fn launch(
    config: &BackendConfig,
    java: PathRoot,
    jar: PathRoot,
    env: BackendEnv,
    lan_enabled: bool,
) -> (l: Launch)
    ensures
        l@ == launch_of(config@, java@, jar@, env, lan_enabled),
{
    Launch {
        program: whole_path(java),
        arguments: arguments(jar, config.profile.as_str(), config.port),
        variables: variables(config, env, lan_enabled),
        stdout: out_log(&config.app_data),
        stderr: err_log(&config.app_data),
    }
}

/// How the JVM is started, or why it cannot be, given the plain forms of the paths of its
/// program and of its jar.
pub open spec fn started(
    config: BackendView,
    probe: LaunchProbe,
    env: BackendEnv,
    java: RootView,
    jar: RootView,
) -> Result<LaunchView, ErrorView> {
    if probe.jar_exists {
        Ok(launch_of(config, java, jar, env, probe.lan_enabled))
    } else {
        Err(jar_missing(probe.jar_shown@))
    }
}

/// What came of starting the JVM, as a value.
pub open spec fn launch_result(r: Result<Launch, ShellError>) -> Result<LaunchView, ErrorView> {
    match r {
        Ok(l) => Ok(l@),
        Err(e) => Err(e@),
    }
}

/// How the JVM is started, or why it cannot be: its jar must exist.
pub fn start(config: &BackendConfig, probe: LaunchProbe, env: BackendEnv) -> (r: Result<
    Launch,
    ShellError,
>)
    ensures
        exists|java: RootView, jar: RootView|
            {
                &&& #[trigger] is_plain_form(whole_of(config@.java_bin, probe.java@), java)
                &&& #[trigger] is_plain_form(whole_of(config@.jar_path, probe.jar@), jar)
                &&& launch_result(r) == started(config@, probe, env, java, jar)
            },
        match r {
            Ok(l) => {
                &&& probe.jar_exists
                &&& exists|java: RootView, jar: RootView|
                    {
                        &&& #[trigger] is_plain_form(whole_of(config@.java_bin, probe.java@), java)
                        &&& #[trigger] is_plain_form(whole_of(config@.jar_path, probe.jar@), jar)
                        &&& l@ == launch_of(config@, java, jar, env, probe.lan_enabled)
                    }
            },
            Err(e) => !probe.jar_exists && e@ == jar_missing(probe.jar_shown@),
        },
{
    let java = plain_form(&whole_root(&config.java_bin, &probe.java));
    let jar = plain_form(&whole_root(&config.jar_path, &probe.jar));
    let ghost (java_plain, jar_plain) = (java@, jar@);
    assert(is_plain_form(whole_of(config@.java_bin, probe.java@), java_plain));
    assert(is_plain_form(whole_of(config@.jar_path, probe.jar@), jar_plain));
    if !probe.jar_exists {
        let mut message: String = "desktop bootJar missing at ".to_owned();
        message.append(probe.jar_shown.as_str());
        return Err(ShellError { kind: ErrorKind::NotFound, message });
    }
    let l = launch(config, java, jar, env, probe.lan_enabled);
    Ok(l)
}

/// The error of a JVM that could not be started.
pub open spec fn spawn_error(kind: ErrorKind, said: Seq<char>, java_shown: Seq<char>) -> ErrorView {
    ErrorView {
        kind,
        message: "spawn java ("@ + java_shown + ") failed: "@ + said
            + ". Set APP_JAVA_BIN if java isn't on PATH."@,
    }
}

/// The error of a JVM that could not be started: its class stays, and the user is told
/// where another program can be named.
pub fn spawn_failure(kind: ErrorKind, said: &str, java_shown: &str) -> (e: ShellError)
    ensures
        e@ == spawn_error(kind, said@, java_shown@),
        e@ == (ErrorView {
            kind,
            message: "spawn java ("@ + java_shown@ + ") failed: "@ + said@
                + ". Set APP_JAVA_BIN if java isn't on PATH."@,
        }),
{
    let mut message: String = "spawn java (".to_owned();
    message.append(java_shown);
    message.append(") failed: ");
    message.append(said);
    message.append(". Set APP_JAVA_BIN if java isn't on PATH.");
    ShellError { kind, message }
}

/// No secret is an argument of the JVM: the arguments are the same whatever the account
/// of the database and the keys are.
pub proof fn law_secrets_are_no_arguments(
    a: BackendView,
    b: BackendView,
    java: RootView,
    jar: RootView,
    env: BackendEnv,
    lan_enabled: bool,
)
    requires
        a.profile == b.profile,
        a.port == b.port,
    ensures
        launch_of(a, java, jar, env, lan_enabled).program == launch_of(
            b,
            java,
            jar,
            env,
            lan_enabled,
        ).program,
        launch_of(a, java, jar, env, lan_enabled).arguments == launch_of(
            b,
            java,
            jar,
            env,
            lan_enabled,
        ).arguments,
{
}

/// The backend is told where the database of its installation is, and its account.
pub proof fn law_backend_is_told_its_database(
    s: SupervisorView,
    java: RootView,
    jar: RootView,
    env: BackendEnv,
    lan_enabled: bool,
)
    requires
        s.consistent(),
    ensures
        ({
            let told = launch_of(s.backend, java, jar, env, lan_enabled).variables;
            &&& told.contains(
                text_variable("SPRING_DATASOURCE_URL"@, datasource_url(s.mariadb.port)),
            )
            &&& told.contains(text_variable("SPRING_DATASOURCE_USERNAME"@, s.mariadb.user))
            &&& told.contains(text_variable("SPRING_DATASOURCE_PASSWORD"@, s.mariadb.password))
            &&& told.contains(
                VariableView { name: "APP_DATA"@, value: WordView::Path(s.app_data) },
            )
        }),
{
    let told = launch_of(s.backend, java, jar, env, lan_enabled).variables;
    let first = handed_on("APP_DESKTOP_LOG_INGEST_KEY"@, env.log_ingest_key).len() + handed_on(
        "APP_DESKTOP_LOG_REPORTING_URL"@,
        env.log_reporting_url,
    ).len();
    assert(told[first as int] == text_variable(
        "SPRING_DATASOURCE_URL"@,
        datasource_url(s.mariadb.port),
    ));
    assert(told[first as int + 1] == text_variable(
        "SPRING_DATASOURCE_USERNAME"@,
        s.mariadb.user,
    ));
    assert(told[first as int + 2] == text_variable(
        "SPRING_DATASOURCE_PASSWORD"@,
        s.mariadb.password,
    ));
    assert(told[first as int + 3] == (VariableView {
        name: "APP_DATA"@,
        value: WordView::Path(s.app_data),
    }));
}

// ---------------------------------------------------------------------------
// Waiting for the backend
// ---------------------------------------------------------------------------

/// How long the backend may take to report that it is healthy. The first launch sets up
/// the database.
pub const HEALTH_TIMEOUT_SECS: u64 = 300;

/// The time between two questions whether the backend is healthy.
pub const HEALTH_POLL_MILLIS: u64 = 750;

/// How long one such question may take.
pub const HEALTH_REQUEST_SECS: u64 = 2;

/// What happens while the shell waits for the backend.
pub enum HealthEvent {
    /// A round begins: whether the time is over, whether the user has closed the shell,
    /// and whether the JVM has ended.
    Round { time_over: bool, aborted: bool, exited: bool },
    /// The backend answered with this status.
    Answer(u16),
    /// The backend did not answer, for this reason.
    NoAnswer(String),
    /// What the logs of the JVM end with.
    LogTail(String),
}

/// What happens while the shell waits for the backend, as a value.
pub enum HealthEventView {
    Round { time_over: bool, aborted: bool, exited: bool },
    Answer(u16),
    NoAnswer(Seq<char>),
    LogTail(Seq<char>),
}

impl View for HealthEvent {
    type V = HealthEventView;

    open spec fn view(&self) -> HealthEventView {
        match *self {
            HealthEvent::Round { time_over, aborted, exited } => HealthEventView::Round {
                time_over,
                aborted,
                exited,
            },
            HealthEvent::Answer(status) => HealthEventView::Answer(status),
            HealthEvent::NoAnswer(why) => HealthEventView::NoAnswer(why@),
            HealthEvent::LogTail(tail) => HealthEventView::LogTail(tail@),
        }
    }
}

/// What the shell does next while it waits for the backend.
#[derive(Debug)]
pub enum HealthStep {
    /// Ask the backend whether it is healthy.
    Ask,
    /// Wait for [`HEALTH_POLL_MILLIS`], and begin the next round.
    Wait,
    /// Read what the logs of the JVM end with.
    ReadLogs,
    /// The backend is healthy.
    Healthy,
    Failed(ShellError),
}

/// What the shell does next while it waits for the backend, as a value.
pub enum HealthStepView {
    Ask,
    Wait,
    ReadLogs,
    Healthy,
    Failed(ErrorView),
}

impl View for HealthStep {
    type V = HealthStepView;

    open spec fn view(&self) -> HealthStepView {
        match *self {
            HealthStep::Ask => HealthStepView::Ask,
            HealthStep::Wait => HealthStepView::Wait,
            HealthStep::ReadLogs => HealthStepView::ReadLogs,
            HealthStep::Healthy => HealthStepView::Healthy,
            HealthStep::Failed(e) => HealthStepView::Failed(e@),
        }
    }
}

/// The error of a backend that was not healthy in time.
pub open spec fn never_healthy(last_error: Option<Seq<char>>) -> ErrorView {
    ErrorView {
        kind: ErrorKind::TimedOut,
        message: "/actuator/health never returned 200 within "@ + decimal(
            HEALTH_TIMEOUT_SECS as nat,
        ) + "s (last error: "@ + (match last_error {
            Some(e) => e,
            None => "—"@,
        }) + ")"@,
    }
}

/// The error of a wait that the user has ended.
pub open spec fn startup_cancelled() -> ErrorView {
    ErrorView { kind: ErrorKind::Interrupted, message: "startup cancelled"@ }
}

/// The error of a JVM that has ended.
pub open spec fn jvm_exited(tail: Seq<char>) -> ErrorView {
    ErrorView {
        kind: ErrorKind::ConnectionRefused,
        message: "the backend JVM exited before reporting healthy."@ + tail,
    }
}

/// What is done next, and why the last question was not answered as it should be.
pub open spec fn health_step(last_error: Option<Seq<char>>, event: HealthEventView) -> (
    Option<Seq<char>>,
    HealthStepView,
) {
    match event {
        HealthEventView::Round { time_over, aborted, exited } => (
            last_error,
            if time_over {
                HealthStepView::Failed(never_healthy(last_error))
            } else if aborted {
                HealthStepView::Failed(startup_cancelled())
            } else if exited {
                HealthStepView::ReadLogs
            } else {
                HealthStepView::Ask
            },
        ),
        HealthEventView::Answer(status) => if status == 200 {
            (last_error, HealthStepView::Healthy)
        } else {
            (Some("status "@ + decimal(status as nat)), HealthStepView::Wait)
        },
        HealthEventView::NoAnswer(why) => (Some(why), HealthStepView::Wait),
        HealthEventView::LogTail(tail) => (
            last_error,
            HealthStepView::Failed(jvm_exited(tail)),
        ),
    }
}

/// The wait for the backend: it remembers why the last question was not answered as it
/// should be.
pub struct HealthWatch {
    last_error: Option<String>,
}

impl View for HealthWatch {
    type V = Option<Seq<char>>;

    closed spec fn view(&self) -> Option<Seq<char>> {
        match self.last_error {
            Some(e) => Some(e@),
            None => None,
        }
    }
}

impl HealthWatch {
    /// A wait that begins. Nothing was asked yet.
    pub fn new() -> (w: HealthWatch)
        ensures
            w@ is None,
    {
        HealthWatch { last_error: None }
    }

    /// What is done next.
    pub fn wait_healthy(&mut self, event: HealthEvent) -> (step: HealthStep)
        ensures
            (final(self)@, step@) == health_step(old(self)@, event@),
    {
        match event {
            HealthEvent::Round { time_over, aborted, exited } => {
                if time_over {
                    let mut message: String =
                        "/actuator/health never returned 200 within ".to_owned();
                    push_decimal(&mut message, HEALTH_TIMEOUT_SECS as u128);
                    message.append("s (last error: ");
                    match &self.last_error {
                        Some(e) => message.append(e.as_str()),
                        None => message.append("—"),
                    }
                    message.append(")");
                    HealthStep::Failed(ShellError { kind: ErrorKind::TimedOut, message })
                } else if aborted {
                    HealthStep::Failed(ShellError::new(ErrorKind::Interrupted, "startup cancelled"))
                } else if exited {
                    HealthStep::ReadLogs
                } else {
                    HealthStep::Ask
                }
            },
            HealthEvent::Answer(status) => {
                if status == 200 {
                    HealthStep::Healthy
                } else {
                    let mut why: String = "status ".to_owned();
                    push_decimal(&mut why, status as u128);
                    self.last_error = Some(why);
                    HealthStep::Wait
                }
            },
            HealthEvent::NoAnswer(why) => {
                self.last_error = Some(why);
                HealthStep::Wait
            },
            HealthEvent::LogTail(tail) => {
                let mut message: String =
                    "the backend JVM exited before reporting healthy.".to_owned();
                message.append(tail.as_str());
                HealthStep::Failed(ShellError { kind: ErrorKind::ConnectionRefused, message })
            },
        }
    }
}

/// An address of the backend, below its root.
pub open spec fn backend_address(port: u16, place: Seq<char>) -> Seq<char> {
    "http://127.0.0.1:"@ + decimal(port as nat) + place
}

/// The address by which the backend reports whether it is healthy.
pub fn health_url(port: u16) -> (url: String)
    ensures
        url@ == backend_address(port, "/actuator/health"@),
        url@ == "http://127.0.0.1:"@ + decimal(port as nat) + "/actuator/health"@,
{
    let mut url: String = "http://127.0.0.1:".to_owned();
    push_decimal(&mut url, port as u128);
    url.append("/actuator/health");
    url
}

/// Only an answer with status 200 makes the backend healthy.
pub proof fn law_healthy_means_200(last_error: Option<Seq<char>>, event: HealthEventView)
    ensures
        health_step(last_error, event).1 is Healthy <==> event == HealthEventView::Answer(200),
{
}

/// The backend is asked only while there is time, the user waits for it, and the JVM
/// runs.
pub proof fn law_only_a_live_backend_is_asked(
    last_error: Option<Seq<char>>,
    event: HealthEventView,
)
    ensures
        health_step(last_error, event).1 is Ask <==> event == (HealthEventView::Round {
            time_over: false,
            aborted: false,
            exited: false,
        }),
{
}

/// What the wait remembers after these events.
pub open spec fn remembered(last_error: Option<Seq<char>>, events: Seq<HealthEventView>) -> Option<
    Seq<char>,
>
    decreases events.len(),
{
    if events.len() == 0 {
        last_error
    } else {
        health_step(remembered(last_error, events.drop_last()), events.last()).0
    }
}

/// Whether an event is an answer, or says why there was none.
pub open spec fn is_reply(event: HealthEventView) -> bool {
    event is Answer || event is NoAnswer
}

/// A wait that runs out of time names the last reply, however many rounds came after it.
pub proof fn law_timeout_names_the_last_reply(
    last_error: Option<Seq<char>>,
    events: Seq<HealthEventView>,
    reply: int,
)
    requires
        0 <= reply < events.len(),
        is_reply(events[reply]),
        events[reply] != HealthEventView::Answer(200),
        forall|i: int| reply < i < events.len() ==> !is_reply(#[trigger] events[i]),
    ensures
        remembered(last_error, events) == Some(
            match events[reply] {
                HealthEventView::Answer(status) => "status "@ + decimal(status as nat),
                HealthEventView::NoAnswer(why) => why,
                _ => seq![],
            },
        ),
        health_step(
            remembered(last_error, events),
            HealthEventView::Round { time_over: true, aborted: false, exited: false },
        ).1 == HealthStepView::Failed(never_healthy(remembered(last_error, events))),
    decreases events.len(),
{
    let before = events.drop_last();
    if reply < before.len() {
        assert(before[reply] == events[reply]);
        assert(!is_reply(events.last()));
        assert forall|i: int| reply < i < before.len() implies !is_reply(
            #[trigger] before[i],
        ) by {
            assert(before[i] == events[i]);
        }
        law_timeout_names_the_last_reply(last_error, before, reply);
    }
}

/// Whether every reply comes of a question: the event before it called for one.
pub open spec fn in_turn(events: Seq<HealthEventView>) -> bool {
    forall|i: int|
        0 <= i < events.len() && is_reply(#[trigger] events[i]) ==> i > 0 && health_step(
            None,
            events[i - 1],
        ).1 is Ask
}

/// A wait ends well only right after a look that found time left, the user still there
/// and the JVM running.
pub proof fn law_good_end_follows_a_look(events: Seq<HealthEventView>)
    requires
        in_turn(events),
        events.len() > 0,
        events.last() == HealthEventView::Answer(200),
    ensures
        events.len() >= 2,
        events[events.len() - 2] == (HealthEventView::Round {
            time_over: false,
            aborted: false,
            exited: false,
        }),
{
    assert(is_reply(events[events.len() - 1]));
}

/// What was seen of the process of the backend.
#[derive(Clone, Copy, Debug, PartialEq, Eq, Structural)]
pub enum ProcessSeen {
    /// There is none: it was never put into its place.
    NeverStored,
    /// It cannot be looked at: its place, or the process, stays locked.
    Locked,
    Running,
    Exited,
    /// The platform did not say.
    Unknown,
}

/// Whether the JVM has ended: it has exited, or was never stored. What cannot be told does
/// not count.
pub fn backend_exited(seen: ProcessSeen) -> (exited: bool)
    ensures
        exited == (seen == ProcessSeen::Exited || seen == ProcessSeen::NeverStored),
{
    match seen {
        ProcessSeen::Exited | ProcessSeen::NeverStored => true,
        ProcessSeen::Locked | ProcessSeen::Running | ProcessSeen::Unknown => false,
    }
}

// ---------------------------------------------------------------------------
// The end of a log
// ---------------------------------------------------------------------------

/// How many bytes of a log are shown at most.
pub const LOG_TAIL_BYTES: u64 = 8192;

/// How many lines of a log are shown at most.
pub const LOG_TAIL_LINES: usize = 40;

/// The end of a log.
pub enum LogEnd {
    /// The log is missing, or cannot be read.
    Unreadable,
    /// The bytes that the log ends with, and the byte before them, where there is one.
    Bytes { before: Option<u8>, bytes: Vec<u8> },
}

/// Whether the bytes after `before` start inside a line.
pub open spec fn starts_inside_line(before: Option<u8>) -> bool {
    before is Some && before->0 != 10u8
}

/// The text after its first line.
pub open spec fn after_first_line(s: Seq<char>) -> Seq<char> {
    let n = find_char(s, '\n');
    if n < s.len() {
        s.skip(n as int + 1)
    } else {
        seq![]
    }
}

/// The whole lines that a text holds: the first line of one that is `cut` is the rest of
/// a longer one.
pub open spec fn whole_lines(s: Seq<char>, cut: bool) -> Seq<Seq<char>> {
    if cut {
        lines(after_first_line(s))
    } else {
        lines(s)
    }
}

/// The last `max` elements of a list.
pub open spec fn last_of(list: Seq<Seq<char>>, max: nat) -> Seq<Seq<char>> {
    if list.len() <= max {
        list
    } else {
        list.skip(list.len() - max)
    }
}

/// The last `max_lines` whole lines of a text.
pub open spec fn last_lines_of(s: Seq<char>, cut: bool, max_lines: nat) -> Seq<char> {
    join(last_of(whole_lines(s, cut), max_lines), "\n"@)
}

/// What is shown of a log.
pub open spec fn tail_of(end: LogEnd, max_lines: nat) -> Seq<char> {
    match end {
        LogEnd::Unreadable => seq![],
        LogEnd::Bytes { before, bytes } => last_lines_of(
            utf8_lossy(bytes@),
            starts_inside_line(before),
            max_lines,
        ),
    }
}

/// Whether a log that ends with valid UTF-8 is read as what it encodes.
pub open spec fn end_reads_utf8(end: LogEnd) -> bool {
    match end {
        LogEnd::Unreadable => true,
        LogEnd::Bytes { before, bytes } => valid_utf8(bytes@) ==> utf8_lossy(bytes@)
            == decode_utf8(bytes@),
    }
}

/// What is shown of a log, under its name. A log that ends with nothing is left out.
pub open spec fn log_section(name: Seq<char>, tail: Seq<char>) -> Seq<char> {
    if tail.len() == 0 {
        seq![]
    } else {
        "\n--- tail of "@ + name + " ---\n"@ + tail + "\n"@
    }
}

/// Where the last `max_bytes` bytes of a log of length `len` start.
pub open spec fn start_of_tail(len: int, max_bytes: int) -> int {
    if len > max_bytes {
        len - max_bytes
    } else {
        0
    }
}

/// Where the last `max_bytes` bytes of a log of length `len` start.
pub fn tail_start(len: u64, max_bytes: u64) -> (start: u64)
    ensures
        start == start_of_tail(len as int, max_bytes as int),
        start == (if len > max_bytes {
            len - max_bytes
        } else {
            0
        }),
{
    if len > max_bytes {
        len - max_bytes
    } else {
        0
    }
}

/// Whether the bytes after `before` start inside a line: there is a byte before them, and
/// it ends no line.
pub fn is_cut(before: Option<u8>) -> (cut: bool)
    ensures
        cut == starts_inside_line(before),
{
    match before {
        Some(b) => b != 10,
        None => false,
    }
}

/// The last `max_lines` whole lines of a text.
pub fn last_lines(text: &str, cut: bool, max_lines: usize) -> (tail: String)
    ensures
        tail@ == last_lines_of(text@, cut, max_lines as nat),
{
    let chars = chars_of(text);
    let ghost rest = if cut {
        after_first_line(text@)
    } else {
        text@
    };
    let from: usize = if cut {
        let n: usize = position(chars.as_slice(), '\n');
        if n < chars.len() {
            n + 1
        } else {
            n
        }
    } else {
        0
    };
    let part = vstd::slice::slice_subrange(chars.as_slice(), from, chars.len());
    assert(part@ == rest);
    let list = split_lines(part);
    let skip: usize = if list.len() > max_lines {
        list.len() - max_lines
    } else {
        0
    };
    assert(texts(list@).skip(skip as int) == last_of(whole_lines(text@, cut), max_lines as nat));
    join_from(&list, skip, "\n")
}

/// What is shown of a log: its last `max_lines` whole lines. Valid UTF-8 is shown as what
/// it encodes.
pub fn read_tail(end: &LogEnd, max_lines: usize) -> (tail: String)
    ensures
        tail@ == tail_of(*end, max_lines as nat),
        end_reads_utf8(*end),
{
    match end {
        LogEnd::Unreadable => {
            let tail = String::new();
            assert(tail@ == Seq::<char>::empty());
            tail
        },
        LogEnd::Bytes { before, bytes } => {
            let text = text_from_utf8_lossy(bytes.as_slice());
            last_lines(text.as_str(), is_cut(*before), max_lines)
        },
    }
}

fn add_section(sections: &mut String, name: &str, tail: &str)
    ensures
        final(sections)@ == old(sections)@ + log_section(name@, tail@),
{
    if tail.is_empty() {
        assert(sections@ == old(sections)@ + log_section(name@, tail@));
        return ;
    }
    sections.append("\n--- tail of ");
    sections.append(name);
    sections.append(" ---\n");
    sections.append(tail);
    sections.append("\n");
    assert(sections@ == old(sections)@ + log_section(name@, tail@));
}

/// What is shown of the two logs of the JVM, given what each of them ends with.
pub open spec fn sections_of(err_tail: Seq<char>, out_tail: Seq<char>) -> Seq<char> {
    log_section("backend.err.log"@, err_tail) + log_section("backend.out.log"@, out_tail)
}

/// What is shown of the two logs of the JVM, given what each of them ends with.
pub fn log_sections(err_tail: &str, out_tail: &str) -> (s: String)
    ensures
        s@ == sections_of(err_tail@, out_tail@),
        s@ == log_section("backend.err.log"@, err_tail@) + log_section(
            "backend.out.log"@,
            out_tail@,
        ),
{
    let mut sections = String::new();
    assert(sections@ == Seq::<char>::empty());
    add_section(&mut sections, "backend.err.log", err_tail);
    add_section(&mut sections, "backend.out.log", out_tail);
    assert(sections@ == log_section("backend.err.log"@, err_tail@) + log_section(
        "backend.out.log"@,
        out_tail@,
    ));
    sections
}

/// What is shown of the two logs of the JVM. Valid UTF-8 is shown as what it encodes.
pub fn backend_log_tail(err: &LogEnd, out: &LogEnd, max_lines: usize) -> (s: String)
    ensures
        s@ == sections_of(tail_of(*err, max_lines as nat), tail_of(*out, max_lines as nat)),
        s@ == log_section("backend.err.log"@, tail_of(*err, max_lines as nat)) + log_section(
            "backend.out.log"@,
            tail_of(*out, max_lines as nat),
        ),
        end_reads_utf8(*err),
        end_reads_utf8(*out),
{
    let err_tail = read_tail(err, max_lines);
    let out_tail = read_tail(out, max_lines);
    log_sections(err_tail.as_str(), out_tail.as_str())
}

// ---------------------------------------------------------------------------
// Stopping the backend
// ---------------------------------------------------------------------------

/// How long the JVM may take to end once it was told to.
pub const SHUTDOWN_TIMEOUT_SECS: u64 = 45;

/// The time between two looks at a JVM that should end.
pub const SHUTDOWN_POLL_MILLIS: u64 = 250;

/// How long the question to end may take.
pub const SHUTDOWN_REQUEST_SECS: u64 = 5;

/// What is done next to stop the JVM.
#[derive(Clone, Copy, Debug, PartialEq, Eq, Structural)]
pub enum StopStep {
    /// Ask the backend to end by itself.
    Ask,
    /// Tell the process to end, by a signal.
    Signal,
    /// Look whether the process has ended.
    Look,
    /// Wait for [`SHUTDOWN_POLL_MILLIS`], and look again.
    Wait,
    /// End the process by force, and wait until it is gone.
    Kill,
    /// Nothing is left to do.
    Finished,
}

/// What happens while the JVM is stopped.
#[derive(Clone, Copy, Debug, PartialEq, Eq, Structural)]
pub enum StopEvent {
    /// The backend answered with this status.
    Answer(u16),
    NoAnswer,
    /// What was to be done is done, well or not.
    Done,
    /// The process has ended.
    Exited,
    /// The process runs: whether the time is over.
    Running { time_over: bool },
    /// The platform did not say whether the process has ended.
    Unknown,
}

/// What is done next to stop the JVM. An event that does not belong to a step leaves the
/// step as it is.
pub open spec fn stop_step(step: StopStep, event: StopEvent) -> StopStep {
    match (step, event) {
        (StopStep::Ask, StopEvent::Answer(status)) => if status == 200 {
            StopStep::Look
        } else {
            StopStep::Signal
        },
        (StopStep::Ask, StopEvent::NoAnswer) => StopStep::Signal,
        (StopStep::Signal, StopEvent::Done) => StopStep::Look,
        (StopStep::Look, StopEvent::Exited) => StopStep::Finished,
        (StopStep::Look, StopEvent::Unknown) => StopStep::Finished,
        (StopStep::Look, StopEvent::Running { time_over }) => if time_over {
            StopStep::Kill
        } else {
            StopStep::Wait
        },
        (StopStep::Wait, StopEvent::Done) => StopStep::Look,
        (StopStep::Kill, StopEvent::Done) => StopStep::Finished,
        _ => step,
    }
}

/// What is done next to stop the JVM: it is asked to end, then told to, and ended by
/// force where the time is over.
pub fn shutdown(step: StopStep, event: StopEvent) -> (next: StopStep)
    ensures
        next == stop_step(step, event),
{
    match (step, event) {
        (StopStep::Ask, StopEvent::Answer(status)) => if request_graceful_shutdown(status) {
            StopStep::Look
        } else {
            StopStep::Signal
        },
        (StopStep::Ask, StopEvent::NoAnswer) => StopStep::Signal,
        (StopStep::Signal, StopEvent::Done) => StopStep::Look,
        (StopStep::Look, StopEvent::Exited) => StopStep::Finished,
        (StopStep::Look, StopEvent::Unknown) => StopStep::Finished,
        (StopStep::Look, StopEvent::Running { time_over }) => if time_over {
            StopStep::Kill
        } else {
            StopStep::Wait
        },
        (StopStep::Wait, StopEvent::Done) => StopStep::Look,
        (StopStep::Kill, StopEvent::Done) => StopStep::Finished,
        _ => step,
    }
}

/// Whether the backend accepted the question to end by itself.
pub fn request_graceful_shutdown(status: u16) -> (accepted: bool)
    ensures
        accepted == (status == 200),
{
    status == 200
}

/// The address by which the backend is asked to end.
pub fn shutdown_url(port: u16) -> (url: String)
    ensures
        url@ == backend_address(port, "/actuator/shutdown"@),
        url@ == "http://127.0.0.1:"@ + decimal(port as nat) + "/actuator/shutdown"@,
{
    let mut url: String = "http://127.0.0.1:".to_owned();
    push_decimal(&mut url, port as u128);
    url.append("/actuator/shutdown");
    url
}

/// The step after these events, from `step` on.
pub open spec fn stop_run(step: StopStep, events: Seq<StopEvent>) -> StopStep
    decreases events.len(),
{
    if events.len() == 0 {
        step
    } else {
        stop_step(stop_run(step, events.drop_last()), events.last())
    }
}

/// Whether a signal was called for at some point of a run.
pub open spec fn signalled(step: StopStep, events: Seq<StopEvent>) -> bool {
    exists|i: int|
        0 <= i <= events.len() && #[trigger] stop_run(step, events.take(i)) == StopStep::Signal
}

/// Whether the backend accepted, in this run, to end by itself.
pub open spec fn accepted(events: Seq<StopEvent>) -> bool {
    exists|i: int| 0 <= i < events.len() && #[trigger] events[i] == StopEvent::Answer(200)
}

/// A JVM is waited for, ended by force or given up only after it was told to end: the
/// backend accepted to, or a signal was called for.
pub proof fn law_nobody_waits_for_an_untold_jvm(events: Seq<StopEvent>)
    ensures
        stop_run(StopStep::Ask, events) == StopStep::Ask || accepted(events) || signalled(
            StopStep::Ask,
            events,
        ),
    decreases events.len(),
{
    if events.len() > 0 {
        let before = events.drop_last();
        law_nobody_waits_for_an_untold_jvm(before);
        assert(events.take(events.len() as int) == events);
        if accepted(before) {
            let i = choose|i: int| 0 <= i < before.len() && #[trigger] before[i]
                == StopEvent::Answer(200);
            assert(events[i] == StopEvent::Answer(200));
        } else if signalled(StopStep::Ask, before) {
            let i = choose|i: int|
                0 <= i <= before.len() && #[trigger] stop_run(StopStep::Ask, before.take(i))
                    == StopStep::Signal;
            assert(events.take(i) == before.take(i));
        } else if stop_run(StopStep::Ask, events) != StopStep::Ask {
            assert(events[events.len() - 1] == events.last());
            if events.last() != StopEvent::Answer(200) {
                assert(stop_run(StopStep::Ask, events.take(events.len() as int))
                    == StopStep::Signal);
            }
        }
    }
}

/// Once the time is over the JVM is looked at no more: it has ended, or it is ended by
/// force, and that is the end.
pub proof fn law_time_ends_the_wait(seen: StopEvent)
    requires
        seen is Exited || seen is Unknown || seen == (StopEvent::Running { time_over: true }),
    ensures
        stop_step(StopStep::Look, seen) == StopStep::Finished || (stop_step(StopStep::Look, seen)
            == StopStep::Kill && stop_step(StopStep::Kill, StopEvent::Done) == StopStep::Finished),
        seen == (StopEvent::Running { time_over: true }) ==> stop_step(StopStep::Look, seen)
            == StopStep::Kill,
{
}

} // verus!
