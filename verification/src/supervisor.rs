//! What the shell knows before it starts anything: where an installation lives, and how
//! its database and its backend are set up.

use vstd::prelude::*;

use crate::backend::{
    backend_address, is_plain_form, jar_missing, launch_of, launch_result, start, started,
    whole_of, BackendEnv, Launch, LaunchProbe,
};
use crate::error::{ErrorKind, ErrorView, ShellError};
use crate::number::{decimal, parse_number, push_decimal, read_number, NumberError};
use crate::outside::{debug_quoted, quote};
use crate::path::{path_option, text_path, DesktopPath, PathView, Platform, RootView};
use crate::text::{chars_of, str_eq};

verus! {

/// The port of the backend, unless another is asked for.
pub const DEFAULT_BACKEND_PORT: u16 = 5050;

/// The port of the database, unless another is asked for.
pub const DEFAULT_MARIADB_PORT: u16 = 33306;

// ---------------------------------------------------------------------------
// The directory of an installation
// ---------------------------------------------------------------------------

/// The name of the directory of an installation below the data directory of the user.
pub open spec fn app_dir_name(platform: Platform) -> Seq<char> {
    match platform {
        Platform::Windows | Platform::MacOs => "Palmart"@,
        Platform::Unix => "palmart"@,
    }
}

/// The directory of an installation below the data directory of the user.
pub fn app_data_in(platform: Platform, data_dir: &DesktopPath) -> (p: DesktopPath)
    ensures
        p@ == data_dir@.join(app_dir_name(platform)),
{
    match platform {
        Platform::Windows | Platform::MacOs => data_dir.join("Palmart"),
        Platform::Unix => data_dir.join("palmart"),
    }
}

/// The directory that earlier builds used below the data directory of the user.
pub fn legacy_app_data_in(data_dir: &DesktopPath) -> (p: DesktopPath)
    ensures
        p@ == data_dir@.join("Kiosk"@),
{
    data_dir.join("Kiosk")
}

/// The directory of an installation below the home directory.
pub fn app_data_in_home(home: &DesktopPath) -> (p: DesktopPath)
    ensures
        p@ == home@.join(".palmart"@),
{
    home.join(".palmart")
}

/// The directory that earlier builds used below the home directory.
pub fn legacy_app_data_in_home(home: &DesktopPath) -> (p: DesktopPath)
    ensures
        p@ == home@.join(".kiosk"@),
{
    home.join(".kiosk")
}

/// A directory that may hold the directory of an installation, and what was found there.
pub struct AppDataBase {
    pub dir: DesktopPath,
    pub exists: bool,
    /// Whether the directory that earlier builds used exists.
    pub legacy_exists: bool,
}

/// The directory of an installation: the one that is asked for; else the one below the
/// data directory of the user; else the one below the home directory. The name that
/// earlier builds used stays where only that exists.
pub open spec fn app_data(
    platform: Platform,
    asked: Option<String>,
    data_dir: Option<AppDataBase>,
    home: Option<AppDataBase>,
) -> Result<PathView, ErrorView> {
    match (asked, data_dir, home) {
        (Some(p), _, _) => Ok(text_path(p@)),
        (None, Some(base), _) => if !base.exists && base.legacy_exists {
            Ok(base.dir@.join("Kiosk"@))
        } else {
            Ok(base.dir@.join(app_dir_name(platform)))
        },
        (None, None, Some(base)) => if !base.exists && base.legacy_exists {
            Ok(base.dir@.join(".kiosk"@))
        } else {
            Ok(base.dir@.join(".palmart"@))
        },
        (None, None, None) => Err(
            ErrorView {
                kind: ErrorKind::NotFound,
                message: "no app-data dir candidate available"@,
            },
        ),
    }
}

/// The directory of an installation.
pub fn resolve_app_data(
    platform: Platform,
    asked: Option<String>,
    data_dir: Option<AppDataBase>,
    home: Option<AppDataBase>,
) -> (r: Result<DesktopPath, ShellError>)
    ensures
        match r {
            Ok(p) => app_data(platform, asked, data_dir, home) == Ok::<PathView, ErrorView>(p@),
            Err(e) => app_data(platform, asked, data_dir, home) == Err::<PathView, ErrorView>(e@),
        },
{
    if let Some(p) = asked {
        return Ok(DesktopPath::text(p.as_str()));
    }
    if let Some(base) = data_dir {
        if base.exists {
            return Ok(app_data_in(platform, &base.dir));
        }
        if base.legacy_exists {
            return Ok(legacy_app_data_in(&base.dir));
        }
        return Ok(app_data_in(platform, &base.dir));
    }
    if let Some(base) = home {
        if base.exists {
            return Ok(app_data_in_home(&base.dir));
        }
        if base.legacy_exists {
            return Ok(legacy_app_data_in_home(&base.dir));
        }
        return Ok(app_data_in_home(&base.dir));
    }
    Err(ShellError::new(ErrorKind::NotFound, "no app-data dir candidate available"))
}

// ---------------------------------------------------------------------------
// Ports and switches
// ---------------------------------------------------------------------------

/// What is wrong with the text of a number.
pub open spec fn number_error_text(e: NumberError) -> Seq<char> {
    match e {
        NumberError::Empty => "cannot parse integer from empty string"@,
        NumberError::InvalidDigit => "invalid digit found in string"@,
        NumberError::TooLarge => "number too large to fit in target type"@,
    }
}

/// The error of a variable that should hold a port; `quoted` is its value in quotes.
pub open spec fn port_error_view(name: Seq<char>, quoted: Seq<char>, e: NumberError) -> ErrorView {
    ErrorView {
        kind: ErrorKind::InvalidInput,
        message: name + "="@ + quoted + " is not a valid u16: "@ + number_error_text(e),
    }
}

/// The port that a variable asks for.
pub open spec fn port_of(name: Seq<char>, value: Option<Seq<char>>, default: u16) -> Result<
    u16,
    ErrorView,
> {
    match value {
        None => Ok(default),
        Some(v) => match read_number(v, u16::MAX as nat) {
            Ok(n) => Ok(n as u16),
            Err(e) => Err(port_error_view(name, debug_quoted(v), e)),
        },
    }
}

/// A text that may be missing, as a value.
pub open spec fn text_option(s: Option<String>) -> Option<Seq<char>> {
    match s {
        Some(t) => Some(t@),
        None => None,
    }
}

/// The error of a variable that should hold a port; `quoted` is its value in quotes.
pub fn port_error(name: &str, quoted: &str, e: NumberError) -> (error: ShellError)
    ensures
        error@ == port_error_view(name@, quoted@, e),
{
    let mut message: String = name.to_owned();
    message.append("=");
    message.append(quoted);
    message.append(" is not a valid u16: ");
    message.append(
        match e {
            NumberError::Empty => "cannot parse integer from empty string",
            NumberError::InvalidDigit => "invalid digit found in string",
            NumberError::TooLarge => "number too large to fit in target type",
        },
    );
    ShellError { kind: ErrorKind::InvalidInput, message }
}

/// The port that the variable `name` asks for, by its value; `default` where it is not
/// set.
pub fn parse_env_port(name: &str, value: Option<String>, default: u16) -> (r: Result<
    u16,
    ShellError,
>)
    ensures
        match r {
            Ok(port) => port_of(name@, text_option(value), default) == Ok::<u16, ErrorView>(port),
            Err(e) => port_of(name@, text_option(value), default) == Err::<u16, ErrorView>(e@),
        },
{
    match value {
        None => Ok(default),
        Some(v) => {
            let chars = chars_of(v.as_str());
            match parse_number(chars.as_slice(), u16::MAX as u64) {
                Ok(n) => Ok(n as u16),
                Err(e) => {
                    let quoted = quote(v.as_str());
                    Err(port_error(name, quoted.as_str(), e))
                },
            }
        },
    }
}

/// Whether a switch is on.
pub open spec fn is_on(value: Option<Seq<char>>) -> bool {
    value is Some && (value->0 == "1"@ || value->0 == "true"@ || value->0 == "TRUE"@)
}

/// Whether a variable turns a switch on.
pub fn switch_on(value: &Option<String>) -> (on: bool)
    ensures
        on == is_on(text_option(*value)),
{
    match value {
        Some(v) => str_eq(v.as_str(), "1") || str_eq(v.as_str(), "true") || str_eq(
            v.as_str(),
            "TRUE",
        ),
        None => false,
    }
}

/// The value of a variable, or `default` where it is not set.
fn value_or(value: Option<String>, default: &str) -> (s: String)
    ensures
        s@ == (match value {
            Some(v) => v@,
            None => default@,
        }),
{
    match value {
        Some(v) => v,
        None => default.to_owned(),
    }
}

// ---------------------------------------------------------------------------
// The database
// ---------------------------------------------------------------------------

/// How the database is set up.
pub struct MariadbConfig {
    pub bin_dir: DesktopPath,
    /// The shared libraries of the server, for the dynamic loader of Unix.
    pub lib_dir: Option<DesktopPath>,
    pub datadir: DesktopPath,
    /// The socket of the administrator, on Unix.
    pub socket: DesktopPath,
    pub pid_file: DesktopPath,
    pub log_file: DesktopPath,
    pub port: u16,
    pub user: String,
    pub password: String,
    /// Whether somebody else runs the server: it is then neither set up nor stopped.
    pub external: bool,
}

/// How the database is set up, as a value.
pub struct MariadbView {
    pub bin_dir: PathView,
    pub lib_dir: Option<PathView>,
    pub datadir: PathView,
    pub socket: PathView,
    pub pid_file: PathView,
    pub log_file: PathView,
    pub port: u16,
    pub user: Seq<char>,
    pub password: Seq<char>,
    pub external: bool,
}

impl View for MariadbConfig {
    type V = MariadbView;

    open spec fn view(&self) -> MariadbView {
        MariadbView {
            bin_dir: self.bin_dir@,
            lib_dir: path_option(self.lib_dir),
            datadir: self.datadir@,
            socket: self.socket@,
            pid_file: self.pid_file@,
            log_file: self.log_file@,
            port: self.port,
            user: self.user@,
            password: self.password@,
            external: self.external,
        }
    }
}

/// The programs of the database, and what was found of them.
pub struct MariadbPrograms {
    pub bin_dir: DesktopPath,
    pub lib_dir: Option<DesktopPath>,
    /// Whether the server exists in `bin_dir`.
    pub daemon_exists: bool,
    /// `bin_dir`, as it is shown to the user.
    pub shown: String,
}

/// What the environment says of the database.
pub struct MariadbEnv {
    /// `APP_DESKTOP_DB_PORT`.
    pub port: Option<String>,
    /// `APP_DESKTOP_SKIP_MARIADB`.
    pub skip: Option<String>,
    /// `APP_DESKTOP_DB_USER`.
    pub user: Option<String>,
}

/// How the database is set up, but for the password.
pub struct MariadbSettings {
    pub bin_dir: DesktopPath,
    pub lib_dir: Option<DesktopPath>,
    pub port: u16,
    pub user: String,
    pub external: bool,
}

/// How the database is set up, but for the password, as a value.
pub struct MariadbSettingsView {
    pub bin_dir: PathView,
    pub lib_dir: Option<PathView>,
    pub port: u16,
    pub user: Seq<char>,
    pub external: bool,
}

impl View for MariadbSettings {
    type V = MariadbSettingsView;

    open spec fn view(&self) -> MariadbSettingsView {
        MariadbSettingsView {
            bin_dir: self.bin_dir@,
            lib_dir: path_option(self.lib_dir),
            port: self.port,
            user: self.user@,
            external: self.external,
        }
    }
}

pub open spec fn daemon_missing(shown: Seq<char>) -> ErrorView {
    ErrorView {
        kind: ErrorKind::NotFound,
        message: "mariadbd not found under "@ + shown
            + ". Run desktop/scripts/prepare-tauri-resources.sh, install `brew install mariadb@10.11`, or set APP_MARIADB_BIN_DIR."@,
    }
}

/// How the database is set up, but for the password. The server must exist, and the
/// port that is asked for must be one.
pub open spec fn mariadb_settings(programs: MariadbPrograms, env: MariadbEnv) -> Result<
    MariadbSettingsView,
    ErrorView,
> {
    if !programs.daemon_exists {
        Err(daemon_missing(programs.shown@))
    } else {
        match port_of("APP_DESKTOP_DB_PORT"@, text_option(env.port), DEFAULT_MARIADB_PORT) {
            Err(e) => Err(e),
            Ok(port) => Ok(
                MariadbSettingsView {
                    bin_dir: programs.bin_dir@,
                    lib_dir: path_option(programs.lib_dir),
                    port,
                    user: match env.user {
                        Some(u) => u@,
                        None => "ub_local"@,
                    },
                    external: is_on(text_option(env.skip)),
                },
            ),
        }
    }
}

impl MariadbSettings {
    /// How the database is set up, but for the password.
    pub fn resolve(programs: MariadbPrograms, env: MariadbEnv) -> (r: Result<
        MariadbSettings,
        ShellError,
    >)
        ensures
            match r {
                Ok(s) => mariadb_settings(programs, env) == Ok::<MariadbSettingsView, ErrorView>(
                    s@,
                ),
                Err(e) => mariadb_settings(programs, env) == Err::<MariadbSettingsView, ErrorView>(
                    e@,
                ),
            },
    {
        if !programs.daemon_exists {
            let mut message: String = "mariadbd not found under ".to_owned();
            message.append(programs.shown.as_str());
            message.append(
                ". Run desktop/scripts/prepare-tauri-resources.sh, install `brew install mariadb@10.11`, or set APP_MARIADB_BIN_DIR.",
            );
            return Err(ShellError { kind: ErrorKind::NotFound, message });
        }
        let external = switch_on(&env.skip);
        let port = match parse_env_port("APP_DESKTOP_DB_PORT", env.port, DEFAULT_MARIADB_PORT) {
            Ok(p) => p,
            Err(e) => {
                return Err(e);
            },
        };
        Ok(
            MariadbSettings {
                bin_dir: programs.bin_dir,
                lib_dir: programs.lib_dir,
                port,
                user: value_or(env.user, "ub_local"),
                external,
            },
        )
    }
}

/// How the database of an installation is set up.
pub open spec fn mariadb_config_of(
    app_data: PathView,
    settings: MariadbSettingsView,
    password: Seq<char>,
) -> MariadbView {
    MariadbView {
        bin_dir: settings.bin_dir,
        lib_dir: settings.lib_dir,
        datadir: app_data.join("db"@),
        socket: app_data.join("mariadb.sock"@),
        pid_file: app_data.join("mariadb.pid"@),
        log_file: app_data.join("mariadb.log"@),
        port: settings.port,
        user: settings.user,
        password,
        external: settings.external,
    }
}

impl MariadbConfig {
    /// How the database of an installation is set up.
    pub fn resolve(app_data: &DesktopPath, settings: MariadbSettings, password: String) -> (c:
        MariadbConfig)
        ensures
            c@ == mariadb_config_of(app_data@, settings@, password@),
    {
        MariadbConfig {
            bin_dir: settings.bin_dir,
            lib_dir: settings.lib_dir,
            datadir: app_data.join("db"),
            socket: app_data.join("mariadb.sock"),
            pid_file: app_data.join("mariadb.pid"),
            log_file: app_data.join("mariadb.log"),
            port: settings.port,
            user: settings.user,
            password,
            external: settings.external,
        }
    }
}

impl Clone for MariadbConfig {
    fn clone(&self) -> (copy: MariadbConfig)
        ensures
            copy@ == self@,
    {
        MariadbConfig {
            bin_dir: self.bin_dir.clone(),
            lib_dir: match &self.lib_dir {
                Some(p) => Some(p.clone()),
                None => None,
            },
            datadir: self.datadir.clone(),
            socket: self.socket.clone(),
            pid_file: self.pid_file.clone(),
            log_file: self.log_file.clone(),
            port: self.port,
            user: self.user.clone(),
            password: self.password.clone(),
            external: self.external,
        }
    }
}

// ---------------------------------------------------------------------------
// The backend
// ---------------------------------------------------------------------------

/// How the backend is set up.
pub struct BackendConfig {
    pub jar_path: DesktopPath,
    pub java_bin: DesktopPath,
    pub port: u16,
    pub profile: String,
    pub app_data: DesktopPath,
    pub mariadb_port: u16,
    pub mariadb_user: String,
    pub mariadb_password: String,
    pub jwt_secret: String,
    pub payment_encryption_key: String,
}

/// How the backend is set up, as a value.
pub struct BackendView {
    pub jar_path: PathView,
    pub java_bin: PathView,
    pub port: u16,
    pub profile: Seq<char>,
    pub app_data: PathView,
    pub mariadb_port: u16,
    pub mariadb_user: Seq<char>,
    pub mariadb_password: Seq<char>,
    pub jwt_secret: Seq<char>,
    pub payment_encryption_key: Seq<char>,
}

impl View for BackendConfig {
    type V = BackendView;

    open spec fn view(&self) -> BackendView {
        BackendView {
            jar_path: self.jar_path@,
            java_bin: self.java_bin@,
            port: self.port,
            profile: self.profile@,
            app_data: self.app_data@,
            mariadb_port: self.mariadb_port,
            mariadb_user: self.mariadb_user@,
            mariadb_password: self.mariadb_password@,
            jwt_secret: self.jwt_secret@,
            payment_encryption_key: self.payment_encryption_key@,
        }
    }
}

/// The port and the profile of the backend.
pub struct BackendSettings {
    pub port: u16,
    pub profile: String,
}

/// The secrets of the backend.
pub struct BackendSecrets {
    pub jwt_secret: String,
    pub payment_encryption_key: String,
}

/// The port and the profile of the backend, by the values of two variables.
pub open spec fn backend_settings(port: Option<Seq<char>>, profile: Option<Seq<char>>) -> Result<
    (u16, Seq<char>),
    ErrorView,
> {
    match port_of("APP_DESKTOP_BACKEND_PORT"@, port, DEFAULT_BACKEND_PORT) {
        Ok(p) => Ok(
            (
                p,
                match profile {
                    Some(name) => name,
                    None => "desktop"@,
                },
            ),
        ),
        Err(e) => Err(e),
    }
}

/// How the backend of an installation is set up.
pub open spec fn backend_config_of(
    app_data: PathView,
    mariadb: MariadbView,
    settings: BackendSettings,
    java_bin: PathView,
    jar_path: PathView,
    secrets: BackendSecrets,
) -> BackendView {
    BackendView {
        jar_path,
        java_bin,
        port: settings.port,
        profile: settings.profile@,
        app_data,
        mariadb_port: mariadb.port,
        mariadb_user: mariadb.user,
        mariadb_password: mariadb.password,
        jwt_secret: secrets.jwt_secret@,
        payment_encryption_key: secrets.payment_encryption_key@,
    }
}

impl BackendSettings {
    /// The port and the profile of the backend, by the values of
    /// `APP_DESKTOP_BACKEND_PORT` and `APP_DESKTOP_SPRING_PROFILE`.
    pub fn resolve(port: Option<String>, profile: Option<String>) -> (r: Result<
        BackendSettings,
        ShellError,
    >)
        ensures
            backend_settings(text_option(port), text_option(profile)) == (match r {
                Ok(s) => Ok((s.port, s.profile@)),
                Err(e) => Err(e@),
            }),
            match r {
                Ok(s) => {
                    &&& port_of(
                        "APP_DESKTOP_BACKEND_PORT"@,
                        text_option(port),
                        DEFAULT_BACKEND_PORT,
                    ) == Ok::<u16, ErrorView>(s.port)
                    &&& s.profile@ == (match profile {
                        Some(p) => p@,
                        None => "desktop"@,
                    })
                },
                Err(e) => port_of(
                    "APP_DESKTOP_BACKEND_PORT"@,
                    text_option(port),
                    DEFAULT_BACKEND_PORT,
                ) == Err::<u16, ErrorView>(e@),
            },
    {
        let port = match parse_env_port("APP_DESKTOP_BACKEND_PORT", port, DEFAULT_BACKEND_PORT) {
            Ok(p) => p,
            Err(e) => {
                return Err(e);
            },
        };
        Ok(BackendSettings { port, profile: value_or(profile, "desktop") })
    }
}

impl BackendConfig {
    /// How the backend of an installation is set up: it lives in the directory of the
    /// installation, and talks to its database.
    pub fn resolve(
        app_data: &DesktopPath,
        mariadb: &MariadbConfig,
        settings: BackendSettings,
        java_bin: DesktopPath,
        jar_path: DesktopPath,
        secrets: BackendSecrets,
    ) -> (c: BackendConfig)
        ensures
            c@ == backend_config_of(
                app_data@,
                mariadb@,
                settings,
                java_bin@,
                jar_path@,
                secrets,
            ),
            c@ == (BackendView {
                jar_path: jar_path@,
                java_bin: java_bin@,
                port: settings.port,
                profile: settings.profile@,
                app_data: app_data@,
                mariadb_port: mariadb@.port,
                mariadb_user: mariadb@.user,
                mariadb_password: mariadb@.password,
                jwt_secret: secrets.jwt_secret@,
                payment_encryption_key: secrets.payment_encryption_key@,
            }),
    {
        BackendConfig {
            jar_path,
            java_bin,
            port: settings.port,
            profile: settings.profile,
            app_data: app_data.clone(),
            mariadb_port: mariadb.port,
            mariadb_user: mariadb.user.clone(),
            mariadb_password: mariadb.password.clone(),
            jwt_secret: secrets.jwt_secret,
            payment_encryption_key: secrets.payment_encryption_key,
        }
    }
}

impl Clone for BackendConfig {
    fn clone(&self) -> (copy: BackendConfig)
        ensures
            copy@ == self@,
    {
        BackendConfig {
            jar_path: self.jar_path.clone(),
            java_bin: self.java_bin.clone(),
            port: self.port,
            profile: self.profile.clone(),
            app_data: self.app_data.clone(),
            mariadb_port: self.mariadb_port,
            mariadb_user: self.mariadb_user.clone(),
            mariadb_password: self.mariadb_password.clone(),
            jwt_secret: self.jwt_secret.clone(),
            payment_encryption_key: self.payment_encryption_key.clone(),
        }
    }
}

// ---------------------------------------------------------------------------
// The supervisor
// ---------------------------------------------------------------------------

/// Everything that is known of an installation before it is started.
pub struct Supervisor {
    app_data: DesktopPath,
    mariadb: MariadbConfig,
    backend: BackendConfig,
}

/// Everything that is known of an installation, as a value.
pub struct SupervisorView {
    pub app_data: PathView,
    pub mariadb: MariadbView,
    pub backend: BackendView,
}

impl View for Supervisor {
    type V = SupervisorView;

    closed spec fn view(&self) -> SupervisorView {
        SupervisorView {
            app_data: self.app_data@,
            mariadb: self.mariadb@,
            backend: self.backend@,
        }
    }
}

impl SupervisorView {
    /// Whether the database and the backend belong together: they share the directory of
    /// the installation, and the backend uses the port and the account of the database.
    pub open spec fn consistent(self) -> bool {
        &&& self.backend.app_data == self.app_data
        &&& self.mariadb.datadir == self.app_data.join("db"@)
        &&& self.mariadb.socket == self.app_data.join("mariadb.sock"@)
        &&& self.mariadb.pid_file == self.app_data.join("mariadb.pid"@)
        &&& self.mariadb.log_file == self.app_data.join("mariadb.log"@)
        &&& self.backend.mariadb_port == self.mariadb.port
        &&& self.backend.mariadb_user == self.mariadb.user
        &&& self.backend.mariadb_password == self.mariadb.password
    }
}

/// What an installation is, given what was found of it.
pub open spec fn supervised(
    app_data: PathView,
    mariadb: MariadbSettingsView,
    password: Seq<char>,
    backend: BackendSettings,
    java_bin: PathView,
    jar_path: PathView,
    secrets: BackendSecrets,
) -> SupervisorView {
    let database = mariadb_config_of(app_data, mariadb, password);
    SupervisorView {
        app_data,
        mariadb: database,
        backend: backend_config_of(app_data, database, backend, java_bin, jar_path, secrets),
    }
}

impl Supervisor {
    #[verifier::type_invariant]
    closed spec fn well_formed(&self) -> bool {
        self@.consistent()
    }

    /// Puts together what was found of an installation. Nothing is started yet.
    pub fn discover(
        app_data: DesktopPath,
        mariadb: MariadbSettings,
        password: String,
        backend: BackendSettings,
        java_bin: DesktopPath,
        jar_path: DesktopPath,
        secrets: BackendSecrets,
    ) -> (s: Supervisor)
        ensures
            s@.consistent(),
            s@ == supervised(
                app_data@,
                mariadb@,
                password@,
                backend,
                java_bin@,
                jar_path@,
                secrets,
            ),
            s@.backend == backend_config_of(
                app_data@,
                s@.mariadb,
                backend,
                java_bin@,
                jar_path@,
                secrets,
            ),
            s@.app_data == app_data@,
            s@.mariadb == mariadb_config_of(app_data@, mariadb@, password@),
            s@.backend.jar_path == jar_path@,
            s@.backend.java_bin == java_bin@,
            s@.backend.port == backend.port,
            s@.backend.profile == backend.profile@,
            s@.backend.jwt_secret == secrets.jwt_secret@,
            s@.backend.payment_encryption_key == secrets.payment_encryption_key@,
    {
        let mariadb = MariadbConfig::resolve(&app_data, mariadb, password);
        let backend = BackendConfig::resolve(
            &app_data,
            &mariadb,
            backend,
            java_bin,
            jar_path,
            secrets,
        );
        Supervisor { app_data, mariadb, backend }
    }

    /// The directory of the installation.
    pub fn app_data(&self) -> (p: &DesktopPath)
        ensures
            p@ == self@.app_data,
    {
        &self.app_data
    }

    /// The address of the application.
    pub fn backend_url(&self) -> (url: String)
        ensures
            url@ == backend_address(self@.backend.port, "/"@),
            url@ == "http://127.0.0.1:"@ + decimal(self@.backend.port as nat) + "/"@,
    {
        let mut url: String = "http://127.0.0.1:".to_owned();
        push_decimal(&mut url, self.backend.port as u128);
        url.append("/");
        url
    }

    /// The port of the backend.
    pub fn backend_port(&self) -> (port: u16)
        ensures
            port == self@.backend.port,
    {
        self.backend.port
    }

    /// How the database is set up.
    pub fn mariadb_config(&self) -> (c: &MariadbConfig)
        ensures
            c@ == self@.mariadb,
            c@.datadir == self@.app_data.join("db"@),
    {
        proof {
            use_type_invariant(self);
        }
        &self.mariadb
    }

    /// How the backend is set up. It is told the port and the account of the database.
    pub fn backend_config(&self) -> (c: &BackendConfig)
        ensures
            c@ == self@.backend,
            c@.app_data == self@.app_data,
            c@.mariadb_port == self@.mariadb.port,
            c@.mariadb_user == self@.mariadb.user,
            c@.mariadb_password == self@.mariadb.password,
    {
        proof {
            use_type_invariant(self);
        }
        &self.backend
    }

    /// How the JVM of the installation is started, or why it cannot be.
    pub fn start_backend(&self, probe: LaunchProbe, env: BackendEnv) -> (r: Result<
        Launch,
        ShellError,
    >)
        ensures
            exists|java: RootView, jar: RootView|
                {
                    &&& #[trigger] is_plain_form(
                        whole_of(self@.backend.java_bin, probe.java@),
                        java,
                    )
                    &&& #[trigger] is_plain_form(
                        whole_of(self@.backend.jar_path, probe.jar@),
                        jar,
                    )
                    &&& launch_result(r) == started(self@.backend, probe, env, java, jar)
                },
            match r {
                Ok(l) => {
                    &&& probe.jar_exists
                    &&& exists|java: RootView, jar: RootView|
                        {
                            &&& #[trigger] is_plain_form(
                                whole_of(self@.backend.java_bin, probe.java@),
                                java,
                            )
                            &&& #[trigger] is_plain_form(
                                whole_of(self@.backend.jar_path, probe.jar@),
                                jar,
                            )
                            &&& l@ == launch_of(self@.backend, java, jar, env, probe.lan_enabled)
                        }
                },
                Err(e) => !probe.jar_exists && e@ == jar_missing(probe.jar_shown@),
            },
            self@.consistent(),
    {
        proof {
            use_type_invariant(self);
        }
        start(&self.backend, probe, env)
    }
}

} // verus!
