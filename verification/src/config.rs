//! The settings that the service runs with.

use vstd::prelude::*;

verus! {

/// The values of the environment variables that the settings come from,
/// each as it was found or not found.
#[derive(Debug, PartialEq, Eq)]
pub struct Environment {
    pub env: Option<String>,
    pub database_url: Option<String>,
    pub redis_url: Option<String>,
    pub port: Option<String>,
    pub music_api_url: Option<String>,
    pub music_api_token: Option<String>,
    pub smtp_from: Option<String>,
    pub smtp_host: Option<String>,
    pub smtp_port: Option<String>,
    pub smtp_login: Option<String>,
    pub smtp_password: Option<String>,
    pub sign_up_secret: Option<String>,
    pub restore_secret: Option<String>,
    pub access_secret: Option<String>,
    pub refresh_secret: Option<String>,
    pub songs_dir_path: Option<String>,
}

/// Why the settings could not be read.
#[derive(Debug, Clone, Copy, PartialEq, Eq)]
pub enum ConfigError {
    /// The named variable is not set.
    Missing(&'static str),
    /// The named variable does not hold a port number.
    InvalidPort(&'static str),
}

/// Whether the service runs for development or for production.
#[derive(Clone, Copy, Debug, PartialEq, Eq, Structural)]
pub enum AppEnvironment {
    Development,
    Production,
}

/// Where the database is.
#[derive(Debug, PartialEq, Eq)]
pub struct DatabaseConfig {
    pub url: String,
}

/// Where the cache is.
#[derive(Debug, PartialEq, Eq)]
pub struct RedisConfig {
    pub url: String,
}

/// The secrets that tokens are signed with, one for each kind of token.
#[derive(Debug, PartialEq, Eq)]
pub struct SecretConfig {
    pub sign_up_secret: String,
    pub restore_secret: String,
    pub access_secret: String,
    pub refresh_secret: String,
}

/// The mail server and the account on it.
#[derive(Debug, PartialEq, Eq)]
pub struct SMTPConfig {
    pub from: String,
    pub host: String,
    pub port: u16,
    pub login: String,
    pub password: String,
}

/// Where the audio files are kept.
#[derive(Debug, PartialEq, Eq)]
pub struct SongsConfig {
    pub songs_dir_path: String,
}

/// All settings.
#[derive(Debug, PartialEq, Eq)]
pub struct AppConfig {
    pub env: AppEnvironment,
    pub db_config: DatabaseConfig,
    pub redis_config: RedisConfig,
    pub app_port: u16,
    pub music_api_url: String,
    pub music_api_token: String,
    pub smtp_config: SMTPConfig,
    pub secret_config: SecretConfig,
    pub songs_config: SongsConfig,
}

/// The port that the service listens on when none is set.
pub const DEFAULT_PORT: u16 = 8080;

/// One of the ten decimal digits.
pub open spec fn is_digit(c: char) -> bool {
    '0' <= c <= '9'
}

/// The number that a text of decimal digits stands for.
pub open spec fn digits_value(digits: Seq<char>) -> nat
    decreases digits.len(),
{
    if digits.len() == 0 {
        0
    } else {
        (10 * digits_value(digits.drop_last()) + (digits.last() as u32 - '0' as u32)) as nat
    }
}

/// Whether a text holds decimal digits only.
pub open spec fn all_digits(text: Seq<char>) -> bool {
    forall|i: int| 0 <= i < text.len() ==> is_digit(#[trigger] text[i])
}

/// A text without the plus sign in front of it, if it has one.
pub open spec fn unsigned_part(text: Seq<char>) -> Seq<char> {
    if text.len() > 0 && text[0] == '+' {
        text.skip(1)
    } else {
        text
    }
}

/// The port number that a text holds: decimal digits, at least one, with
/// or without a plus sign in front, that stand for a number up to 65535.
pub open spec fn port_in(text: Seq<char>) -> Option<u16> {
    let digits = unsigned_part(text);
    if digits.len() > 0 && all_digits(digits) && digits_value(digits) <= u16::MAX {
        Some(digits_value(digits) as u16)
    } else {
        None
    }
}

/// The number that a text of digits stands for is no smaller than the
/// number that any of its beginnings stands for.
proof fn lemma_digits_value_grows(digits: Seq<char>, k: int)
    requires
        0 <= k <= digits.len(),
        all_digits(digits),
    ensures
        digits_value(digits.take(k)) <= digits_value(digits),
    decreases digits.len() - k,
{
    if k == digits.len() {
        assert(digits.take(k) =~= digits);
    } else {
        lemma_digits_value_grows(digits, k + 1);
        assert(digits.take(k + 1).drop_last() =~= digits.take(k));
        assert(is_digit(digits[k]));
        assert(digits.take(k + 1).last() == digits[k]);
    }
}

/// The port number that a setting holds.
pub fn parse_port(text: &str) -> (port: Option<u16>)
    ensures
        port == port_in(text@),
{
    let len = text.unicode_len();
    if len == 0 {
        return None;
    }
    let start: usize = if text.get_char(0) == '+' {
        1
    } else {
        0
    };
    let ghost digits = text@.skip(start as int);
    proof {
        assert(text@.skip(0) =~= text@);
    }
    if start == len {
        return None;
    }
    let mut value: u32 = 0;
    let mut i: usize = start;
    proof {
        assert(digits.take(0) =~= Seq::<char>::empty());
    }
    while i < len
        invariant
            start <= i <= len,
            start <= 1,
            len == text@.len(),
            digits == text@.skip(start as int),
            digits == unsigned_part(text@),
            forall|k: int| 0 <= k < i - start ==> is_digit(#[trigger] digits[k]),
            value == digits_value(digits.take(i - start)),
            value <= u16::MAX,
        decreases len - i,
    {
        let c = text.get_char(i);
        proof {
            assert(digits[i - start] == c);
            assert(digits.take(i - start + 1).drop_last() =~= digits.take(i - start));
            assert(digits.take(i - start + 1).last() == c);
        }
        if c < '0' || c > '9' {
            proof {
                assert(!is_digit(digits[i - start]));
            }
            return None;
        }
        value = value * 10 + (c as u32 - '0' as u32);
        if value > 65535 {
            proof {
                if all_digits(digits) {
                    lemma_digits_value_grows(digits, i - start + 1);
                }
            }
            return None;
        }
        i = i + 1;
    }
    proof {
        assert(digits.take(len - start) =~= digits);
    }
    Some(value as u16)
}

/// The complaint about a variable that must be set, if it is not.
pub fn missing(value: &Option<String>, name: &'static str) -> (problem: Option<ConfigError>)
    ensures
        problem == if value is None {
            Some(ConfigError::Missing(name))
        } else {
            None
        },
{
    if value.is_none() {
        Some(ConfigError::Missing(name))
    } else {
        None
    }
}

impl ConfigError {
    /// The complaint about the variable.
    pub fn message(&self) -> (message: String)
        ensures
            message@ == match *self {
                ConfigError::Missing(name) => name@ + " must be set"@,
                ConfigError::InvalidPort(name) => name@ + " must be a valid u16"@,
            },
    {
        match self {
            ConfigError::Missing(name) => {
                let mut message = (*name).to_owned();
                message.append(" must be set");
                message
            },
            ConfigError::InvalidPort(name) => {
                let mut message = (*name).to_owned();
                message.append(" must be a valid u16");
                message
            },
        }
    }
}

/// What is wrong with the mail settings, if anything: the first of the
/// variables `SMTP_FROM`, `SMTP_HOST`, `SMTP_PORT`, `SMTP_LOGIN` and
/// `SMTP_PASSWORD`, in this order, that is not set, or `SMTP_PORT` where it
/// holds no port number.
pub open spec fn smtp_problem(
    from: Option<String>,
    host: Option<String>,
    port: Option<String>,
    login: Option<String>,
    password: Option<String>,
) -> Option<ConfigError> {
    if from is None {
        Some(ConfigError::Missing("SMTP_FROM"))
    } else if host is None {
        Some(ConfigError::Missing("SMTP_HOST"))
    } else if port is None {
        Some(ConfigError::Missing("SMTP_PORT"))
    } else if port_in(port->0@) is None {
        Some(ConfigError::InvalidPort("SMTP_PORT"))
    } else if login is None {
        Some(ConfigError::Missing("SMTP_LOGIN"))
    } else if password is None {
        Some(ConfigError::Missing("SMTP_PASSWORD"))
    } else {
        None
    }
}

/// What is wrong with the secrets, if anything: the first of the variables
/// `SIGN_UP_SECRET`, `RESTORE_SECRET`, `ACCESS_SECRET` and
/// `REFRESH_SECRET`, in this order, that is not set.
pub open spec fn secret_problem(
    sign_up: Option<String>,
    restore: Option<String>,
    access: Option<String>,
    refresh: Option<String>,
) -> Option<ConfigError> {
    if sign_up is None {
        Some(ConfigError::Missing("SIGN_UP_SECRET"))
    } else if restore is None {
        Some(ConfigError::Missing("RESTORE_SECRET"))
    } else if access is None {
        Some(ConfigError::Missing("ACCESS_SECRET"))
    } else if refresh is None {
        Some(ConfigError::Missing("REFRESH_SECRET"))
    } else {
        None
    }
}

impl SMTPConfig {
    /// What is wrong with the mail settings, if anything. To be asked
    /// before [`SMTPConfig::new`].
    pub fn problem(
        from: &Option<String>,
        host: &Option<String>,
        port: &Option<String>,
        login: &Option<String>,
        password: &Option<String>,
    ) -> (problem: Option<ConfigError>)
        ensures
            problem == smtp_problem(*from, *host, *port, *login, *password),
    {
        if from.is_none() {
            return Some(ConfigError::Missing("SMTP_FROM"));
        }
        if host.is_none() {
            return Some(ConfigError::Missing("SMTP_HOST"));
        }
        match port {
            None => {
                return Some(ConfigError::Missing("SMTP_PORT"));
            },
            Some(text) => {
                if parse_port(text.as_str()).is_none() {
                    return Some(ConfigError::InvalidPort("SMTP_PORT"));
                }
            },
        }
        if login.is_none() {
            return Some(ConfigError::Missing("SMTP_LOGIN"));
        }
        if password.is_none() {
            return Some(ConfigError::Missing("SMTP_PASSWORD"));
        }
        None
    }

    /// The mail settings, from the variables `SMTP_FROM`, `SMTP_HOST`,
    /// `SMTP_PORT`, `SMTP_LOGIN` and `SMTP_PASSWORD`. All of them must be
    /// set, and the port must be a port number.
    pub fn new(
        from: Option<String>,
        host: Option<String>,
        port: Option<String>,
        login: Option<String>,
        password: Option<String>,
    ) -> (config: SMTPConfig)
        requires
            smtp_problem(from, host, port, login, password) is None,
        ensures
            config.from == from->0,
            config.host == host->0,
            Some(config.port) == port_in(port->0@),
            config.login == login->0,
            config.password == password->0,
    {
        let port_text = port.unwrap();
        let number = parse_port(port_text.as_str()).unwrap();
        SMTPConfig {
            from: from.unwrap(),
            host: host.unwrap(),
            port: number,
            login: login.unwrap(),
            password: password.unwrap(),
        }
    }
}

impl SecretConfig {
    /// What is wrong with the secrets, if anything. To be asked before
    /// [`SecretConfig::new`].
    pub fn problem(
        sign_up: &Option<String>,
        restore: &Option<String>,
        access: &Option<String>,
        refresh: &Option<String>,
    ) -> (problem: Option<ConfigError>)
        ensures
            problem == secret_problem(*sign_up, *restore, *access, *refresh),
    {
        if sign_up.is_none() {
            return Some(ConfigError::Missing("SIGN_UP_SECRET"));
        }
        if restore.is_none() {
            return Some(ConfigError::Missing("RESTORE_SECRET"));
        }
        if access.is_none() {
            return Some(ConfigError::Missing("ACCESS_SECRET"));
        }
        if refresh.is_none() {
            return Some(ConfigError::Missing("REFRESH_SECRET"));
        }
        None
    }

    /// The secrets, from the variables `SIGN_UP_SECRET`, `RESTORE_SECRET`,
    /// `ACCESS_SECRET` and `REFRESH_SECRET`, all of which must be set.
    pub fn new(
        sign_up: Option<String>,
        restore: Option<String>,
        access: Option<String>,
        refresh: Option<String>,
    ) -> (config: SecretConfig)
        requires
            secret_problem(sign_up, restore, access, refresh) is None,
        ensures
            config.sign_up_secret == sign_up->0,
            config.restore_secret == restore->0,
            config.access_secret == access->0,
            config.refresh_secret == refresh->0,
    {
        SecretConfig {
            sign_up_secret: sign_up.unwrap(),
            restore_secret: restore.unwrap(),
            access_secret: access.unwrap(),
            refresh_secret: refresh.unwrap(),
        }
    }
}

/// The port that the service listens on: what the variable `PORT` holds,
/// [`DEFAULT_PORT`] if it is not set.
pub open spec fn app_port_of(port: Option<String>) -> Option<u16> {
    match port {
        Some(text) => port_in(text@),
        None => Some(DEFAULT_PORT),
    }
}

/// What is wrong with the variable `PORT`, if anything: it is set and
/// holds no port number.
pub fn app_port_problem(port: &Option<String>) -> (problem: Option<ConfigError>)
    ensures
        problem == if app_port_of(*port) is None {
            Some(ConfigError::InvalidPort("APP_PORT"))
        } else {
            None
        },
{
    match port {
        Some(text) => {
            if parse_port(text.as_str()).is_none() {
                Some(ConfigError::InvalidPort("APP_PORT"))
            } else {
                None
            }
        },
        None => None,
    }
}

/// The port that the service listens on. The variable `PORT`, if it is
/// set, must hold a port number.
pub fn app_port(port: &Option<String>) -> (number: u16)
    requires
        app_port_of(*port) is Some,
    ensures
        Some(number) == app_port_of(*port),
{
    match port {
        Some(text) => parse_port(text.as_str()).unwrap(),
        None => DEFAULT_PORT,
    }
}

/// What is wrong with the variables, if anything: the first, in the order
/// in which the settings are read, that is not set though it must be, or
/// that holds no port number though it is to hold one. `ENV` and `PORT`
/// need not be set.
pub open spec fn first_problem(env: Environment) -> Option<ConfigError> {
    if env.database_url is None {
        Some(ConfigError::Missing("DATABASE_URL"))
    } else if env.redis_url is None {
        Some(ConfigError::Missing("REDIS_URL"))
    } else if app_port_of(env.port) is None {
        Some(ConfigError::InvalidPort("APP_PORT"))
    } else if env.music_api_url is None {
        Some(ConfigError::Missing("MUSIC_API_URL"))
    } else if env.music_api_token is None {
        Some(ConfigError::Missing("MUSIC_API_TOKEN"))
    } else if smtp_problem(
        env.smtp_from,
        env.smtp_host,
        env.smtp_port,
        env.smtp_login,
        env.smtp_password,
    ) is Some {
        smtp_problem(env.smtp_from, env.smtp_host, env.smtp_port, env.smtp_login, env.smtp_password)
    } else if secret_problem(
        env.sign_up_secret,
        env.restore_secret,
        env.access_secret,
        env.refresh_secret,
    ) is Some {
        secret_problem(
            env.sign_up_secret,
            env.restore_secret,
            env.access_secret,
            env.refresh_secret,
        )
    } else if env.songs_dir_path is None {
        Some(ConfigError::Missing("SONGS_DIR_PATH"))
    } else {
        None
    }
}

/// Whether `config` holds what the variables hold.
pub open spec fn holds(config: AppConfig, env: Environment) -> bool {
    &&& config.env == AppEnvironment::named(
        match env.env {
            Some(name) => Some(name@),
            None => None,
        },
    )
    &&& config.db_config.url == env.database_url->0
    &&& config.redis_config.url == env.redis_url->0
    &&& Some(config.app_port) == app_port_of(env.port)
    &&& config.music_api_url == env.music_api_url->0
    &&& config.music_api_token == env.music_api_token->0
    &&& config.smtp_config.from == env.smtp_from->0
    &&& config.smtp_config.host == env.smtp_host->0
    &&& Some(config.smtp_config.port) == port_in(env.smtp_port->0@)
    &&& config.smtp_config.login == env.smtp_login->0
    &&& config.smtp_config.password == env.smtp_password->0
    &&& config.secret_config.sign_up_secret == env.sign_up_secret->0
    &&& config.secret_config.restore_secret == env.restore_secret->0
    &&& config.secret_config.access_secret == env.access_secret->0
    &&& config.secret_config.refresh_secret == env.refresh_secret->0
    &&& config.songs_config.songs_dir_path == env.songs_dir_path->0
}

impl AppConfig {
    /// What is wrong with the variables, if anything. To be asked before
    /// [`AppConfig::new`].
    pub fn problem(env: &Environment) -> (problem: Option<ConfigError>)
        ensures
            problem == first_problem(*env),
    {
        if env.database_url.is_none() {
            return Some(ConfigError::Missing("DATABASE_URL"));
        }
        if env.redis_url.is_none() {
            return Some(ConfigError::Missing("REDIS_URL"));
        }
        let port = app_port_problem(&env.port);
        if port.is_some() {
            return port;
        }
        if env.music_api_url.is_none() {
            return Some(ConfigError::Missing("MUSIC_API_URL"));
        }
        if env.music_api_token.is_none() {
            return Some(ConfigError::Missing("MUSIC_API_TOKEN"));
        }
        let smtp = SMTPConfig::problem(
            &env.smtp_from,
            &env.smtp_host,
            &env.smtp_port,
            &env.smtp_login,
            &env.smtp_password,
        );
        if smtp.is_some() {
            return smtp;
        }
        let secrets = SecretConfig::problem(
            &env.sign_up_secret,
            &env.restore_secret,
            &env.access_secret,
            &env.refresh_secret,
        );
        if secrets.is_some() {
            return secrets;
        }
        missing(&env.songs_dir_path, "SONGS_DIR_PATH")
    }

    /// The settings that the variables hold. All variables but `ENV` and
    /// `PORT` must be set, and the ports must be port numbers.
    pub fn new(env: Environment) -> (config: AppConfig)
        requires
            first_problem(env) is None,
        ensures
            holds(config, env),
    {
        let environment = AppEnvironment::from_setting(
            match &env.env {
                Some(name) => Some(name.as_str()),
                None => None,
            },
        );
        let port = app_port(&env.port);
        AppConfig {
            env: environment,
            db_config: DatabaseConfig { url: env.database_url.unwrap() },
            redis_config: RedisConfig { url: env.redis_url.unwrap() },
            app_port: port,
            music_api_url: env.music_api_url.unwrap(),
            music_api_token: env.music_api_token.unwrap(),
            smtp_config: SMTPConfig::new(
                env.smtp_from,
                env.smtp_host,
                env.smtp_port,
                env.smtp_login,
                env.smtp_password,
            ),
            secret_config: SecretConfig::new(
                env.sign_up_secret,
                env.restore_secret,
                env.access_secret,
                env.refresh_secret,
            ),
            songs_config: SongsConfig { songs_dir_path: env.songs_dir_path.unwrap() },
        }
    }
}

impl AppEnvironment {
    /// The environment that a setting names: production if the setting is
    /// exactly `production`, development for anything else and for none.
    pub open spec fn named(setting: Option<Seq<char>>) -> AppEnvironment {
        if setting == Some("production"@) {
            AppEnvironment::Production
        } else {
            AppEnvironment::Development
        }
    }

    /// The environment that a setting names.
    pub fn from_setting(setting: Option<&str>) -> (env: AppEnvironment)
        ensures
            env == AppEnvironment::named(
                match setting {
                    Some(name) => Some(name@),
                    None => None,
                },
            ),
    {
        match setting {
            Some(name) => {
                if name.to_owned() == "production".to_owned() {
                    AppEnvironment::Production
                } else {
                    AppEnvironment::Development
                }
            },
            None => AppEnvironment::Development,
        }
    }
}

} // verus!
