use vstd::prelude::*;

use crate::utils::text::{decimal_at_most, parse_decimal};

verus! {

/// Where the sessions of logged-in users are kept.
#[derive(Debug, Clone, PartialEq, Eq)]
pub enum SessionBackend {
    /// In Redis, reached at the given URL.
    Redis(String),
    /// In the cookies themselves.
    Cookies,
}

/// The settings of the service.
#[derive(Debug, Clone, PartialEq, Eq)]
pub struct Config {
    pub db_string: String,
    pub server_host: String,
    pub server_port: u16,
    pub session_backend: SessionBackend,
    pub secret_key: String,
    /// How long a session cookie lives, in whole seconds.
    pub cookie_ttl_secs: u64,
}

/// Why the settings could not be read.
#[derive(Debug, Clone, PartialEq, Eq)]
pub enum ConfigError {
    /// The named variable is required and was not set.
    MissingEnv(String),
    /// The named variable does not hold a value of the expected form.
    InvalidValue(String),
    /// The Redis store could not be reached.
    RedisError(String),
}

/// The raw settings as the environment gives them: `None` where a variable is
/// not set (or is not valid Unicode).
#[derive(Debug, Clone, PartialEq, Eq)]
pub struct ConfigVars {
    pub database_url: Option<String>,
    pub server_port: Option<String>,
    pub server_host: Option<String>,
    pub secret_key: Option<String>,
    pub session_backend: Option<String>,
    pub redis_url: Option<String>,
    pub cookie_ttl_secs: Option<String>,
}

/// The lowercase form of `s` as Unicode defines it (std's `str::to_lowercase`).
pub uninterp spec fn unicode_lowercase(s: Seq<char>) -> Seq<char>;

/// The lowercase form of an ASCII character: `A` to `Z` become `a` to `z`,
/// every other character stays.
pub open spec fn ascii_lower_char(c: char) -> char {
    if 'A' <= c && c <= 'Z' {
        (c as int + 32) as char
    } else {
        c
    }
}

/// The lowercase form of an ASCII text, character by character.
pub open spec fn ascii_lowercase(s: Seq<char>) -> Seq<char> {
    s.map_values(|c: char| ascii_lower_char(c))
}

/// Calls std's `str::to_lowercase`. Claims that the result is the named
/// lowercase form of the argument, and that on ASCII text this is the ASCII
/// lowercase form (Unicode maps `A` to `Z` to `a` to `z` and no other ASCII
/// character); what it does to other characters is not stated.
#[verifier::external_body]
fn to_lowercase(s: &str) -> (r: String)
    ensures
        r@ == unicode_lowercase(s@),
        vstd::utf8::is_ascii_chars(s@) ==> r@ == ascii_lowercase(s@),
{
    s.to_lowercase()
}

/// The secret key used where none is configured: "0123" sixteen times.
pub open spec fn default_secret_key_spec() -> Seq<char> {
    Seq::new(64, |i: int| if i % 4 == 0 { '0' } else if i % 4 == 1 { '1' } else if i % 4 == 2 { '2' } else { '3' })
}

/// With no `SECRET_KEY` set, the secret key is long enough (64 bytes) for the
/// cookie key that `Config::get_key` makes of it.
pub proof fn lemma_default_secret_key_makes_cookie_key()
    ensures
        vstd::utf8::encode_utf8(default_secret_key_spec()).len() >= 64,
{
    let s = default_secret_key_spec();
    assert(vstd::utf8::is_ascii_chars(s));
    vstd::utf8::is_ascii_chars_encode_utf8(s);
}

/// The secret key used where none is configured.
pub fn default_secret_key() -> (key: String)
    ensures
        key@ == default_secret_key_spec(),
{
    let lit = "0123012301230123012301230123012301230123012301230123012301230123";
    proof {
        reveal_strlit("0123012301230123012301230123012301230123012301230123012301230123");
        assert(lit@ =~= default_secret_key_spec());
    }
    String::from_str(lit)
}

/// The configured secret key, or the default one where none is set.
pub fn secret_key_or_default(value: Option<String>) -> (key: String)
    ensures
        key@ == text_or(value, default_secret_key_spec()),
{
    match value {
        Some(s) => s,
        None => default_secret_key(),
    }
}

/// The text of `value`, or `default` where it is not set.
pub open spec fn text_or(value: Option<String>, default: Seq<char>) -> Seq<char> {
    match value {
        Some(s) => s@,
        None => default,
    }
}

fn string_or(value: Option<String>, default: &str) -> (r: String)
    ensures
        r@ == text_or(value, default@),
{
    match value {
        Some(s) => s,
        None => String::from_str(default),
    }
}

/// `e` reports that the variable `var` is missing.
pub open spec fn is_missing(e: ConfigError, var: Seq<char>) -> bool {
    e matches ConfigError::MissingEnv(n) && n@ == var
}

/// `e` reports that the variable `var` holds an invalid value.
pub open spec fn is_invalid(e: ConfigError, var: Seq<char>) -> bool {
    e matches ConfigError::InvalidValue(n) && n@ == var
}

/// The lowercase form of a `SESSION_BACKEND` setting: its ASCII lowercase form
/// where it is ASCII, else its Unicode lowercase form.
pub open spec fn lowercase_setting(s: Seq<char>) -> Seq<char> {
    if vstd::utf8::is_ascii_chars(s) {
        ascii_lowercase(s)
    } else {
        unicode_lowercase(s)
    }
}

/// The outcome of choosing the session backend from its lowercased setting.
pub open spec fn backend_outcome(
    lowered: Seq<char>,
    redis_url: Option<String>,
    r: Result<SessionBackend, ConfigError>,
) -> bool {
    if lowered == "redis"@ {
        match redis_url {
            Some(u) => r matches Ok(SessionBackend::Redis(v)) && v@ == u@,
            None => r matches Err(e) && is_missing(e, "REDIS_URL"@),
        }
    } else {
        r == Ok::<SessionBackend, ConfigError>(SessionBackend::Cookies)
    }
}

impl SessionBackend {
    /// Chooses the backend from the lowercased `SESSION_BACKEND` setting:
    /// `redis` needs `REDIS_URL`; anything else means cookies.
    pub fn from_setting(lowered: &String, redis_url: Option<String>) -> (r: Result<
        SessionBackend,
        ConfigError,
    >)
        ensures
            backend_outcome(lowered@, redis_url, r),
            lowered@ != "redis"@ ==> r == Ok::<SessionBackend, ConfigError>(SessionBackend::Cookies),
            lowered@ == "redis"@ && redis_url is Some ==> r == Ok::<SessionBackend, ConfigError>(
                SessionBackend::Redis(redis_url->0),
            ),
            lowered@ == "redis"@ && redis_url is None ==> (r matches Err(ConfigError::MissingEnv(n))
                && n@ == "REDIS_URL"@),
    {
        let redis = String::from_str("redis");
        if *lowered == redis {
            match redis_url {
                Some(u) => Ok(SessionBackend::Redis(u)),
                None => Err(ConfigError::MissingEnv(String::from_str("REDIS_URL"))),
            }
        } else {
            Ok(SessionBackend::Cookies)
        }
    }
}

/// The default `SESSION_BACKEND` setting, lowercased, is not `redis`.
pub proof fn lemma_cookies_setting_is_not_redis()
    ensures
        lowercase_setting("cookies"@) != "redis"@,
{
    reveal_strlit("cookies");
    reveal_strlit("redis");
    assert(vstd::utf8::is_ascii_chars("cookies"@));
    assert(lowercase_setting("cookies"@).len() == 7);
}

/// The names of the required variables differ from one another.
proof fn lemma_variable_names_differ()
    ensures
        "DATABASE_URL"@ != "REDIS_URL"@,
        "SERVER_PORT"@ != "REDIS_URL"@,
{
    reveal_strlit("DATABASE_URL");
    reveal_strlit("SERVER_PORT");
    reveal_strlit("REDIS_URL");
    assert("DATABASE_URL"@.len() != "REDIS_URL"@.len());
    assert("SERVER_PORT"@[0] != "REDIS_URL"@[0]);
}

/// Two errors report the same problem with the same variable.
pub open spec fn same_error(e1: ConfigError, e2: ConfigError) -> bool {
    match (e1, e2) {
        (ConfigError::MissingEnv(a), ConfigError::MissingEnv(b)) => a@ == b@,
        (ConfigError::InvalidValue(a), ConfigError::InvalidValue(b)) => a@ == b@,
        (ConfigError::RedisError(a), ConfigError::RedisError(b)) => a@ == b@,
        _ => false,
    }
}

/// Two settings hold the same values.
pub open spec fn same_config(c1: Config, c2: Config) -> bool {
    &&& c1.db_string@ == c2.db_string@
    &&& c1.server_host@ == c2.server_host@
    &&& c1.server_port == c2.server_port
    &&& c1.secret_key@ == c2.secret_key@
    &&& c1.cookie_ttl_secs == c2.cookie_ttl_secs
    &&& match (c1.session_backend, c2.session_backend) {
        (SessionBackend::Cookies, SessionBackend::Cookies) => true,
        (SessionBackend::Redis(a), SessionBackend::Redis(b)) => a@ == b@,
        _ => false,
    }
}

/// Only the setting `redis` chooses Redis: any other lowercased setting gives
/// cookies, whatever `REDIS_URL` holds.
pub proof fn law_backend_other_than_redis_is_cookies(
    lowered: Seq<char>,
    redis_url: Option<String>,
    r: Result<SessionBackend, ConfigError>,
)
    requires
        backend_outcome(lowered, redis_url, r),
        lowered != "redis"@,
    ensures
        r == Ok::<SessionBackend, ConfigError>(SessionBackend::Cookies),
{
}

/// The setting `redis` chooses Redis at `REDIS_URL`, and fails without it.
pub proof fn law_backend_redis_needs_url(
    lowered: Seq<char>,
    redis_url: Option<String>,
    r: Result<SessionBackend, ConfigError>,
)
    requires
        backend_outcome(lowered, redis_url, r),
        lowered == "redis"@,
    ensures
        redis_url matches Some(u) ==> (r matches Ok(SessionBackend::Redis(v)) && v@ == u@),
        redis_url is None ==> (r matches Err(ConfigError::MissingEnv(n)) && n@ == "REDIS_URL"@),
{
}

/// With `SESSION_BACKEND` unset, the settings use cookies, whatever `REDIS_URL`
/// holds; and a missing `REDIS_URL` is never reported then.
pub proof fn law_unset_backend_is_cookies(vars: ConfigVars, r: Result<Config, ConfigError>)
    requires
        config_outcome(vars, r),
        vars.session_backend is None,
    ensures
        r is Ok ==> r->Ok_0.session_backend == SessionBackend::Cookies,
        !(r matches Err(ConfigError::MissingEnv(n)) && n@ == "REDIS_URL"@),
{
    lemma_cookies_setting_is_not_redis();
    lemma_variable_names_differ();
}

/// `REDIS_URL` matters only where the lowercased setting is `redis`: otherwise
/// the settings use cookies, and changing `REDIS_URL` changes nothing.
pub proof fn law_redis_url_ignored_unless_redis(
    vars1: ConfigVars,
    r1: Result<Config, ConfigError>,
    vars2: ConfigVars,
    r2: Result<Config, ConfigError>,
)
    requires
        config_outcome(vars1, r1),
        config_outcome(vars2, r2),
        lowercase_setting(text_or(vars1.session_backend, "cookies"@)) != "redis"@,
        vars2 == (ConfigVars { redis_url: vars2.redis_url, ..vars1 }),
    ensures
        r1 is Ok ==> r1->Ok_0.session_backend == SessionBackend::Cookies,
        r1 is Ok <==> r2 is Ok,
        r1 is Ok ==> same_config(r1->Ok_0, r2->Ok_0),
        r1 is Err ==> same_error(r1->Err_0, r2->Err_0),
{
    assert(text_or(vars1.session_backend, "cookies"@) == text_or(vars2.session_backend, "cookies"@));
}

/// What `Config::from_vars` gives for `vars`: the first problem met, in the
/// order in which the settings are read, or the settings with their defaults.
pub open spec fn config_outcome(vars: ConfigVars, r: Result<Config, ConfigError>) -> bool {
    match vars.database_url {
        None => r matches Err(e) && is_missing(e, "DATABASE_URL"@),
        Some(db) => match vars.server_port {
            None => r matches Err(e) && is_missing(e, "SERVER_PORT"@),
            Some(port_text) => match decimal_at_most(port_text@, u16::MAX as nat) {
                None => r matches Err(e) && is_invalid(e, "SERVER_PORT"@),
                Some(port) => {
                    let lowered = lowercase_setting(text_or(vars.session_backend, "cookies"@));
                    if lowered == "redis"@ && vars.redis_url is None {
                        r matches Err(e) && is_missing(e, "REDIS_URL"@)
                    } else {
                        match decimal_at_most(
                            text_or(vars.cookie_ttl_secs, "172800"@),
                            u64::MAX as nat,
                        ) {
                            None => r matches Err(e) && is_invalid(e, "COOKIE_TTL_SECS"@),
                            Some(ttl) => r matches Ok(c) && {
                                &&& c.db_string@ == db@
                                &&& c.server_port == port
                                &&& c.server_host@ == text_or(vars.server_host, "127.0.0.1"@)
                                &&& c.secret_key@ == text_or(
                                    vars.secret_key,
                                    default_secret_key_spec(),
                                )
                                &&& backend_outcome(lowered, vars.redis_url, Ok(c.session_backend))
                                &&& c.cookie_ttl_secs == ttl
                            },
                        }
                    }
                },
            },
        },
    }
}

impl Config {
    /// Builds the settings from the raw values of the environment variables
    /// `DATABASE_URL`, `SERVER_PORT`, `SERVER_HOST`, `SECRET_KEY`,
    /// `SESSION_BACKEND`, `REDIS_URL` and `COOKIE_TTL_SECS`.
    pub fn from_vars(vars: ConfigVars) -> (r: Result<Config, ConfigError>)
        ensures
            config_outcome(vars, r),
            vars.session_backend is None && r is Ok ==> r->Ok_0.session_backend
                == SessionBackend::Cookies,
            r is Ok && lowercase_setting(text_or(vars.session_backend, "cookies"@)) != "redis"@
                ==> r->Ok_0.session_backend == SessionBackend::Cookies,
            r is Ok && lowercase_setting(text_or(vars.session_backend, "cookies"@)) == "redis"@
                ==> (r->Ok_0.session_backend matches SessionBackend::Redis(u) && vars.redis_url
                matches Some(v) && u@ == v@),
            (r matches Err(ConfigError::MissingEnv(n)) && n@ == "REDIS_URL"@) ==> lowercase_setting(
                text_or(vars.session_backend, "cookies"@),
            ) == "redis"@ && vars.redis_url is None,
    {
        proof {
            lemma_cookies_setting_is_not_redis();
            lemma_variable_names_differ();
        }
        let ghost v = vars;
        let ConfigVars {
            database_url,
            server_port,
            server_host,
            secret_key,
            session_backend,
            redis_url,
            cookie_ttl_secs,
        } = vars;
        let db_string = match database_url {
            Some(s) => s,
            None => {
                return Err(ConfigError::MissingEnv(String::from_str("DATABASE_URL")));
            },
        };
        let port_text = match server_port {
            Some(s) => s,
            None => {
                return Err(ConfigError::MissingEnv(String::from_str("SERVER_PORT")));
            },
        };
        let server_port = match parse_decimal(port_text.as_str(), 65535) {
            Some(p) => p as u16,
            None => {
                return Err(ConfigError::InvalidValue(String::from_str("SERVER_PORT")));
            },
        };
        let server_host = string_or(server_host, "127.0.0.1");
        let secret_key = secret_key_or_default(secret_key);
        let backend_text = string_or(session_backend, "cookies");
        let lowered = to_lowercase(backend_text.as_str());
        let session_backend = match SessionBackend::from_setting(&lowered, redis_url) {
            Ok(b) => b,
            Err(e) => {
                return Err(e);
            },
        };
        let ttl_text = string_or(cookie_ttl_secs, "172800");
        let cookie_ttl_secs = match parse_decimal(ttl_text.as_str(), u64::MAX) {
            Some(t) => t,
            None => {
                return Err(ConfigError::InvalidValue(String::from_str("COOKIE_TTL_SECS")));
            },
        };
        Ok(Config { db_string, server_host, server_port, session_backend, secret_key, cookie_ttl_secs })
    }
}

#[verifier::external_type_specification]
#[verifier::external_body]
pub struct ExCookieKey(actix_web::cookie::Key);

#[verifier::external_type_specification]
#[verifier::external_body]
pub struct ExCookieDuration(actix_web::cookie::time::SignedDuration);

/// The master key that the cookie crate makes of `bytes` (it keeps their first 64).
pub uninterp spec fn cookie_master_key(bytes: Seq<u8>) -> actix_web::cookie::Key;

/// The cookie duration of exactly `seconds` seconds.
pub uninterp spec fn cookie_duration_seconds(seconds: i64) -> actix_web::cookie::time::SignedDuration;

/// Calls the cookie crate's `Key::from`, which panics on fewer than 64 bytes
/// (hence the `requires`). Claims that the key is the named key of the bytes;
/// its content is not stated.
#[verifier::external_body]
fn key_from_bytes(bytes: &[u8]) -> (k: actix_web::cookie::Key)
    requires
        bytes@.len() >= 64,
    ensures
        k == cookie_master_key(bytes@),
{
    actix_web::cookie::Key::from(bytes)
}

/// Calls the time crate's `Duration::seconds`, which never fails. Claims that
/// the duration is the named duration of the argument.
#[verifier::external_body]
fn cookie_duration_from_seconds(seconds: i64) -> (d: actix_web::cookie::time::SignedDuration)
    ensures
        d == cookie_duration_seconds(seconds),
{
    actix_web::cookie::time::Duration::seconds(seconds)
}

impl Config {
    /// The key that signs and encrypts session cookies, made from the bytes of
    /// the secret key; it must be at least 64 bytes long.
    pub fn get_key(&self) -> (k: actix_web::cookie::Key)
        requires
            vstd::utf8::encode_utf8(self.secret_key@).len() >= 64,
        ensures
            k == cookie_master_key(vstd::utf8::encode_utf8(self.secret_key@)),
    {
        key_from_bytes(self.secret_key.as_str().as_bytes())
    }

    /// The cookie lifetime as a cookie duration; a lifetime above `i64::MAX`
    /// seconds wraps around, as a cast to `i64` does.
    pub fn cookie_ttl_as_cookie_duration(&self) -> (d: actix_web::cookie::time::SignedDuration)
        ensures
            d == cookie_duration_seconds(self.cookie_ttl_secs as i64),
    {
        let secs: i64 = #[verifier::truncate] (self.cookie_ttl_secs as i64);
        cookie_duration_from_seconds(secs)
    }

    /// How long after logging in a user is logged out: three times the cookie lifetime.
    pub fn login_deadline_secs(&self) -> (secs: u64)
        requires
            self.cookie_ttl_secs * 3 <= u64::MAX,
        ensures
            secs == self.cookie_ttl_secs * 3,
    {
        self.cookie_ttl_secs * 3
    }
}

#[verifier::external_type_specification]
#[verifier::external_body]
pub struct ExIdentityMiddleware(actix_identity::IdentityMiddleware);

/// What logging out does to the session.
#[derive(Debug, Clone, Copy, PartialEq, Eq, Structural)]
pub enum LogoutPolicy {
    /// The whole session is dropped.
    PurgeSession,
    /// Only the identity is removed from the session.
    DeleteIdentityKeys,
}

/// The identity middleware that actix-identity builds with the given visit and
/// login deadlines (in seconds) and logout policy, and its default session keys.
pub uninterp spec fn identity_middleware_of(
    visit_secs: u64,
    login_secs: u64,
    policy: LogoutPolicy,
) -> actix_identity::IdentityMiddleware;

/// Builds actix-identity's middleware with the given visit and login deadlines
/// (in seconds) and logout policy, through `IdentityMiddleware::builder`. The
/// middleware holds nothing but the configuration that these arguments set
/// (behind an `Rc`), so it is claimed to be the named middleware of the
/// arguments; what the middleware then does with requests is not stated.
#[verifier::external_body]
fn build_identity_middleware(visit_secs: u64, login_secs: u64, policy: LogoutPolicy) -> (m: actix_identity::IdentityMiddleware)
    ensures
        m == identity_middleware_of(visit_secs, login_secs, policy),
{
    actix_identity::IdentityMiddleware::builder()
        .visit_deadline(Some(std::time::Duration::from_secs(visit_secs)))
        .login_deadline(Some(std::time::Duration::from_secs(login_secs)))
        .logout_behaviour(match policy {
            LogoutPolicy::PurgeSession => actix_identity::config::LogoutBehaviour::PurgeSession,
            LogoutPolicy::DeleteIdentityKeys => actix_identity::config::LogoutBehaviour::DeleteIdentityKeys,
        })
        .build()
}

/// The identity middleware: users are logged out after a cookie lifetime
/// without a visit, or three cookie lifetimes after logging in, and logging out
/// drops the whole session.
pub fn identity_middleware(config: &Config) -> (m: actix_identity::IdentityMiddleware)
    requires
        config.cookie_ttl_secs * 3 <= u64::MAX,
    ensures
        m == identity_middleware_of(
            config.cookie_ttl_secs,
            (config.cookie_ttl_secs * 3) as u64,
            LogoutPolicy::PurgeSession,
        ),
{
    build_identity_middleware(config.cookie_ttl_secs, config.login_deadline_secs(), LogoutPolicy::PurgeSession)
}

/// A configuration read with no `SECRET_KEY` set can always make its cookie key.
pub proof fn lemma_default_config_makes_cookie_key(vars: ConfigVars, r: Result<Config, ConfigError>)
    requires
        config_outcome(vars, r),
        vars.secret_key is None,
        r is Ok,
    ensures
        vstd::utf8::encode_utf8(r->Ok_0.secret_key@).len() >= 64,
{
    lemma_default_secret_key_makes_cookie_key();
}

} // verus!
