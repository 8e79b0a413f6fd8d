use webauth::utils::config::{
    default_secret_key, identity_middleware, secret_key_or_default, Config, ConfigError,
    ConfigVars, SessionBackend,
};

fn vars(db: Option<&str>, port: Option<&str>) -> ConfigVars {
    ConfigVars {
        database_url: db.map(|s| s.to_string()),
        server_port: port.map(|s| s.to_string()),
        server_host: None,
        secret_key: None,
        session_backend: None,
        redis_url: None,
        cookie_ttl_secs: None,
    }
}

fn some(s: &str) -> Option<String> {
    Some(s.to_string())
}

#[test]
fn defaults_fill_unset_values() {
    let cfg = Config::from_vars(vars(Some("sqlite:db.db"), Some("8080"))).unwrap();
    assert_eq!(cfg.db_string, "sqlite:db.db");
    assert_eq!(cfg.server_port, 8080);
    assert_eq!(cfg.server_host, "127.0.0.1");
    assert_eq!(cfg.secret_key, "0123".repeat(16));
    assert_eq!(cfg.session_backend, SessionBackend::Cookies);
    assert_eq!(cfg.cookie_ttl_secs, 172800);
}

#[test]
fn set_values_are_kept() {
    let mut v = vars(Some("postgres://x"), Some("+443"));
    v.server_host = some("0.0.0.0");
    v.secret_key = some("s3cr3t");
    v.cookie_ttl_secs = some("60");
    v.session_backend = some("something-else");
    let cfg = Config::from_vars(v).unwrap();
    assert_eq!(cfg.server_port, 443);
    assert_eq!(cfg.server_host, "0.0.0.0");
    assert_eq!(cfg.secret_key, "s3cr3t");
    assert_eq!(cfg.cookie_ttl_secs, 60);
    assert_eq!(cfg.session_backend, SessionBackend::Cookies);
}

#[test]
fn missing_database_url_is_reported_first() {
    let r = Config::from_vars(vars(None, None));
    assert_eq!(r, Err(ConfigError::MissingEnv("DATABASE_URL".to_string())));
}

#[test]
fn missing_server_port() {
    let r = Config::from_vars(vars(Some("db"), None));
    assert_eq!(r, Err(ConfigError::MissingEnv("SERVER_PORT".to_string())));
}

#[test]
fn invalid_server_ports() {
    for p in ["", "+", "abc", "65536", "-1", " 80", "80 ", "8_0", "１"] {
        let r = Config::from_vars(vars(Some("db"), Some(p)));
        assert_eq!(r, Err(ConfigError::InvalidValue("SERVER_PORT".to_string())), "{p:?}");
    }
}

#[test]
fn extreme_server_ports() {
    assert_eq!(Config::from_vars(vars(Some("db"), Some("65535"))).unwrap().server_port, 65535);
    assert_eq!(Config::from_vars(vars(Some("db"), Some("0"))).unwrap().server_port, 0);
    assert_eq!(Config::from_vars(vars(Some("db"), Some("00080"))).unwrap().server_port, 80);
}

#[test]
fn redis_backend_with_url() {
    let mut v = vars(Some("db"), Some("80"));
    v.session_backend = some("ReDiS");
    v.redis_url = some("redis://127.0.0.1:6379");
    let cfg = Config::from_vars(v).unwrap();
    assert_eq!(cfg.session_backend, SessionBackend::Redis("redis://127.0.0.1:6379".to_string()));
}

#[test]
fn redis_backend_without_url() {
    let mut v = vars(Some("db"), Some("80"));
    v.session_backend = some("redis");
    let r = Config::from_vars(v);
    assert_eq!(r, Err(ConfigError::MissingEnv("REDIS_URL".to_string())));
}

#[test]
fn redis_url_is_ignored_for_cookies() {
    let mut v = vars(Some("db"), Some("80"));
    v.session_backend = some("cookies");
    v.redis_url = some("redis://x");
    assert_eq!(Config::from_vars(v).unwrap().session_backend, SessionBackend::Cookies);
}

#[test]
fn port_error_comes_before_backend_error() {
    let mut v = vars(Some("db"), Some("x"));
    v.session_backend = some("redis");
    v.cookie_ttl_secs = some("y");
    let r = Config::from_vars(v);
    assert_eq!(r, Err(ConfigError::InvalidValue("SERVER_PORT".to_string())));
}

#[test]
fn backend_error_comes_before_ttl_error() {
    let mut v = vars(Some("db"), Some("1"));
    v.session_backend = some("REDIS");
    v.cookie_ttl_secs = some("y");
    let r = Config::from_vars(v);
    assert_eq!(r, Err(ConfigError::MissingEnv("REDIS_URL".to_string())));
}

#[test]
fn invalid_cookie_ttl() {
    for t in ["", "-5", "18446744073709551616", "1.5"] {
        let mut v = vars(Some("db"), Some("1"));
        v.cookie_ttl_secs = some(t);
        let r = Config::from_vars(v);
        assert_eq!(r, Err(ConfigError::InvalidValue("COOKIE_TTL_SECS".to_string())), "{t:?}");
    }
}

#[test]
fn largest_cookie_ttl() {
    let mut v = vars(Some("db"), Some("1"));
    v.cookie_ttl_secs = some("18446744073709551615");
    assert_eq!(Config::from_vars(v).unwrap().cookie_ttl_secs, u64::MAX);
}

#[test]
fn default_secret_key_is_0123_repeated() {
    assert_eq!(default_secret_key(), "0123".repeat(16));
    assert_eq!(secret_key_or_default(None).len(), 64);
    assert_eq!(secret_key_or_default(Some("k".to_string())), "k");
}

#[test]
fn from_setting_decides_backend() {
    assert_eq!(
        SessionBackend::from_setting(&"redis".to_string(), Some("u".to_string())),
        Ok(SessionBackend::Redis("u".to_string()))
    );
    assert_eq!(
        SessionBackend::from_setting(&"redis".to_string(), None),
        Err(ConfigError::MissingEnv("REDIS_URL".to_string()))
    );
    assert_eq!(
        SessionBackend::from_setting(&"REDIS".to_string(), None),
        Ok(SessionBackend::Cookies)
    );
}

#[test]
fn cookie_key_holds_first_64_bytes_of_secret() {
    let mut cfg = Config::from_vars(vars(Some("db"), Some("1"))).unwrap();
    let key = cfg.get_key();
    assert_eq!(key.master(), "0123".repeat(16).as_bytes());
    cfg.secret_key = "ab".repeat(40);
    let key = cfg.get_key();
    assert_eq!(key.master(), &"ab".repeat(40).as_bytes()[..64]);
}

#[test]
fn cookie_duration_and_deadlines() {
    let mut cfg = Config::from_vars(vars(Some("db"), Some("1"))).unwrap();
    assert_eq!(cfg.cookie_ttl_as_cookie_duration().whole_seconds(), 172800);
    assert_eq!(cfg.login_deadline_secs(), 3 * 172800);
    cfg.cookie_ttl_secs = u64::MAX;
    assert_eq!(cfg.cookie_ttl_as_cookie_duration().whole_seconds(), -1);
}

#[test]
fn identity_middleware_builds() {
    let cfg = Config::from_vars(vars(Some("db"), Some("1"))).unwrap();
    let _ = identity_middleware(&cfg);
}
