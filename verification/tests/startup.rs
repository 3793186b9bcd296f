use rust_kratos::infrastructure::adapters::http::server::{cors_origins, CorsOrigins};
use rust_kratos::startup::config::{Config, Environment, KratosConfig, RedisConfig, ServerConfig};
use rust_kratos::startup::defaults;
use rust_kratos::startup::init::{container_config, validate_config};

fn s(x: &str) -> String {
    x.to_string()
}

#[test]
fn app_env_selects_the_configuration_file() {
    let cases = [
        (Some("development"), Environment::Development, "development"),
        (Some("production"), Environment::Production, "production"),
        (Some("docker_local"), Environment::DockerLocal, "docker_local"),
        (None, Environment::Development, "development"),
    ];
    for (value, env, file) in cases {
        let e = Environment::from_env_value(value.map(s));
        assert_eq!(e, env);
        assert_eq!(e.config_filename(), file);
    }
}

#[test]
fn app_env_in_any_letter_case() {
    assert_eq!(Environment::from_env_value(Some(s("PRODUCTION"))), Environment::Production);
    assert_eq!(Environment::from_env_value(Some(s("Docker_Local"))), Environment::DockerLocal);
}

#[test]
fn unknown_app_env_means_development() {
    assert_eq!(Environment::from_env_value(Some(s("staging"))), Environment::Development);
    assert_eq!(Environment::from_env_value(Some(s(""))), Environment::Development);
    assert_eq!(Environment::from_lowercase_name("PRODUCTION"), Environment::Development);
}

#[test]
fn defaults() {
    assert_eq!(defaults::cache_ttl(), 300);
    assert_eq!(defaults::redis_max_retries(), 5);
    assert_eq!(defaults::redis_retry_delay(), 2000);
    assert_eq!(defaults::timeout(), 120);
    assert_eq!(defaults::connect_timeout(), 30);
    assert_eq!(defaults::pool_idle_timeout(), 120);
    assert_eq!(defaults::pool_max_idle(), 10);
    assert_eq!(defaults::max_retries(), 3);
    assert_eq!(defaults::retry_delay(), 1000);
    assert!(!defaults::accept_invalid_certs());
    assert_eq!(defaults::log_level(), "info");
    assert_eq!(defaults::cors_max_age(), 3600);
    assert_eq!(defaults::cors_allowed_origins(), vec![s("http://localhost:3000")]);
}

fn config(public_url: &str, redis_url: &str) -> Config {
    Config {
        kratos: KratosConfig {
            admin_url: s("http://localhost:4434"),
            public_url: s(public_url),
            timeout_secs: 5,
            connect_timeout_secs: 6,
            pool_idle_timeout_secs: 7,
            pool_max_idle_per_host: 8,
            max_retries: 9,
            retry_delay_ms: 10,
            accept_invalid_certs: true,
        },
        server: ServerConfig {
            host: s("0.0.0.0"),
            port: 8080,
            log_level: s("debug"),
            cors_max_age: 60,
            cors_allowed_origins: vec![s("*")],
        },
        redis: RedisConfig { url: s(redis_url), cache_ttl_secs: 11, max_retries: 12, retry_delay_ms: 13 },
    }
}

#[test]
fn configuration_needs_both_urls() {
    assert_eq!(validate_config(&config("http://k", "redis://r")), Ok(()));
    assert_eq!(validate_config(&config("", "redis://r")), Err(s("Kratos public URL cannot be empty")));
    assert_eq!(validate_config(&config("http://k", "")), Err(s("Redis URL cannot be empty")));
    assert_eq!(validate_config(&config("", "")), Err(s("Kratos public URL cannot be empty")));
}

#[test]
fn container_configuration_copies_the_settings() {
    let c = container_config(&config("http://k", "redis://r"));
    assert_eq!(c.kratos.public_url, "http://k");
    assert_eq!(c.kratos.admin_url, "http://localhost:4434");
    assert_eq!(
        (c.kratos.timeout_secs, c.kratos.connect_timeout_secs, c.kratos.pool_idle_timeout_secs),
        (5, 6, 7)
    );
    assert_eq!((c.kratos.pool_max_idle_per_host, c.kratos.max_retries, c.kratos.retry_delay_ms), (8, 9, 10));
    assert!(c.kratos.accept_invalid_certs);
    assert_eq!(c.redis.url, "redis://r");
    assert_eq!((c.redis.cache_ttl_secs, c.redis.max_retries, c.redis.retry_delay_ms), (11, 12, 13));
}

#[test]
fn cors_star_opens_to_any_origin() {
    assert!(matches!(cors_origins(&vec![s("http://a"), s("*")]), CorsOrigins::Any));
    match cors_origins(&vec![s("http://a"), s("http://b")]) {
        CorsOrigins::Listed(list) => assert_eq!(list, vec![s("http://a"), s("http://b")]),
        CorsOrigins::Any => panic!("no origin was `*`"),
    }
    assert!(matches!(cors_origins(&vec![]), CorsOrigins::Listed(l) if l.is_empty()));
}

#[test]
fn each_file_name_selects_its_environment() {
    for env in [Environment::Development, Environment::Production, Environment::DockerLocal] {
        assert_eq!(Environment::from_env_value(Some(s(env.config_filename()))), env);
        assert_eq!(Environment::from_lowercase_name(env.config_filename()), env);
        assert_eq!(Environment::from_env_value(Some(env.config_filename().to_uppercase())), env);
    }
}
