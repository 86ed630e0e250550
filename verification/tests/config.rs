use kanban_backend::config::{
    AppConfig, ConfigError, CorsPolicy, Environment, DEFAULT_PORT, MIN_SECRET_LENGTH,
};

const SECRET: &str = "0123456789abcdef0123456789abcdef";

fn environment() -> Environment {
    Environment {
        database_url: Some("postgres://user:pw@localhost/kanban".to_string()),
        port: None,
        server_port: None,
        jwt_secret: Some(SECRET.to_string()),
        environment: None,
        frontend_urls: None,
        cors_allowed_origins: None,
        cloudinary_cloud_name: None,
        cloudinary_api_key: None,
        cloudinary_api_secret: None,
    }
}

#[test]
fn defaults_apply_where_the_environment_is_silent() {
    let config = AppConfig::from_env(environment()).unwrap();
    assert_eq!(config.database_url, "postgres://user:pw@localhost/kanban");
    assert_eq!(config.port, 8080);
    assert_eq!(config.port, DEFAULT_PORT);
    assert_eq!(config.jwt_secret, SECRET);
    assert_eq!(config.environment, "development");
    assert_eq!(config.frontend_urls, vec!["http://localhost:3000"]);
    assert_eq!(config.cloudinary_cloud_name, None);
    assert!(config.is_development());
    assert!(!config.is_production());
    assert!(!config.has_cloudinary_config());
    assert_eq!(config.validate(), Ok(()));
    assert_eq!(config.bind_address(), "0.0.0.0:8080");
}

#[test]
fn every_variable_is_read() {
    let mut env = environment();
    env.database_url = Some("postgresql://db".to_string());
    env.port = Some("3001".to_string());
    env.server_port = Some("9999".to_string());
    env.environment = Some("production".to_string());
    env.frontend_urls = Some(" https://a.example , http://b.example:8000 ".to_string());
    env.cors_allowed_origins = Some("https://ignored.example".to_string());
    env.cloudinary_cloud_name = Some("cloud".to_string());
    env.cloudinary_api_key = Some("key".to_string());
    env.cloudinary_api_secret = Some("secret".to_string());
    let config = AppConfig::from_env(env).unwrap();
    assert_eq!(config.database_url, "postgresql://db");
    assert_eq!(config.port, 3001);
    assert_eq!(config.environment, "production");
    assert_eq!(config.frontend_urls, vec!["https://a.example", "http://b.example:8000"]);
    assert!(config.is_production());
    assert!(!config.is_development());
    assert!(config.has_cloudinary_config());
    assert_eq!(config.validate(), Ok(()));
    assert_eq!(config.bind_address(), "0.0.0.0:3001");
}

#[test]
fn second_names_are_read_where_the_first_are_absent() {
    let mut env = environment();
    env.server_port = Some("9000".to_string());
    env.cors_allowed_origins = Some("https://c.example".to_string());
    let config = AppConfig::from_env(env).unwrap();
    assert_eq!(config.port, 9000);
    assert_eq!(config.frontend_urls, vec!["https://c.example"]);
}

#[test]
fn missing_database_url_is_refused() {
    let mut env = environment();
    env.database_url = None;
    let error = AppConfig::from_env(env).unwrap_err();
    assert_eq!(error, ConfigError::MissingDatabaseUrl);
    assert_eq!(error.message(), "DATABASE_URL must be set");
}

#[test]
fn missing_secret_is_refused() {
    let mut env = environment();
    env.jwt_secret = None;
    let error = AppConfig::from_env(env).unwrap_err();
    assert_eq!(error, ConfigError::MissingJwtSecret);
    assert_eq!(error.message(), "JWT_SECRET must be set");
}

#[test]
fn short_secret_is_refused_whatever_else_is_set() {
    assert_eq!(MIN_SECRET_LENGTH, 32);
    let mut env = environment();
    env.jwt_secret = Some("0123456789abcdef0123456789abcde".to_string());
    let error = AppConfig::from_env(env).unwrap_err();
    assert_eq!(error, ConfigError::ShortJwtSecret);
    assert_eq!(error.message(), "JWT_SECRET must be at least 32 characters long for security");

    let mut env = environment();
    env.jwt_secret = Some(String::new());
    env.port = Some("80".to_string());
    env.environment = Some("production".to_string());
    env.frontend_urls = Some("https://a.example".to_string());
    assert_eq!(AppConfig::from_env(env), Err(ConfigError::ShortJwtSecret));
}

#[test]
fn secret_of_exactly_32_characters_is_accepted() {
    let mut env = environment();
    env.jwt_secret = Some("0123456789abcdef0123456789abcdef".to_string());
    assert!(AppConfig::from_env(env).is_ok());
}

#[test]
fn secret_length_counts_characters() {
    let mut env = environment();
    env.jwt_secret = Some("éééééééééééééééé".to_string());
    assert_eq!(AppConfig::from_env(env), Err(ConfigError::ShortJwtSecret));
    let mut env = environment();
    env.jwt_secret = Some("éééééééééééééééééééééééééééééééé".to_string());
    assert!(AppConfig::from_env(env).is_ok());
}

#[test]
fn database_url_of_another_scheme_is_refused() {
    for url in ["mysql://localhost/db", "", "postgres:/x", "Postgres://x", " postgres://x"] {
        let mut env = environment();
        env.database_url = Some(url.to_string());
        let error = AppConfig::from_env(env).unwrap_err();
        assert_eq!(error, ConfigError::InvalidDatabaseUrl);
        assert_eq!(error.message(), "DATABASE_URL must be a valid PostgreSQL connection string");
    }
}

#[test]
fn port_must_be_a_port_number() {
    for text in ["", "abc", "-1", "65536", "80 ", "8080.0", "0x50"] {
        let mut env = environment();
        env.port = Some(text.to_string());
        let error = AppConfig::from_env(env).unwrap_err();
        assert_eq!(error, ConfigError::InvalidPort);
        assert_eq!(error.message(), "PORT must be a valid number");
    }
    for (text, port) in [("0", 0u16), ("65535", 65535), ("+443", 443), ("0080", 80)] {
        let mut env = environment();
        env.port = Some(text.to_string());
        assert_eq!(AppConfig::from_env(env).unwrap().port, port);
    }
}

#[test]
fn port_is_read_as_the_standard_library_reads_it() {
    for text in ["", "1", "+1", "-0", "00", "65535", "65536", "1 ", "١٢"] {
        let mut env = environment();
        env.port = Some(text.to_string());
        let ours = AppConfig::from_env(env).ok().map(|config| config.port);
        assert_eq!(ours, text.parse::<u16>().ok());
    }
}

#[test]
fn checks_come_in_order() {
    let mut env = environment();
    env.database_url = None;
    env.port = Some("x".to_string());
    env.jwt_secret = None;
    assert_eq!(AppConfig::from_env(env), Err(ConfigError::MissingDatabaseUrl));

    let mut env = environment();
    env.database_url = Some("mysql://x".to_string());
    env.port = Some("x".to_string());
    env.jwt_secret = Some("short".to_string());
    assert_eq!(AppConfig::from_env(env), Err(ConfigError::InvalidPort));

    let mut env = environment();
    env.database_url = Some("mysql://x".to_string());
    env.jwt_secret = Some("short".to_string());
    assert_eq!(AppConfig::from_env(env), Err(ConfigError::ShortJwtSecret));
}

#[test]
fn validate_wants_web_addresses() {
    let mut env = environment();
    env.frontend_urls = Some("https://a.example,ftp://b.example,c.example".to_string());
    let config = AppConfig::from_env(env).unwrap();
    let error = config.validate().unwrap_err();
    assert_eq!(error, ConfigError::InvalidFrontendUrl("ftp://b.example".to_string()));
    assert_eq!(
        error.message(),
        "Frontend URL 'ftp://b.example' must start with http:// or https://"
    );
}

#[test]
fn validate_refuses_an_empty_piece() {
    let mut env = environment();
    env.frontend_urls = Some("https://a.example,".to_string());
    let config = AppConfig::from_env(env).unwrap();
    assert_eq!(config.frontend_urls, vec!["https://a.example", ""]);
    assert_eq!(config.validate(), Err(ConfigError::InvalidFrontendUrl(String::new())));
}

#[test]
fn validate_wants_at_least_one_frontend() {
    let mut config = AppConfig::from_env(environment()).unwrap();
    config.frontend_urls = Vec::new();
    let error = config.validate().unwrap_err();
    assert_eq!(error, ConfigError::NoFrontendUrl);
    assert_eq!(error.message(), "At least one frontend URL must be specified");
}

#[test]
fn cloud_storage_needs_all_three_credentials() {
    let mut env = environment();
    env.cloudinary_cloud_name = Some("cloud".to_string());
    env.cloudinary_api_key = Some("key".to_string());
    let config = AppConfig::from_env(env).unwrap();
    assert!(!config.has_cloudinary_config());
}

#[test]
fn environment_names_are_compared_exactly() {
    let mut env = environment();
    env.environment = Some("Production".to_string());
    let config = AppConfig::from_env(env).unwrap();
    assert!(!config.is_production());
    assert!(!config.is_development());
}

#[test]
fn cors_policy_admits_the_configured_frontends() {
    let mut env = environment();
    env.frontend_urls = Some("https://a.example,http://localhost:5173".to_string());
    let config = AppConfig::from_env(env).unwrap();
    let text = |list: &[&str]| list.iter().map(|item| item.to_string()).collect::<Vec<String>>();
    assert_eq!(
        config.cors_policy(),
        CorsPolicy {
            origins: text(&["https://a.example", "http://localhost:5173"]),
            methods: text(&["GET", "POST", "PUT", "DELETE", "OPTIONS"]),
            headers: text(&["Authorization", "Content-Type", "Accept", "Origin", "X-Requested-With"]),
            credentials: true,
        }
    );
}
