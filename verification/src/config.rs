//! The configuration of the service: how it is read from the values of the
//! process environment, and the rules it has to meet.

use crate::text::{
    has_prefix, join, lemma_split_on_none, lemma_trimmed_tight, parse_decimal, parsed_decimal,
    split_commas, split_on, starts_with, trim, trimmed,
};
use vstd::prelude::*;
use vstd::string::*;

verus! {

/// The fewest characters a signing secret may have.
pub const MIN_SECRET_LENGTH: usize = 32;

/// The port the service listens on where none is configured.
pub const DEFAULT_PORT: u16 = 8080;

/// The values of the environment variables the service recognises, each
/// absent or present.
#[derive(Debug, PartialEq, Eq)]
pub struct Environment {
    /// `DATABASE_URL`
    pub database_url: Option<String>,
    /// `PORT`
    pub port: Option<String>,
    /// `SERVER_PORT`, read where `PORT` is absent
    pub server_port: Option<String>,
    /// `JWT_SECRET`
    pub jwt_secret: Option<String>,
    /// `ENVIRONMENT`
    pub environment: Option<String>,
    /// `FRONTEND_URLS`
    pub frontend_urls: Option<String>,
    /// `CORS_ALLOWED_ORIGINS`, read where `FRONTEND_URLS` is absent
    pub cors_allowed_origins: Option<String>,
    /// `CLOUDINARY_CLOUD_NAME`
    pub cloudinary_cloud_name: Option<String>,
    /// `CLOUDINARY_API_KEY`
    pub cloudinary_api_key: Option<String>,
    /// `CLOUDINARY_API_SECRET`
    pub cloudinary_api_secret: Option<String>,
}

/// [`Environment`] as contracts see it: text as sequences of characters.
pub struct EnvironmentView {
    pub database_url: Option<Seq<char>>,
    pub port: Option<Seq<char>>,
    pub server_port: Option<Seq<char>>,
    pub jwt_secret: Option<Seq<char>>,
    pub environment: Option<Seq<char>>,
    pub frontend_urls: Option<Seq<char>>,
    pub cors_allowed_origins: Option<Seq<char>>,
    pub cloudinary_cloud_name: Option<Seq<char>>,
    pub cloudinary_api_key: Option<Seq<char>>,
    pub cloudinary_api_secret: Option<Seq<char>>,
}

impl DeepView for Environment {
    type V = EnvironmentView;

    open spec fn deep_view(&self) -> EnvironmentView {
        EnvironmentView {
            database_url: self.database_url.deep_view(),
            port: self.port.deep_view(),
            server_port: self.server_port.deep_view(),
            jwt_secret: self.jwt_secret.deep_view(),
            environment: self.environment.deep_view(),
            frontend_urls: self.frontend_urls.deep_view(),
            cors_allowed_origins: self.cors_allowed_origins.deep_view(),
            cloudinary_cloud_name: self.cloudinary_cloud_name.deep_view(),
            cloudinary_api_key: self.cloudinary_api_key.deep_view(),
            cloudinary_api_secret: self.cloudinary_api_secret.deep_view(),
        }
    }
}

/// Why a configuration is refused.
#[derive(Debug, PartialEq, Eq)]
pub enum ConfigError {
    /// `DATABASE_URL` is not set.
    MissingDatabaseUrl,
    /// The port is not a number from 0 to 65535.
    InvalidPort,
    /// `JWT_SECRET` is not set.
    MissingJwtSecret,
    /// `JWT_SECRET` has fewer than 32 characters.
    ShortJwtSecret,
    /// `DATABASE_URL` is no PostgreSQL connection string.
    InvalidDatabaseUrl,
    /// No frontend URL is configured.
    NoFrontendUrl,
    /// The frontend URL held here begins with neither `http://` nor `https://`.
    InvalidFrontendUrl(String),
}

/// [`ConfigError`] as contracts see it: text as sequences of characters.
pub enum ConfigErrorView {
    MissingDatabaseUrl,
    InvalidPort,
    MissingJwtSecret,
    ShortJwtSecret,
    InvalidDatabaseUrl,
    NoFrontendUrl,
    InvalidFrontendUrl(Seq<char>),
}

impl DeepView for ConfigError {
    type V = ConfigErrorView;

    open spec fn deep_view(&self) -> ConfigErrorView {
        match self {
            ConfigError::MissingDatabaseUrl => ConfigErrorView::MissingDatabaseUrl,
            ConfigError::InvalidPort => ConfigErrorView::InvalidPort,
            ConfigError::MissingJwtSecret => ConfigErrorView::MissingJwtSecret,
            ConfigError::ShortJwtSecret => ConfigErrorView::ShortJwtSecret,
            ConfigError::InvalidDatabaseUrl => ConfigErrorView::InvalidDatabaseUrl,
            ConfigError::NoFrontendUrl => ConfigErrorView::NoFrontendUrl,
            ConfigError::InvalidFrontendUrl(url) => ConfigErrorView::InvalidFrontendUrl(url@),
        }
    }
}

impl ConfigErrorView {
    /// The diagnostic, which names the offending variable.
    pub open spec fn message(self) -> Seq<char> {
        match self {
            ConfigErrorView::MissingDatabaseUrl => "DATABASE_URL must be set"@,
            ConfigErrorView::InvalidPort => "PORT must be a valid number"@,
            ConfigErrorView::MissingJwtSecret => "JWT_SECRET must be set"@,
            ConfigErrorView::ShortJwtSecret =>
                "JWT_SECRET must be at least 32 characters long for security"@,
            ConfigErrorView::InvalidDatabaseUrl =>
                "DATABASE_URL must be a valid PostgreSQL connection string"@,
            ConfigErrorView::NoFrontendUrl => "At least one frontend URL must be specified"@,
            ConfigErrorView::InvalidFrontendUrl(url) => "Frontend URL '"@ + url
                + "' must start with http:// or https://"@,
        }
    }
}

impl ConfigError {
    /// The diagnostic, which names the offending variable.
    pub fn message(&self) -> (text: String)
        ensures
            text@ == self.deep_view().message(),
    {
        match self {
            ConfigError::MissingDatabaseUrl => String::from_str("DATABASE_URL must be set"),
            ConfigError::InvalidPort => String::from_str("PORT must be a valid number"),
            ConfigError::MissingJwtSecret => String::from_str("JWT_SECRET must be set"),
            ConfigError::ShortJwtSecret => String::from_str(
                "JWT_SECRET must be at least 32 characters long for security",
            ),
            ConfigError::InvalidDatabaseUrl => String::from_str(
                "DATABASE_URL must be a valid PostgreSQL connection string",
            ),
            ConfigError::NoFrontendUrl => String::from_str(
                "At least one frontend URL must be specified",
            ),
            ConfigError::InvalidFrontendUrl(url) => {
                let mut text = join("Frontend URL '", url.as_str());
                text.append("' must start with http:// or https://");
                text
            },
        }
    }
}

/// The validated configuration of the service.
#[derive(Debug, PartialEq, Eq)]
pub struct AppConfig {
    pub database_url: String,
    pub port: u16,
    pub jwt_secret: String,
    pub environment: String,
    pub frontend_urls: Vec<String>,
    pub cloudinary_cloud_name: Option<String>,
    pub cloudinary_api_key: Option<String>,
    pub cloudinary_api_secret: Option<String>,
}

/// [`AppConfig`] as contracts see it: text as sequences of characters.
pub struct AppConfigView {
    pub database_url: Seq<char>,
    pub port: u16,
    pub jwt_secret: Seq<char>,
    pub environment: Seq<char>,
    pub frontend_urls: Seq<Seq<char>>,
    pub cloudinary_cloud_name: Option<Seq<char>>,
    pub cloudinary_api_key: Option<Seq<char>>,
    pub cloudinary_api_secret: Option<Seq<char>>,
}

impl DeepView for AppConfig {
    type V = AppConfigView;

    open spec fn deep_view(&self) -> AppConfigView {
        AppConfigView {
            database_url: self.database_url@,
            port: self.port,
            jwt_secret: self.jwt_secret@,
            environment: self.environment@,
            frontend_urls: self.frontend_urls.deep_view(),
            cloudinary_cloud_name: self.cloudinary_cloud_name.deep_view(),
            cloudinary_api_key: self.cloudinary_api_key.deep_view(),
            cloudinary_api_secret: self.cloudinary_api_secret.deep_view(),
        }
    }
}

/// Whether `url` names a PostgreSQL database.
pub open spec fn is_postgres_url(url: Seq<char>) -> bool {
    has_prefix(url, "postgresql://"@) || has_prefix(url, "postgres://"@)
}

/// Whether `url` is an `http` or `https` address.
pub open spec fn is_web_url(url: Seq<char>) -> bool {
    has_prefix(url, "http://"@) || has_prefix(url, "https://"@)
}

/// The first of two optional values that is present.
pub open spec fn first_present<A>(a: Option<A>, b: Option<A>) -> Option<A> {
    if a is Some {
        a
    } else {
        b
    }
}

/// The port that the environment asks for: the default where it names none,
/// nothing where what it names is no port number.
pub open spec fn configured_port(env: EnvironmentView) -> Option<u16> {
    match first_present(env.port, env.server_port) {
        None => Some(DEFAULT_PORT),
        Some(text) => match parsed_decimal(text, false, 0, 65535) {
            Some(n) => Some(n as u16),
            None => None,
        },
    }
}

/// The frontend origins that the environment allows: the pieces of the
/// comma-separated list, each trimmed.
pub open spec fn configured_origins(env: EnvironmentView) -> Seq<Seq<char>> {
    let list = match first_present(env.frontend_urls, env.cors_allowed_origins) {
        Some(text) => text,
        None => "http://localhost:3000"@,
    };
    split_on(list, ',').map_values(|piece: Seq<char>| trimmed(piece))
}

/// The configuration that an environment gives, or why it gives none. The
/// checks come in this order: database URL present, port, secret present,
/// secret long enough, database URL well-formed.
pub open spec fn configuration_of(env: EnvironmentView) -> Result<AppConfigView, ConfigErrorView> {
    if env.database_url is None {
        Err(ConfigErrorView::MissingDatabaseUrl)
    } else if configured_port(env) is None {
        Err(ConfigErrorView::InvalidPort)
    } else if env.jwt_secret is None {
        Err(ConfigErrorView::MissingJwtSecret)
    } else if env.jwt_secret->0.len() < MIN_SECRET_LENGTH {
        Err(ConfigErrorView::ShortJwtSecret)
    } else if !is_postgres_url(env.database_url->0) {
        Err(ConfigErrorView::InvalidDatabaseUrl)
    } else {
        Ok(
            AppConfigView {
                database_url: env.database_url->0,
                port: configured_port(env)->0,
                jwt_secret: env.jwt_secret->0,
                environment: match env.environment {
                    Some(name) => name,
                    None => "development"@,
                },
                frontend_urls: configured_origins(env),
                cloudinary_cloud_name: env.cloudinary_cloud_name,
                cloudinary_api_key: env.cloudinary_api_key,
                cloudinary_api_secret: env.cloudinary_api_secret,
            },
        )
    }
}

/// The first frontend URL that is no web address, if there is one.
pub open spec fn first_bad_origin(urls: Seq<Seq<char>>) -> Option<Seq<char>>
    decreases urls.len(),
{
    if urls.len() == 0 {
        None
    } else if !is_web_url(urls[0]) {
        Some(urls[0])
    } else {
        first_bad_origin(urls.skip(1))
    }
}

/// What validation says of a configuration.
pub open spec fn validation_of(config: AppConfigView) -> Result<(), ConfigErrorView> {
    if config.frontend_urls.len() == 0 {
        Err(ConfigErrorView::NoFrontendUrl)
    } else {
        match first_bad_origin(config.frontend_urls) {
            Some(url) => Err(ConfigErrorView::InvalidFrontendUrl(url)),
            None => Ok(()),
        }
    }
}

/// The view of a result whose error is a `ConfigError`.
pub open spec fn config_outcome_view<T: DeepView>(r: Result<T, ConfigError>) -> Result<
    T::V,
    ConfigErrorView,
> {
    match r {
        Ok(v) => Ok(v.deep_view()),
        Err(e) => Err(e.deep_view()),
    }
}

/// The pieces of a comma-separated list, each trimmed.
fn trimmed_pieces(list: &str) -> (out: Vec<String>)
    ensures
        out.deep_view() == split_on(list@, ',').map_values(|piece: Seq<char>| trimmed(piece)),
{
    let pieces = split_commas(list);
    let mut out: Vec<String> = Vec::new();
    let mut i: usize = 0;
    while i < pieces.len()
        invariant
            i <= pieces.len(),
            out.len() == i,
            forall|k: int| 0 <= k < i ==> (#[trigger] out@[k])@ == trimmed(pieces@[k]@),
        decreases pieces.len() - i,
    {
        out.push(trim(pieces[i].as_str()));
        i += 1;
    }
    assert(out.deep_view() =~= pieces.deep_view().map_values(|piece: Seq<char>| trimmed(piece)));
    out
}

impl AppConfig {
    /// Reads the configuration from the values of the environment.
    pub fn from_env(env: Environment) -> (r: Result<AppConfig, ConfigError>)
        ensures
            config_outcome_view(r) == configuration_of(env.deep_view()),
    {
        let database_url = match env.database_url {
            Some(url) => url,
            None => { return Err(ConfigError::MissingDatabaseUrl); },
        };
        let port_text = if env.port.is_some() {
            env.port
        } else {
            env.server_port
        };
        let port: u16 = match port_text {
            None => DEFAULT_PORT,
            Some(text) => match parse_decimal(text.as_str(), false, 0, 65535) {
                Some(n) => n as u16,
                None => { return Err(ConfigError::InvalidPort); },
            },
        };
        let jwt_secret = match env.jwt_secret {
            Some(secret) => secret,
            None => { return Err(ConfigError::MissingJwtSecret); },
        };
        let environment = match env.environment {
            Some(name) => name,
            None => String::from_str("development"),
        };
        let origin_list = if env.frontend_urls.is_some() {
            env.frontend_urls
        } else {
            env.cors_allowed_origins
        };
        let frontend_urls = match origin_list {
            Some(list) => trimmed_pieces(list.as_str()),
            None => trimmed_pieces("http://localhost:3000"),
        };
        if jwt_secret.as_str().unicode_len() < MIN_SECRET_LENGTH {
            return Err(ConfigError::ShortJwtSecret);
        }
        if !starts_with(database_url.as_str(), "postgresql://") && !starts_with(
            database_url.as_str(),
            "postgres://",
        ) {
            return Err(ConfigError::InvalidDatabaseUrl);
        }
        Ok(
            AppConfig {
                database_url,
                port,
                jwt_secret,
                environment,
                frontend_urls,
                cloudinary_cloud_name: env.cloudinary_cloud_name,
                cloudinary_api_key: env.cloudinary_api_key,
                cloudinary_api_secret: env.cloudinary_api_secret,
            },
        )
    }

    /// Whether the service runs in development.
    pub fn is_development(&self) -> (yes: bool)
        ensures
            yes == (self.environment@ == "development"@),
    {
        crate::text::same_text(self.environment.as_str(), "development")
    }

    /// Whether the service runs in production.
    pub fn is_production(&self) -> (yes: bool)
        ensures
            yes == (self.environment@ == "production"@),
    {
        crate::text::same_text(self.environment.as_str(), "production")
    }

    /// Whether all three cloud-storage credentials are present.
    pub fn has_cloudinary_config(&self) -> (yes: bool)
        ensures
            yes == (self.cloudinary_cloud_name is Some && self.cloudinary_api_key is Some
                && self.cloudinary_api_secret is Some),
    {
        self.cloudinary_cloud_name.is_some() && self.cloudinary_api_key.is_some()
            && self.cloudinary_api_secret.is_some()
    }

    /// Checks the frontend URLs: there is at least one, and each is a web
    /// address. The first that is not is reported.
    pub fn validate(&self) -> (r: Result<(), ConfigError>)
        ensures
            config_outcome_view(r) == validation_of(self.deep_view()),
    {
        if self.frontend_urls.len() == 0 {
            return Err(ConfigError::NoFrontendUrl);
        }
        let ghost urls = self.frontend_urls.deep_view();
        let mut i: usize = 0;
        assert(urls.skip(0) == urls);
        while i < self.frontend_urls.len()
            invariant
                i <= self.frontend_urls.len(),
                urls == self.frontend_urls.deep_view(),
                first_bad_origin(urls) == first_bad_origin(urls.skip(i as int)),
            decreases self.frontend_urls.len() - i,
        {
            let url = self.frontend_urls[i].as_str();
            assert(urls.skip(i as int)[0] == url@);
            assert(urls.skip(i as int).skip(1) == urls.skip(i + 1));
            if !starts_with(url, "http://") && !starts_with(url, "https://") {
                return Err(ConfigError::InvalidFrontendUrl(self.frontend_urls[i].clone()));
            }
            i += 1;
        }
        Ok(())
    }

    /// The address the listener binds: every interface, on the configured port.
    pub fn bind_address(&self) -> (address: String)
        ensures
            address@ == "0.0.0.0:"@ + crate::text::decimal(self.port as int),
    {
        let port = crate::text::decimal_text(self.port as i64);
        join("0.0.0.0:", port.as_str())
    }
}

/// Which cross-origin requests the service answers.
#[derive(Debug, PartialEq, Eq)]
pub struct CorsPolicy {
    /// The origins that may ask.
    pub origins: Vec<String>,
    /// The methods they may use.
    pub methods: Vec<String>,
    /// The headers they may send.
    pub headers: Vec<String>,
    /// Whether they may send credentials.
    pub credentials: bool,
}

/// [`CorsPolicy`] as contracts see it: text as sequences of characters.
pub struct CorsPolicyView {
    pub origins: Seq<Seq<char>>,
    pub methods: Seq<Seq<char>>,
    pub headers: Seq<Seq<char>>,
    pub credentials: bool,
}

impl DeepView for CorsPolicy {
    type V = CorsPolicyView;

    open spec fn deep_view(&self) -> CorsPolicyView {
        CorsPolicyView {
            origins: self.origins.deep_view(),
            methods: self.methods.deep_view(),
            headers: self.headers.deep_view(),
            credentials: self.credentials,
        }
    }
}

/// The policy for these frontend origins: they alone may ask, with the
/// five methods and the five headers the frontends use, and with credentials.
pub open spec fn cors_policy_for(origins: Seq<Seq<char>>) -> CorsPolicyView {
    CorsPolicyView {
        origins,
        methods: seq!["GET"@, "POST"@, "PUT"@, "DELETE"@, "OPTIONS"@],
        headers: seq![
            "Authorization"@,
            "Content-Type"@,
            "Accept"@,
            "Origin"@,
            "X-Requested-With"@,
        ],
        credentials: true,
    }
}

impl AppConfig {
    /// Which cross-origin requests the service answers: those of the
    /// configured frontends.
    pub fn cors_policy(&self) -> (policy: CorsPolicy)
        ensures
            policy.deep_view() == cors_policy_for(self.frontend_urls.deep_view()),
    {
        let mut origins: Vec<String> = Vec::new();
        let mut i: usize = 0;
        while i < self.frontend_urls.len()
            invariant
                i <= self.frontend_urls.len(),
                origins.deep_view() == self.frontend_urls.deep_view().take(i as int),
            decreases self.frontend_urls.len() - i,
        {
            let ghost before = origins.deep_view();
            origins.push(self.frontend_urls[i].clone());
            assert(origins.deep_view() =~= before.push(self.frontend_urls@[i as int]@));
            assert(self.frontend_urls.deep_view().take(i + 1) =~= before.push(
                self.frontend_urls@[i as int]@,
            ));
            i += 1;
        }
        assert(self.frontend_urls.deep_view().take(self.frontend_urls.len() as int)
            =~= self.frontend_urls.deep_view());
        let mut methods: Vec<String> = Vec::new();
        methods.push(String::from_str("GET"));
        methods.push(String::from_str("POST"));
        methods.push(String::from_str("PUT"));
        methods.push(String::from_str("DELETE"));
        methods.push(String::from_str("OPTIONS"));
        let mut headers: Vec<String> = Vec::new();
        headers.push(String::from_str("Authorization"));
        headers.push(String::from_str("Content-Type"));
        headers.push(String::from_str("Accept"));
        headers.push(String::from_str("Origin"));
        headers.push(String::from_str("X-Requested-With"));
        assert(methods.deep_view() =~= cors_policy_for(origins.deep_view()).methods);
        assert(headers.deep_view() =~= cors_policy_for(origins.deep_view()).headers);
        CorsPolicy { origins, methods, headers, credentials: true }
    }
}

/// Where the environment names no frontend, the service admits one origin,
/// `http://localhost:3000`, and validation finds no fault with it.
pub proof fn default_origin_is_a_web_address(env: EnvironmentView)
    requires
        env.frontend_urls is None,
        env.cors_allowed_origins is None,
    ensures
        configured_origins(env) == seq!["http://localhost:3000"@],
        is_web_url("http://localhost:3000"@),
        first_bad_origin(configured_origins(env)) is None,
{
    reveal_strlit("http://localhost:3000");
    reveal_strlit("http://");
    let origin = "http://localhost:3000"@;
    lemma_split_on_none(origin, ',');
    lemma_trimmed_tight(origin);
    assert(split_on(origin, ',').map_values(|piece: Seq<char>| trimmed(piece)) =~= seq![origin]);
    assert(origin.subrange(0, 7) =~= "http://"@);
    assert(seq![origin].skip(1).len() == 0);
    reveal_with_fuel(first_bad_origin, 3);
}

/// A secret of fewer than 32 characters is refused whatever else the
/// environment holds, and so is a database URL that begins with neither
/// `postgres://` nor `postgresql://`.
pub proof fn weak_settings_are_refused(env: EnvironmentView)
    ensures
        env.jwt_secret is Some && env.jwt_secret->0.len() < 32 ==> configuration_of(env) is Err,
        env.database_url is Some && !is_postgres_url(env.database_url->0) ==> configuration_of(
            env,
        ) is Err,
{
}

} // verus!
