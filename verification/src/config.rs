//! The settings of the tracking service, read from the environment.

use vstd::prelude::*;
use crate::ingest::{geoapify_host, is_geoapify_host};
use crate::numbers::parsed_unsigned;
use crate::settings::{env_value, non_blank, number_or, value_or, EnvSnapshot};
use crate::text::{
    chars_of, equals, opt_view, split_chars, split_on, string_from_chars, string_views, to_owned_string,
    trim, trimmed,
};

verus! {

/// The host of a URL, as `url::Url::parse` (through `reqwest::Url`) reads it,
/// when the URL parses and has a host.
pub uninterp spec fn url_host_of(url: Seq<char>) -> Option<Seq<char>>;

/// Calls `reqwest::Url::parse` and `host_str`; the contract claims only that
/// the result is `url_host_of` the text, with a parse error mapped to `None`.
#[verifier::external_body]
fn url_host(url: &str) -> (res: Option<String>)
    ensures
        opt_view(res) == url_host_of(url@),
{
    reqwest::Url::parse(url).ok()?.host_str().map(str::to_owned)
}

/// Why the settings cannot be read.
#[derive(Debug, Clone, Copy, PartialEq, Eq, Structural)]
pub enum ConfigError {
    /// `PORT` is not a port number.
    InvalidPort,
    /// `REDIS_URL` is not set.
    MissingRedisUrl,
}

/// The message of a settings error.
pub open spec fn config_error_message(e: ConfigError) -> Seq<char> {
    match e {
        ConfigError::InvalidPort => "PORT must be a number"@,
        ConfigError::MissingRedisUrl => "REDIS_URL is required"@,
    }
}

impl ConfigError {
    /// The message of the error.
    pub fn to_string(&self) -> (r: String)
        ensures
            r@ == config_error_message(*self),
    {
        to_owned_string(
            match self {
                ConfigError::InvalidPort => "PORT must be a number",
                ConfigError::MissingRedisUrl => "REDIS_URL is required",
            },
        )
    }
}

/// The settings of the tracking service that are not distances.
pub struct ServiceConfig {
    pub port: u16,
    pub admin_api_token: Option<String>,
    pub gps_webhook_token: Option<String>,
    pub cors_origins: Vec<String>,
    pub ingest_enabled: bool,
    pub border_data_dir: String,
    pub redis_url: String,
    pub opensky_client_id: Option<String>,
    pub opensky_client_secret: Option<String>,
    pub aisstream_api_key: Option<String>,
    pub aisstream_bboxes: String,
    pub geoapify_api_key: Option<String>,
    pub gps_api_key: Option<String>,
    pub gps_api_base_url: Option<String>,
    pub gps_poll_seconds: u64,
    pub openweather_api_key: Option<String>,
    pub sentinel_token_url: String,
    pub sentinel_process_url: String,
    pub sentinel_client_id: Option<String>,
    pub sentinel_client_secret: Option<String>,
    pub tavily_api_key: Option<String>,
    pub tavily_max_per_day: u32,
    pub quiet_poll_seconds: u64,
}

/// A setting that counts only when it is not blank.
pub open spec fn opt_setting(env: &EnvSnapshot, name: Seq<char>) -> Option<Seq<char>> {
    non_blank(env_value(env, name))
}

/// The key of the reverse-geocoding service: its own setting, else the GPS
/// key when the GPS base URL points at that service.
pub open spec fn geoapify_key(env: &EnvSnapshot) -> Option<Seq<char>> {
    match opt_setting(env, "GEOAPIFY_API_KEY"@) {
        Some(k) => Some(k),
        None => match opt_setting(env, "GPS_API_BASE_URL"@) {
            Some(url) => match url_host_of(url) {
                Some(host) => if geoapify_host(host) {
                    opt_setting(env, "GPS_API_KEY"@)
                } else {
                    None
                },
                None => None,
            },
            None => None,
        },
    }
}

/// The origins of the hosted frontend, which are always allowed.
pub open spec fn builtin_origins() -> Seq<Seq<char>> {
    seq![
        "https://bharat-intel-quantum-biq.vercel.app"@,
        "https://bharat-intel-quantum-biq-frontend.vercel.app"@,
    ]
}

/// The configured browser origins: the comma-separated list, each trimmed.
pub open spec fn configured_origins(env: &EnvSnapshot) -> Seq<Seq<char>> {
    split_on(
        value_or(env_value(env, "CORS_ORIGINS"@), "http://localhost:3000,http://127.0.0.1:3000"@),
        ',',
    ).map_values(|p: Seq<char>| trimmed(p))
}

/// The allowed browser origins: the hosted frontend's, then the configured ones.
pub open spec fn cors_list(env: &EnvSnapshot) -> Seq<Seq<char>> {
    builtin_origins() + configured_origins(env)
}

/// The directory of the border data: the setting, else `data/borders` when
/// that directory exists, else `backend/data/borders`.
pub open spec fn border_dir(env: &EnvSnapshot, local_borders_exist: bool) -> Seq<char> {
    value_or(
        env_value(env, "BORDER_DATA_DIR"@),
        if local_borders_exist {
            "data/borders"@
        } else {
            "backend/data/borders"@
        },
    )
}

/// The larger of a number and one.
pub open spec fn at_least_one(n: nat) -> nat {
    if n < 1 {
        1
    } else {
        n
    }
}

/// Reads a setting that counts only when not blank.
fn opt_env(env: &EnvSnapshot, name: &str) -> (r: Option<String>)
    ensures
        opt_view(r) == opt_setting(env, name@),
{
    env.get_non_blank(name)
}

/// Reads a setting with a default.
fn var_or(env: &EnvSnapshot, name: &str, default: &str) -> (r: String)
    ensures
        r@ == value_or(env_value(env, name@), default@),
{
    match env.get(name) {
        Some(v) => to_owned_string(v),
        None => to_owned_string(default),
    }
}

/// Reads the key of the reverse-geocoding service.
fn geoapify_api_key(env: &EnvSnapshot) -> (r: Option<String>)
    ensures
        opt_view(r) == geoapify_key(env),
{
    match opt_env(env, "GEOAPIFY_API_KEY") {
        Some(k) => Some(k),
        None => {
            let url = match opt_env(env, "GPS_API_BASE_URL") {
                Some(u) => u,
                None => {
                    return None;
                },
            };
            let host = match url_host(url.as_str()) {
                Some(h) => h,
                None => {
                    return None;
                },
            };
            if is_geoapify_host(host.as_str()) {
                opt_env(env, "GPS_API_KEY")
            } else {
                None
            }
        },
    }
}

/// Reads the allowed browser origins.
fn cors_origins(env: &EnvSnapshot) -> (r: Vec<String>)
    ensures
        string_views(r@) == cors_list(env),
{
    let raw = var_or(env, "CORS_ORIGINS", "http://localhost:3000,http://127.0.0.1:3000");
    let rc = chars_of(raw.as_str());
    let pieces = split_chars(rc.as_slice(), ',');
    let ghost want = configured_origins(env);
    let mut out: Vec<String> = Vec::new();
    out.push(to_owned_string("https://bharat-intel-quantum-biq.vercel.app"));
    out.push(to_owned_string("https://bharat-intel-quantum-biq-frontend.vercel.app"));
    assert(string_views(out@) =~= builtin_origins());
    let mut i: usize = 0;
    while i < pieces.len()
        invariant
            0 <= i <= pieces@.len(),
            want == configured_origins(env),
            pieces@.len() == want.len(),
            forall|k: int| 0 <= k < pieces@.len() ==> trimmed((#[trigger] pieces@[k])@) == want[k],
            string_views(out@) == builtin_origins() + want.take(i as int),
        decreases pieces.len() - i,
    {
        let t = trim(pieces[i].as_slice());
        let ghost before = string_views(out@);
        out.push(string_from_chars(t.as_slice()));
        assert(string_views(out@) =~= before.push(want[i as int]));
        assert(want.take(i + 1) =~= want.take(i as int).push(want[i as int]));
        assert(builtin_origins() + want.take(i + 1) =~= (builtin_origins() + want.take(i as int)).push(
            want[i as int],
        ));
        i = i + 1;
    }
    assert(want.take(pieces@.len() as int) =~= want);
    out
}

/// The settings as they stand in the environment, without the errors.
pub open spec fn config_matches(c: &ServiceConfig, env: &EnvSnapshot, local_borders_exist: bool) -> bool {
    &&& parsed_unsigned(value_or(env_value(env, "PORT"@), "8000"@), 65535) == Some(c.port as nat)
    &&& env_value(env, "REDIS_URL"@) == Some(c.redis_url@)
    &&& opt_view(c.admin_api_token) == opt_setting(env, "ADMIN_API_TOKEN"@)
    &&& opt_view(c.gps_webhook_token) == opt_setting(env, "GPS_WEBHOOK_TOKEN"@)
    &&& string_views(c.cors_origins@) == cors_list(env)
    &&& c.ingest_enabled == (value_or(env_value(env, "INGEST_ENABLED"@), "true"@) != "false"@)
    &&& c.border_data_dir@ == border_dir(env, local_borders_exist)
    &&& opt_view(c.opensky_client_id) == opt_setting(env, "OPENSKY_CLIENT_ID"@)
    &&& opt_view(c.opensky_client_secret) == opt_setting(env, "OPENSKY_CLIENT_SECRET"@)
    &&& opt_view(c.aisstream_api_key) == opt_setting(env, "AISSTREAM_API_KEY"@)
    &&& c.aisstream_bboxes@ == value_or(env_value(env, "AISSTREAM_BBOXES"@), "[[[5.0,65.0],[38.0,100.0]]]"@)
    &&& opt_view(c.geoapify_api_key) == geoapify_key(env)
    &&& opt_view(c.gps_api_key) == opt_setting(env, "GPS_API_KEY"@)
    &&& opt_view(c.gps_api_base_url) == opt_setting(env, "GPS_API_BASE_URL"@)
    &&& c.gps_poll_seconds == at_least_one(number_or(env_value(env, "GPS_POLL_SECONDS"@), u64::MAX as nat, 15))
    &&& opt_view(c.openweather_api_key) == opt_setting(env, "OPENWEATHER_API_KEY"@)
    &&& c.sentinel_token_url@ == value_or(
        env_value(env, "SENTINEL_TOKEN_URL"@),
        "https://services.sentinel-hub.com/oauth/token"@,
    )
    &&& c.sentinel_process_url@ == value_or(
        env_value(env, "SENTINEL_PROCESS_URL"@),
        "https://services.sentinel-hub.com/api/v1/process"@,
    )
    &&& opt_view(c.sentinel_client_id) == opt_setting(env, "SENTINEL_CLIENT_ID"@)
    &&& opt_view(c.sentinel_client_secret) == opt_setting(env, "SENTINEL_CLIENT_SECRET"@)
    &&& opt_view(c.tavily_api_key) == opt_setting(env, "TAVILY_API_KEY"@)
    &&& c.tavily_max_per_day == number_or(env_value(env, "TAVILY_MAX_PER_DAY"@), u32::MAX as nat, 33)
    &&& c.quiet_poll_seconds == number_or(env_value(env, "QUIET_POLL_SECONDS"@), u64::MAX as nat, 45)
}

impl ServiceConfig {
    /// Reads the settings: an invalid `PORT` is refused first, then a
    /// missing `REDIS_URL`; every other setting has a default.
    pub fn from_env(env: &EnvSnapshot, local_borders_exist: bool) -> (r: Result<ServiceConfig, ConfigError>)
        ensures
            parsed_unsigned(value_or(env_value(env, "PORT"@), "8000"@), 65535) is None ==> r == Err::<
                ServiceConfig,
                ConfigError,
            >(ConfigError::InvalidPort),
            parsed_unsigned(value_or(env_value(env, "PORT"@), "8000"@), 65535) is Some && env_value(
                env,
                "REDIS_URL"@,
            ) is None ==> r == Err::<ServiceConfig, ConfigError>(ConfigError::MissingRedisUrl),
            parsed_unsigned(value_or(env_value(env, "PORT"@), "8000"@), 65535) is Some && env_value(
                env,
                "REDIS_URL"@,
            ) is Some ==> (r matches Ok(c) && config_matches(&c, env, local_borders_exist)),
    {
        let port_text = var_or(env, "PORT", "8000");
        let port: u16 = match crate::numbers::parse_unsigned(port_text.as_str(), 65535) {
            Some(p) => p as u16,
            None => {
                return Err(ConfigError::InvalidPort);
            },
        };
        let redis_url = match env.get("REDIS_URL") {
            Some(v) => to_owned_string(v),
            None => {
                return Err(ConfigError::MissingRedisUrl);
            },
        };
        let ingest_enabled = !env.value_is("INGEST_ENABLED", "true", "false");
        let border_data_dir = var_or(
            env,
            "BORDER_DATA_DIR",
            if local_borders_exist {
                "data/borders"
            } else {
                "backend/data/borders"
            },
        );
        let poll = env.number_or("GPS_POLL_SECONDS", u64::MAX, 15);
        let gps_poll_seconds = if poll < 1 {
            1
        } else {
            poll
        };
        let tavily = env.number_or("TAVILY_MAX_PER_DAY", 4294967295, 33);
        Ok(
            ServiceConfig {
                port,
                admin_api_token: opt_env(env, "ADMIN_API_TOKEN"),
                gps_webhook_token: opt_env(env, "GPS_WEBHOOK_TOKEN"),
                cors_origins: cors_origins(env),
                ingest_enabled,
                border_data_dir,
                redis_url,
                opensky_client_id: opt_env(env, "OPENSKY_CLIENT_ID"),
                opensky_client_secret: opt_env(env, "OPENSKY_CLIENT_SECRET"),
                aisstream_api_key: opt_env(env, "AISSTREAM_API_KEY"),
                aisstream_bboxes: var_or(env, "AISSTREAM_BBOXES", "[[[5.0,65.0],[38.0,100.0]]]"),
                geoapify_api_key: geoapify_api_key(env),
                gps_api_key: opt_env(env, "GPS_API_KEY"),
                gps_api_base_url: opt_env(env, "GPS_API_BASE_URL"),
                gps_poll_seconds,
                openweather_api_key: opt_env(env, "OPENWEATHER_API_KEY"),
                sentinel_token_url: var_or(env, "SENTINEL_TOKEN_URL", "https://services.sentinel-hub.com/oauth/token"),
                sentinel_process_url: var_or(
                    env,
                    "SENTINEL_PROCESS_URL",
                    "https://services.sentinel-hub.com/api/v1/process",
                ),
                sentinel_client_id: opt_env(env, "SENTINEL_CLIENT_ID"),
                sentinel_client_secret: opt_env(env, "SENTINEL_CLIENT_SECRET"),
                tavily_api_key: opt_env(env, "TAVILY_API_KEY"),
                tavily_max_per_day: tavily as u32,
                quiet_poll_seconds: env.number_or("QUIET_POLL_SECONDS", u64::MAX, 45),
            },
        )
    }
}


/// How positions of ground vehicles are gathered.
#[derive(Debug, Clone, Copy, PartialEq, Eq, Structural)]
pub enum GpsPollMode {
    /// No provider is configured; only the webhook receives positions.
    Disabled,
    /// The configured provider is the reverse-geocoding service, which is
    /// no source of live positions.
    NotLiveFeed,
    /// Poll the configured provider.
    Poll,
}

/// The way vehicle positions are gathered: disabled without both a base URL
/// and a key, refused when the base URL's host (empty when it has none) is
/// the reverse-geocoding service, else polled.
pub open spec fn gps_mode_of(base_url: Option<Seq<char>>, api_key: Option<Seq<char>>) -> GpsPollMode {
    match (base_url, api_key) {
        (Some(url), Some(_)) => {
            let host = match url_host_of(url) {
                Some(h) => h,
                None => Seq::empty(),
            };
            if geoapify_host(host) {
                GpsPollMode::NotLiveFeed
            } else {
                GpsPollMode::Poll
            }
        },
        _ => GpsPollMode::Disabled,
    }
}

/// Decides how vehicle positions are gathered.
pub fn gps_poll_mode(base_url: &Option<String>, api_key: &Option<String>) -> (r: GpsPollMode)
    ensures
        r == gps_mode_of(opt_view(*base_url), opt_view(*api_key)),
{
    match (base_url, api_key) {
        (Some(url), Some(_)) => {
            let host = match url_host(url.as_str()) {
                Some(h) => h,
                None => String::new(),
            };
            if is_geoapify_host(host.as_str()) {
                GpsPollMode::NotLiveFeed
            } else {
                GpsPollMode::Poll
            }
        },
        _ => GpsPollMode::Disabled,
    }
}

/// The message recorded when the configured position provider is the
/// reverse-geocoding service.
pub open spec fn not_live_feed_message() -> Seq<char> {
    "Geoapify is not a live device position feed; configure a GPS tracking provider"@
}

/// The endpoint polled for positions.
pub fn positions_url(base_url: &str) -> (r: String)
    ensures
        r@ == base_url@ + "/positions"@,
{
    crate::text::prefixed(base_url, "/positions")
}


/// Whether each provider of the tracking service is configured, in the
/// order the health reply lists them.
pub open spec fn provider_configuration(c: &ServiceConfig) -> Seq<(Seq<char>, bool)> {
    seq![
        ("opensky"@, c.ingest_enabled),
        ("aisstream"@, c.aisstream_api_key is Some),
        ("gps"@, c.gps_api_key is Some && c.gps_api_base_url is Some),
        ("openweather"@, c.openweather_api_key is Some),
        ("sentinel"@, c.sentinel_client_id is Some && c.sentinel_client_secret is Some),
        ("tavily"@, c.tavily_api_key is Some),
        ("geoapify"@, c.geoapify_api_key is Some),
    ]
}

/// Lists which providers of the tracking service are configured.
pub fn configured_providers(c: &ServiceConfig) -> (r: Vec<(&'static str, bool)>)
    ensures
        r@.map_values(|p: (&'static str, bool)| (p.0@, p.1)) == provider_configuration(c),
{
    let mut out: Vec<(&'static str, bool)> = Vec::new();
    out.push(("opensky", c.ingest_enabled));
    out.push(("aisstream", c.aisstream_api_key.is_some()));
    out.push(("gps", c.gps_api_key.is_some() && c.gps_api_base_url.is_some()));
    out.push(("openweather", c.openweather_api_key.is_some()));
    out.push(("sentinel", c.sentinel_client_id.is_some() && c.sentinel_client_secret.is_some()));
    out.push(("tavily", c.tavily_api_key.is_some()));
    out.push(("geoapify", c.geoapify_api_key.is_some()));
    assert(out@.map_values(|p: (&'static str, bool)| (p.0@, p.1)) =~= provider_configuration(c));
    out
}

/// The health status of the tracking service: `ok` with the store
/// answering, else `degraded` with HTTP 503.
pub fn tracking_health(store_ready: bool) -> (r: (u16, &'static str))
    ensures
        store_ready ==> r.0 == 200 && r.1@ == "ok"@,
        !store_ready ==> r.0 == 503 && r.1@ == "degraded"@,
{
    if store_ready {
        (200, "ok")
    } else {
        (503, "degraded")
    }
}

/// The hosted frontend's two origins are allowed whatever `CORS_ORIGINS`
/// says, and every configured origin is allowed besides.
pub proof fn law_hosted_frontend_always_allowed(env: &EnvSnapshot)
    ensures
        cors_list(env).len() == configured_origins(env).len() + 2,
        cors_list(env)[0] == "https://bharat-intel-quantum-biq.vercel.app"@,
        cors_list(env)[1] == "https://bharat-intel-quantum-biq-frontend.vercel.app"@,
        forall|i: int|
            0 <= i < configured_origins(env).len() ==> cors_list(env).contains(
                #[trigger] configured_origins(env)[i],
            ),
{
    assert forall|i: int| 0 <= i < configured_origins(env).len() implies cors_list(env).contains(
        #[trigger] configured_origins(env)[i],
    ) by {
        assert(cors_list(env)[i + 2] == configured_origins(env)[i]);
    }
}

} // verus!
