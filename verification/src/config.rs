//! The configuration that every request is made under.

use crate::error::{plain_error, CanvasError, ErrorKind};
use crate::text::{ends_with, same_text, starts_with};
use vstd::prelude::*;
use vstd::string::*;

verus! {

/// Canvas MCP Server Configuration
#[derive(Debug, Clone)]
pub struct CanvasConfig {
    /// Canvas API access token
    pub api_token: String,
    /// Canvas API base URL (e.g., https://institution.instructure.com/api/v1)
    pub api_url: String,
    /// Institution name (optional, for display purposes)
    pub institution_name: Option<String>,
    /// Timezone for date/time operations (optional)
    pub timezone: Option<String>,
    /// Enable data anonymization for student information
    pub enable_anonymization: bool,
    /// Debug mode
    pub debug: bool,
}

/// What a `CanvasConfig` holds.
pub struct ConfigView {
    pub api_token: Seq<char>,
    pub api_url: Seq<char>,
    pub institution_name: Option<Seq<char>>,
    pub timezone: Option<Seq<char>>,
    pub enable_anonymization: bool,
    pub debug: bool,
}

/// The characters of an optional text.
pub open spec fn text_of(value: Option<String>) -> Option<Seq<char>> {
    match value {
        Some(text) => Some(text@),
        None => None,
    }
}

impl View for CanvasConfig {
    type V = ConfigView;

    open spec fn view(&self) -> ConfigView {
        ConfigView {
            api_token: self.api_token@,
            api_url: self.api_url@,
            institution_name: text_of(self.institution_name),
            timezone: text_of(self.timezone),
            enable_anonymization: self.enable_anonymization,
            debug: self.debug,
        }
    }
}

/// The versioned path that every API base URL ends in.
pub open spec fn api_path() -> Seq<char> {
    "/api/v1"@
}

/// Whether `url` ends in the API path.
pub open spec fn is_api_url(url: Seq<char>) -> bool {
    api_path().is_suffix_of(url)
}

/// Whether `url` starts with one of the two schemes that a base URL may have.
pub open spec fn has_scheme(url: Seq<char>) -> bool {
    "http://"@.is_prefix_of(url) || "https://"@.is_prefix_of(url)
}

/// The base URL that `url` stands for: `url` itself where it ends in the API
/// path; else `url` with the API path behind it, joined by exactly one `/`.
pub open spec fn normalized_url(url: Seq<char>) -> Seq<char> {
    if is_api_url(url) {
        url
    } else if url.len() > 0 && url.last() == '/' {
        url + "api/v1"@
    } else {
        url + api_path()
    }
}

/// What a variable that switches a feature on stands for: `true` where it
/// is set to exactly `true`, and `false` for every other value and where it
/// is not set.
pub open spec fn flag_value(value: Option<Seq<char>>) -> bool {
    value == Some("true"@)
}

/// The configuration that `new` makes of a token and a base URL.
pub open spec fn fresh_config(api_token: Seq<char>, api_url: Seq<char>) -> ConfigView {
    ConfigView {
        api_token,
        api_url: normalized_url(api_url),
        institution_name: None,
        timezone: None,
        enable_anonymization: false,
        debug: false,
    }
}

/// What `from_vars` makes of the six variables: the failure for the first
/// of token and URL that is missing, then for a URL without a scheme, and
/// else the configuration.
pub open spec fn config_from_vars(
    api_token: Option<Seq<char>>,
    api_url: Option<Seq<char>>,
    institution_name: Option<Seq<char>>,
    timezone: Option<Seq<char>>,
    enable_anonymization: Option<Seq<char>>,
    debug: Option<Seq<char>>,
) -> Result<ConfigView, crate::error::ErrorView> {
    match (api_token, api_url) {
        (None, _) => Err(
            plain_error(ErrorKind::Config, "CANVAS_API_TOKEN environment variable is required"@),
        ),
        (Some(_), None) => Err(
            plain_error(ErrorKind::Config, "CANVAS_API_URL environment variable is required"@),
        ),
        (Some(token), Some(url)) => if has_scheme(url) {
            Ok(
                ConfigView {
                    api_token: token,
                    api_url: normalized_url(url),
                    institution_name,
                    timezone,
                    enable_anonymization: flag_value(enable_anonymization),
                    debug: flag_value(debug),
                },
            )
        } else {
            Err(
                plain_error(
                    ErrorKind::Config,
                    "CANVAS_API_URL must start with http:// or https://"@,
                ),
            )
        },
    }
}

/// A normalized URL ends in the API path.
pub proof fn lemma_normalized_is_api_url(url: Seq<char>)
    ensures
        is_api_url(normalized_url(url)),
{
    reveal_strlit("/api/v1");
    reveal_strlit("api/v1");
    let path = api_path();
    if is_api_url(url) {
    } else if url.len() > 0 && url.last() == '/' {
        let whole = url + "api/v1"@;
        assert(path =~= whole.subrange(whole.len() - path.len(), whole.len() as int));
    } else {
        let whole = url + path;
        assert(path =~= whole.subrange(whole.len() - path.len(), whole.len() as int));
    }
}

/// Normalizing is idempotent: a URL that was normalized stays as it is when
/// it is normalized again.
pub proof fn lemma_normalize_idempotent(url: Seq<char>)
    ensures
        normalized_url(normalized_url(url)) == normalized_url(url),
{
    lemma_normalized_is_api_url(url);
}

/// Normalizing leaves a URL that ends in the API path unchanged.
pub proof fn lemma_normalize_keeps_api_url(url: Seq<char>)
    requires
        is_api_url(url),
    ensures
        normalized_url(url) == url,
{
}

/// Normalizing keeps the scheme that a URL starts with.
pub proof fn lemma_normalize_keeps_scheme(url: Seq<char>)
    requires
        has_scheme(url),
    ensures
        has_scheme(normalized_url(url)),
{
    let whole = normalized_url(url);
    assert(url.is_prefix_of(whole)) by {
        assert(url =~= whole.subrange(0, url.len() as int));
    }
    if "http://"@.is_prefix_of(url) {
        let scheme = "http://"@;
        assert(scheme =~= whole.subrange(0, scheme.len() as int));
    } else {
        let scheme = "https://"@;
        assert(scheme =~= whole.subrange(0, scheme.len() as int));
    }
}

/// The base URL that `api_url` stands for.
pub fn normalize_api_url(api_url: String) -> (url: String)
    ensures
        url@ == normalized_url(api_url@),
        is_api_url(url@),
{
    proof {
        lemma_normalized_is_api_url(api_url@);
    }
    if ends_with(api_url.as_str(), "/api/v1") {
        api_url
    } else if ends_with(api_url.as_str(), "/") {
        proof {
            reveal_strlit("/");
            let slash = "/"@;
            let tail = api_url@.subrange(api_url@.len() - 1, api_url@.len() as int);
            assert(slash[0] == tail[0]);
        }
        api_url.concat("api/v1")
    } else {
        proof {
            reveal_strlit("/");
            if api_url@.len() > 0 && api_url@.last() == '/' {
                let tail = api_url@.subrange(api_url@.len() - 1, api_url@.len() as int);
                assert("/"@ =~= tail);
            }
        }
        api_url.concat("/api/v1")
    }
}

/// What a variable that switches a feature on stands for.
pub fn parse_flag(value: &Option<String>) -> (on: bool)
    ensures
        on == flag_value(text_of(*value)),
{
    match value {
        Some(text) => same_text(text.as_str(), "true"),
        None => false,
    }
}

impl CanvasConfig {
    /// Whether the base URL ends in the API path, as it does in every
    /// configuration that `new` or `from_vars` made.
    pub open spec fn wf(&self) -> bool {
        is_api_url(self@.api_url)
    }

    /// Create a new configuration with the given values
    pub fn new(api_token: String, api_url: String) -> (config: Self)
        ensures
            config@ == fresh_config(api_token@, api_url@),
            config.wf(),
    {
        let api_url = normalize_api_url(api_url);
        CanvasConfig {
            api_token,
            api_url,
            institution_name: None,
            timezone: None,
            enable_anonymization: false,
            debug: false,
        }
    }

    /// The configuration that the six variables of the environment give,
    /// each handed over as `None` where it is not set: the token and the base
    /// URL are required, the URL must start with `http://` or `https://`
    /// and is normalized, and the two switches are on only for `true`.
    pub fn from_vars(
        api_token: Option<String>,
        api_url: Option<String>,
        institution_name: Option<String>,
        timezone: Option<String>,
        enable_anonymization: Option<String>,
        debug: Option<String>,
    ) -> (result: Result<Self, CanvasError>)
        ensures
            match config_from_vars(
                text_of(api_token),
                text_of(api_url),
                text_of(institution_name),
                text_of(timezone),
                text_of(enable_anonymization),
                text_of(debug),
            ) {
                Ok(view) => result matches Ok(config) && config@ == view && config.wf()
                    && has_scheme(config@.api_url),
                Err(view) => result matches Err(e) && e@ == view,
            },
    {
        let api_token = match api_token {
            Some(token) => token,
            None => {
                return Err(
                    CanvasError::config(
                        String::from_str("CANVAS_API_TOKEN environment variable is required"),
                    ),
                );
            },
        };
        let api_url = match api_url {
            Some(url) => url,
            None => {
                return Err(
                    CanvasError::config(
                        String::from_str("CANVAS_API_URL environment variable is required"),
                    ),
                );
            },
        };
        if !starts_with(api_url.as_str(), "http://") && !starts_with(api_url.as_str(), "https://") {
            return Err(
                CanvasError::config(
                    String::from_str("CANVAS_API_URL must start with http:// or https://"),
                ),
            );
        }
        proof {
            lemma_normalize_keeps_scheme(api_url@);
        }
        let api_url = normalize_api_url(api_url);
        let enable_anonymization = parse_flag(&enable_anonymization);
        let debug = parse_flag(&debug);
        Ok(
            CanvasConfig {
                api_token,
                api_url,
                institution_name,
                timezone,
                enable_anonymization,
                debug,
            },
        )
    }
}

} // verus!
