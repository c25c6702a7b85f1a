//! Configuration of a target web application.

use vstd::prelude::*;

verus! {

/// A TOML table (`toml::Table`): the free-form expected state of a target,
/// carried through unread.
#[verifier::external_type_specification]
#[verifier::external_body]
#[verifier::reject_recursive_types(K)]
#[verifier::reject_recursive_types(V)]
pub struct ExTomlMap<K, V>(toml::map::Map<K, V>);

/// A TOML value (`toml::Value`).
#[verifier::external_type_specification]
#[verifier::external_body]
pub struct ExTomlValue(toml::Value);

/// `toml::Table::new`: a new table. Nothing of its contents is stated, since
/// nothing in the library reads them.
#[verifier::external_body]
fn new_toml_table() -> toml::map::Map<String, toml::Value> {
    toml::map::Map::new()
}

/// `Clone` of a TOML table: a copy of the table. Nothing of its contents is
/// stated, since nothing in the library reads them.
pub assume_specification[ <toml::map::Map<String, toml::Value> as Clone>::clone ](
    m: &toml::map::Map<String, toml::Value>,
) -> toml::map::Map<String, toml::Value>;

/// Configuration for a target web application.
#[derive(Debug, Clone)]
pub struct AppConfig {
    pub target: TargetConfig,
    pub auth: AuthConfig,
    pub navigation: NavigationConfig,
    pub timeouts: TimeoutConfig,
    pub screenshots: ScreenshotConfig,
    pub expected_state: toml::map::Map<String, toml::Value>,
}

/// The application under test.
#[derive(Debug, Clone)]
pub struct TargetConfig {
    pub name: String,
    pub base_url: String,
    pub description: String,
    pub language: String,
}

/// How to log in to the application.
#[derive(Debug, Clone)]
pub struct AuthConfig {
    /// The kind of authentication; `"none"` when there is none.
    pub auth_type: String,
    pub login_url: Option<String>,
    pub username_field: Option<String>,
    pub password_field: Option<String>,
    pub submit_button: Option<String>,
    pub username: Option<String>,
    pub password: Option<String>,
    pub dashboard_selector: Option<String>,
    pub success_indicator: Option<String>,
}

/// A named page of the application.
#[derive(Debug, Clone)]
pub struct NavigationPage {
    pub name: String,
    pub path: String,
    pub selector: Option<String>,
}

/// The named pages of the application.
#[derive(Debug, Clone)]
pub struct NavigationConfig {
    pub pages: Vec<NavigationPage>,
}

/// Timeouts, in milliseconds.
#[derive(Debug, Clone)]
pub struct TimeoutConfig {
    pub page_load_ms: u64,
    pub element_wait_ms: u64,
    pub login_wait_ms: u64,
}

/// Screenshot settings.
#[derive(Debug, Clone)]
pub struct ScreenshotConfig {
    pub format: String,
    pub full_page: bool,
    pub viewport_width: u32,
    pub viewport_height: u32,
}

/// Language of a target that does not name one.
pub fn default_language() -> (r: String)
    ensures
        r@ == "en"@,
{
    String::from_str("en")
}

/// Authentication kind when none is configured.
pub fn default_auth_type() -> (r: String)
    ensures
        r@ == "none"@,
{
    String::from_str("none")
}

/// Page load timeout when none is configured.
pub fn default_page_load() -> (r: u64)
    ensures
        r == 15000,
{
    15000
}

/// Element wait timeout when none is configured.
pub fn default_element_wait() -> (r: u64)
    ensures
        r == 5000,
{
    5000
}

/// Login wait timeout when none is configured.
pub fn default_login_wait() -> (r: u64)
    ensures
        r == 10000,
{
    10000
}

/// Screenshot format when none is configured.
pub fn default_format() -> (r: String)
    ensures
        r@ == "png"@,
{
    String::from_str("png")
}

/// Viewport width when none is configured.
pub fn default_viewport_width() -> (r: u32)
    ensures
        r == 1280,
{
    1280
}

/// Viewport height when none is configured.
pub fn default_viewport_height() -> (r: u32)
    ensures
        r == 720,
{
    720
}

impl AuthConfig {
    /// No authentication: every setting unset.
    pub open spec fn is_none_config(self) -> bool {
        &&& self.auth_type@ == "none"@
        &&& self.login_url is None
        &&& self.username_field is None
        &&& self.password_field is None
        &&& self.submit_button is None
        &&& self.username is None
        &&& self.password is None
        &&& self.dashboard_selector is None
        &&& self.success_indicator is None
    }
}

impl Default for AuthConfig {
    fn default() -> (r: Self)
        ensures
            r.is_none_config(),
    {
        AuthConfig {
            auth_type: default_auth_type(),
            login_url: None,
            username_field: None,
            password_field: None,
            submit_button: None,
            username: None,
            password: None,
            dashboard_selector: None,
            success_indicator: None,
        }
    }
}

impl Default for NavigationConfig {
    fn default() -> (r: Self)
        ensures
            r.pages@.len() == 0,
    {
        NavigationConfig { pages: Vec::new() }
    }
}

impl Default for TimeoutConfig {
    fn default() -> (r: Self)
        ensures
            r.page_load_ms == 15000,
            r.element_wait_ms == 5000,
            r.login_wait_ms == 10000,
    {
        TimeoutConfig {
            page_load_ms: default_page_load(),
            element_wait_ms: default_element_wait(),
            login_wait_ms: default_login_wait(),
        }
    }
}

impl Default for ScreenshotConfig {
    fn default() -> (r: Self)
        ensures
            r.format@ == "png"@,
            !r.full_page,
            r.viewport_width == 1280,
            r.viewport_height == 720,
    {
        ScreenshotConfig {
            format: String::from_str("png"),
            full_page: false,
            viewport_width: 1280,
            viewport_height: 720,
        }
    }
}

impl AppConfig {
    /// The URL to log in at: the configured login URL, else the base URL.
    pub open spec fn spec_login_url(&self) -> Seq<char> {
        match self.auth.login_url {
            Some(u) => u@,
            None => self.target.base_url@,
        }
    }

    /// Whether the target needs a login: its authentication kind is not `"none"`.
    pub open spec fn spec_requires_auth(&self) -> bool {
        self.auth.auth_type@ != "none"@
    }

    /// A minimal configuration from a URL alone, without authentication.
    pub fn from_url(url: &str) -> (r: AppConfig)
        ensures
            r.target.name@ == url@,
            r.target.base_url@ == url@,
            r.target.description@.len() == 0,
            r.target.language@ == "en"@,
            r.auth.is_none_config(),
            r.navigation.pages@.len() == 0,
            r.timeouts.page_load_ms == 15000,
            r.timeouts.element_wait_ms == 5000,
            r.timeouts.login_wait_ms == 10000,
            r.screenshots.format@ == "png"@,
            !r.screenshots.full_page,
            r.screenshots.viewport_width == 1280,
            r.screenshots.viewport_height == 720,
    {
        AppConfig {
            target: TargetConfig {
                name: String::from_str(url),
                base_url: String::from_str(url),
                description: String::new(),
                language: String::from_str("en"),
            },
            auth: AuthConfig::default(),
            navigation: NavigationConfig::default(),
            timeouts: TimeoutConfig::default(),
            screenshots: ScreenshotConfig::default(),
            expected_state: new_toml_table(),
        }
    }

    /// The login URL (falls back to the base URL).
    pub fn login_url(&self) -> (r: &str)
        ensures
            r@ == self.spec_login_url(),
    {
        match &self.auth.login_url {
            Some(u) => u.as_str(),
            None => self.target.base_url.as_str(),
        }
    }

    /// Whether the target requires authentication.
    pub fn requires_auth(&self) -> (b: bool)
        ensures
            b == self.spec_requires_auth(),
    {
        let none = String::from_str("none");
        !(self.auth.auth_type == none)
    }
}

} // verus!
