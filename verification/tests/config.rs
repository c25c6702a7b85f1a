use goose_webtest::blueprint::nodes::default_wait_timeout;
use goose_webtest::blueprint::{default_max_retries, default_timeout, BlueprintSettings};
use goose_webtest::config::app_config::{
    default_auth_type, default_element_wait, default_format, default_language, default_login_wait,
    default_page_load, default_viewport_height, default_viewport_width, AuthConfig, ScreenshotConfig,
    TimeoutConfig,
};
use goose_webtest::AppConfig;

#[test]
fn config_from_url() {
    let c = AppConfig::from_url("http://localhost:3000");
    assert_eq!(c.target.name, "http://localhost:3000");
    assert_eq!(c.target.base_url, "http://localhost:3000");
    assert_eq!(c.target.language, "en");
    assert!(!c.requires_auth());
    assert_eq!(c.login_url(), "http://localhost:3000");
    assert_eq!(c.timeouts.page_load_ms, 15000);
    assert_eq!(c.screenshots.viewport_width, 1280);
}

#[test]
fn login_url_and_auth() {
    let mut c = AppConfig::from_url("https://x");
    c.auth.auth_type = "form".to_string();
    assert!(c.requires_auth());
    c.auth.login_url = Some("https://x/login".to_string());
    assert_eq!(c.login_url(), "https://x/login");
    c.auth.auth_type = "none".to_string();
    assert!(!c.requires_auth());
}

#[test]
fn defaults() {
    assert_eq!(default_language(), "en");
    assert_eq!(default_auth_type(), "none");
    assert_eq!((default_page_load(), default_element_wait(), default_login_wait()), (15000, 5000, 10000));
    assert_eq!(default_format(), "png");
    assert_eq!((default_viewport_width(), default_viewport_height()), (1280, 720));
    assert_eq!(default_wait_timeout(), 5000);
    assert_eq!((default_max_retries(), default_timeout()), (2, 120));
    let s = BlueprintSettings::default();
    assert_eq!((s.max_retries, s.timeout_seconds, s.screenshot_on_every_step), (2, 120, true));
    let a = AuthConfig::default();
    assert_eq!(a.auth_type, "none");
    assert!(a.username.is_none() && a.login_url.is_none());
    let t = TimeoutConfig::default();
    assert_eq!(t.login_wait_ms, 10000);
    let sc = ScreenshotConfig::default();
    assert!(!sc.full_page);
}
