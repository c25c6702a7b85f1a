use goose_webtest::steps::deterministic::{
    click_message, fill_form_message, launch_message, navigate_message, no_browser_error,
    report_message, screenshot_message, wait_for_outcome, DeterministicExecutor, LoginAction,
    LoginEvent, LoginState,
};
use goose_webtest::AppConfig;

const FORM: &str = "- generic [ref=e10]: Anmeldename\n- textbox [ref=e11]\n- textbox \"PIN\" [ref=e12]\n- button \"Anmelden\" [ref=e13]";

fn bank_config() -> AppConfig {
    let mut c = AppConfig::from_url("https://bank.example");
    c.auth.auth_type = "form".to_string();
    c.auth.login_url = Some("https://bank.example/login?x=1".to_string());
    c.auth.username = Some("demo".to_string());
    c.auth.password = Some("1234".to_string());
    c
}

fn step(ex: &mut DeterministicExecutor, st: LoginState, ev: LoginEvent) -> (LoginState, String) {
    let (next, action) = ex.login_step(st, ev);
    (next, format!("{:?}", action))
}

fn snap(s: &str) -> LoginEvent {
    LoginEvent::Snapshot(s.to_string())
}

#[test]
fn login_walks_through_the_form() {
    let mut ex = DeterministicExecutor::new(bank_config(), false);
    let walk: Vec<(LoginState, LoginEvent, LoginState, &str)> = vec![
        (LoginState::Start, LoginEvent::Completed, LoginState::AwaitNavigate,
            "Navigate(\"https://bank.example/login?x=1\")"),
        (LoginState::AwaitNavigate, LoginEvent::Completed, LoginState::AwaitPageLoad, "Wait(3000)"),
        (LoginState::AwaitPageLoad, LoginEvent::Completed, LoginState::AwaitLoginSnapshot, "TakeSnapshot"),
        (LoginState::AwaitLoginSnapshot, snap("- button \"Alle akzeptieren\" [ref=c1]"),
            LoginState::AwaitCookieClick, "Click(\"c1\")"),
        (LoginState::AwaitCookieClick, LoginEvent::Completed, LoginState::AwaitCookieSettle, "Wait(2000)"),
        (LoginState::AwaitCookieSettle, LoginEvent::Completed, LoginState::AwaitFormSnapshot, "TakeSnapshot"),
        (LoginState::AwaitFormSnapshot, snap(FORM), LoginState::AwaitUsernameFill, "Fill(\"e11\", \"demo\")"),
        (LoginState::AwaitUsernameFill, LoginEvent::Completed, LoginState::AwaitPasswordSnapshot, "TakeSnapshot"),
        (LoginState::AwaitPasswordSnapshot, snap(FORM), LoginState::AwaitPasswordFill, "Fill(\"e12\", \"1234\")"),
        (LoginState::AwaitPasswordFill, LoginEvent::Completed, LoginState::AwaitSubmitSnapshot, "TakeSnapshot"),
        (LoginState::AwaitSubmitSnapshot, snap(FORM), LoginState::AwaitSubmit, "Click(\"e13\")"),
        (LoginState::AwaitSubmit, LoginEvent::Completed, LoginState::AwaitDashboard, "Wait(5000)"),
        (LoginState::AwaitDashboard, LoginEvent::Completed, LoginState::AwaitScreenshot,
            "SaveScreenshot(\"reports/01_after_login.png\")"),
        (LoginState::AwaitScreenshot, LoginEvent::Failed("disk full".to_string()),
            LoginState::AwaitPostSnapshot, "TakeSnapshot"),
        (LoginState::AwaitPostSnapshot, snap("- page url: https://bank.example/home\nWillkommen"),
            LoginState::Finished,
            "Finish(Ok(\"Login completed. Post-login snapshot: - page url: https://bank.example/home\\nWillkommen\"))"),
    ];
    for (st, ev, next, action) in walk {
        let (n, a) = step(&mut ex, st, ev);
        assert_eq!(n, next, "from {:?}", st);
        assert_eq!(a, action, "from {:?}", st);
    }
    assert_eq!(ex.step_counter, 1);
}

#[test]
fn login_without_auth_is_skipped() {
    let mut ex = DeterministicExecutor::new(AppConfig::from_url("http://localhost"), true);
    let (n, a) = step(&mut ex, LoginState::Start, LoginEvent::Completed);
    assert_eq!(n, LoginState::Finished);
    assert_eq!(a, "Finish(Ok(\"No auth required, skipping login\"))");
}

#[test]
fn login_errors() {
    let mut ex = DeterministicExecutor::new(bank_config(), false);
    let (n, a) = step(&mut ex, LoginState::AwaitNavigate, LoginEvent::Failed("net down".to_string()));
    assert_eq!(n, LoginState::Finished);
    assert_eq!(a, "Finish(Err(\"net down\"))");
    let (n, a) = step(&mut ex, LoginState::AwaitScriptSnapshot, snap("- heading Hi"));
    assert_eq!(n, LoginState::Finished);
    assert_eq!(a, "Finish(Err(\"Could not find username field. Snapshot excerpt: - heading Hi\"))");
    let (n, a) = step(&mut ex, LoginState::AwaitPasswordSnapshot, snap("- heading Hi"));
    assert_eq!(n, LoginState::Finished);
    assert_eq!(a, "Finish(Err(\"Could not find password field. Snapshot excerpt: - heading Hi\"))");
    let failed = "- Page URL: https://bank.example/login?x=1\nFehler: falsche PIN";
    let (n, a) = step(&mut ex, LoginState::AwaitPostSnapshot, snap(failed));
    assert_eq!(n, LoginState::Finished);
    assert_eq!(
        a,
        format!("{:?}", LoginAction::Finish(Err(format!("Login failed \u{2014} still on login page with errors. Snapshot: {}", failed))))
    );
    // Still on the login page, but without an error: the login counts as done.
    let (_, a) = step(&mut ex, LoginState::AwaitPostSnapshot, snap("- page url: https://bank.example/login"));
    assert!(a.starts_with("Finish(Ok("));
}

#[test]
fn login_form_hidden_behind_main_content() {
    let mut ex = DeterministicExecutor::new(bank_config(), false);
    let (n, a) = step(&mut ex, LoginState::AwaitLoginSnapshot, snap("- heading Welcome"));
    assert_eq!((n, a.as_str()), (LoginState::AwaitFormSnapshot, "TakeSnapshot"));
    let (n, a) = step(&mut ex, LoginState::AwaitFormSnapshot, snap("- button \"Zum Hauptinhalt\" [ref=m1]"));
    assert_eq!((n, a.as_str()), (LoginState::AwaitMainClick, "Click(\"m1\")"));
    let (n, a) = step(&mut ex, LoginState::AwaitMainSnapshot, snap("- heading Still nothing"));
    assert_eq!((n, a.as_str()), (LoginState::AwaitScriptWait, "Wait(5000)"));
    let (n, a) = step(&mut ex, LoginState::AwaitScriptWait, LoginEvent::Completed);
    assert_eq!((n, a.as_str()), (LoginState::AwaitScriptSnapshot, "TakeSnapshot"));
    // No named field: the first textbox takes the user name.
    let (n, a) = step(&mut ex, LoginState::AwaitScriptSnapshot, snap("- textbox [ref=t1]"));
    assert_eq!((n, a.as_str()), (LoginState::AwaitUsernameFill, "Fill(\"t1\", \"demo\")"));
    // No submit button: Enter is pressed.
    let (n, a) = step(&mut ex, LoginState::AwaitSubmitSnapshot, snap("- textbox [ref=t1]"));
    assert_eq!((n, a.as_str()), (LoginState::AwaitSubmit, "PressKey(\"Enter\")"));
}

#[test]
fn navigation_urls_and_screenshot_paths() {
    let mut ex = DeterministicExecutor::new(bank_config(), false);
    assert_eq!(ex.navigate_url("{{base_url}}/accounts"), "https://bank.example/accounts");
    assert_eq!(ex.navigate_url("{{login_path}}#top"), "https://bank.example/login?x=1#top");
    let plain = DeterministicExecutor::new(AppConfig::from_url("http://h"), false);
    assert_eq!(plain.navigate_url("{{login_path}}x{{base_url}}"), "xhttp://h");
    assert_eq!(ex.next_screenshot_path("home"), "reports/01_home.png");
    ex.set_report_dir("/tmp/out/".to_string());
    assert_eq!(ex.next_screenshot_path("end"), "/tmp/out/02_end.png");
}

#[test]
fn action_messages() {
    assert_eq!(navigate_message("http://x", "ok"), "Navigated to: http://x \u{2014} ok");
    let long = "y".repeat(300);
    assert_eq!(navigate_message("u", &long), format!("Navigated to: u \u{2014} {}", "y".repeat(200)));
    assert_eq!(click_message("e1", &long), format!("Clicked: e1 \u{2014} {}", "y".repeat(100)));
    assert_eq!(fill_form_message(3), "Filled 3 fields");
    assert_eq!(wait_for_outcome("Saved", 500, true), Ok("Found 'Saved' on page".to_string()));
    assert_eq!(
        wait_for_outcome("Saved", 500, false),
        Err("Timeout (500ms) waiting for 'Saved' on page".to_string())
    );
    assert_eq!(screenshot_message("/r/01_a.png", &Ok(())), "Screenshot saved: /r/01_a.png");
    assert_eq!(screenshot_message("/r/01_a.png", &Err("no".to_string())), "Screenshot skipped: no");
    assert_eq!(launch_message(), "Browser launched via Playwright MCP");
    assert_eq!(report_message(), "Report generation delegated to engine");
    assert_eq!(no_browser_error(), "Browser not launched \u{2014} call LaunchBrowser first");
}
