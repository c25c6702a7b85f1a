//! The decisions of the deterministic actions: URLs from templates, the
//! messages actions report, screenshot names, and the login procedure as a
//! state machine whose browser steps the caller performs.

use vstd::prelude::*;

use super::agentic::{
    cut_ok, find_button_ref_ctx, find_input_ref_ctx, find_kind_ref, find_nth_textbox,
    kw_views, nth_textbox_from, opt_view, spec_find_input_ref, spec_find_kind_ref, spec_truncate,
    truncate,
};
use crate::config::app_config::AppConfig;
use crate::text::{
    chars_of, contains, decimal, extend_chars, extend_str, lines, padded, path_join, replace,
    spec_contains, spec_decimal, spec_find, spec_lines, spec_padded, spec_path_join, spec_replace,
    spec_to_lowercase, string_from_chars, to_lowercase, lemma_find_from, find,
};

verus! {

/// Runs deterministic actions: holds the application configuration, where
/// screenshots go, and how many screenshots have been numbered.
#[derive(Debug)]
pub struct DeterministicExecutor {
    pub app_config: AppConfig,
    pub report_dir: String,
    pub step_counter: u32,
    pub headed: bool,
}

/// The URL a navigation template names: `{{base_url}}` replaced by the base
/// URL, then `{{login_path}}` by the login URL (empty when none is configured).
pub open spec fn spec_navigate_url(cfg: AppConfig, template: Seq<char>) -> Seq<char> {
    spec_replace(
        spec_replace(template, "{{base_url}}"@, cfg.target.base_url@),
        "{{login_path}}"@,
        match cfg.auth.login_url {
            Some(u) => u@,
            None => Seq::empty(),
        },
    )
}

/// The file name of the `n`-th numbered screenshot called `name`.
pub open spec fn step_file(n: nat, name: Seq<char>) -> Seq<char> {
    spec_padded(n, 2) + "_"@ + name + ".png"@
}

impl DeterministicExecutor {
    /// An executor for a target; screenshots go to `reports` until told otherwise.
    pub fn new(app_config: AppConfig, headed: bool) -> (r: DeterministicExecutor)
        ensures
            r.app_config == app_config,
            r.report_dir@ == "reports"@,
            r.step_counter == 0,
            r.headed == headed,
    {
        DeterministicExecutor {
            app_config,
            report_dir: String::from_str("reports"),
            step_counter: 0,
            headed,
        }
    }

    /// Sets where screenshots go.
    pub fn set_report_dir(&mut self, dir: String)
        ensures
            final(self).report_dir == dir,
            final(self).app_config == old(self).app_config,
            final(self).step_counter == old(self).step_counter,
            final(self).headed == old(self).headed,
    {
        self.report_dir = dir;
    }

    /// The URL a navigation template names.
    pub fn navigate_url(&self, template: &str) -> (r: String)
        ensures
            r@ == spec_navigate_url(self.app_config, template@),
    {
        let t = chars_of(template);
        let base_key = chars_of("{{base_url}}");
        let login_key = chars_of("{{login_path}}");
        proof {
            reveal_strlit("{{base_url}}");
            reveal_strlit("{{login_path}}");
        }
        let base = chars_of(self.app_config.target.base_url.as_str());
        let login: Vec<char> = match &self.app_config.auth.login_url {
            Some(u) => chars_of(u.as_str()),
            None => Vec::new(),
        };
        let step1 = replace(t.as_slice(), base_key.as_slice(), base.as_slice());
        let step2 = replace(step1.as_slice(), login_key.as_slice(), login.as_slice());
        string_from_chars(step2.as_slice())
    }

    /// Numbers the next screenshot called `name` and names its file in the
    /// report directory: `NN_name.png`.
    pub fn next_screenshot_path(&mut self, name: &str) -> (r: String)
        requires
            old(self).step_counter < u32::MAX,
        ensures
            final(self).step_counter == old(self).step_counter + 1,
            r@ == spec_path_join(old(self).report_dir@, step_file(final(self).step_counter as nat, name@)),
            final(self).app_config == old(self).app_config,
            final(self).report_dir == old(self).report_dir,
            final(self).headed == old(self).headed,
    {
        self.step_counter = self.step_counter + 1;
        let mut file: Vec<char> = Vec::new();
        let num = padded(self.step_counter as u64, 2);
        extend_chars(&mut file, num.as_slice());
        extend_str(&mut file, "_");
        extend_str(&mut file, name);
        extend_str(&mut file, ".png");
        path_join(self.report_dir.as_str(), file.as_slice())
    }
}

/// What a navigation reports.
pub fn navigate_message(url: &str, result: &str) -> (r: String)
    requires
        cut_ok(result@, 200),
    ensures
        r@ == "Navigated to: "@ + url@ + " \u{2014} "@ + spec_truncate(result@, 200),
{
    let mut out: Vec<char> = Vec::new();
    extend_str(&mut out, "Navigated to: ");
    extend_str(&mut out, url);
    extend_str(&mut out, " \u{2014} ");
    extend_str(&mut out, truncate(result, 200));
    string_from_chars(out.as_slice())
}

/// What a click reports.
pub fn click_message(selector: &str, result: &str) -> (r: String)
    requires
        cut_ok(result@, 100),
    ensures
        r@ == "Clicked: "@ + selector@ + " \u{2014} "@ + spec_truncate(result@, 100),
{
    let mut out: Vec<char> = Vec::new();
    extend_str(&mut out, "Clicked: ");
    extend_str(&mut out, selector);
    extend_str(&mut out, " \u{2014} ");
    extend_str(&mut out, truncate(result, 100));
    string_from_chars(out.as_slice())
}

/// What filling a form reports.
pub fn fill_form_message(n: usize) -> (r: String)
    ensures
        r@ == "Filled "@ + spec_decimal(n as nat) + " fields"@,
{
    let mut out: Vec<char> = Vec::new();
    extend_str(&mut out, "Filled ");
    let d = decimal(n as u64);
    extend_chars(&mut out, d.as_slice());
    extend_str(&mut out, " fields");
    string_from_chars(out.as_slice())
}

/// The outcome of waiting for a text: found, or a timeout error.
pub fn wait_for_outcome(text: &str, timeout_ms: u64, found: bool) -> (r: Result<String, String>)
    ensures
        found ==> (r matches Ok(m) && m@ == "Found '"@ + text@ + "' on page"@),
        !found ==> (r matches Err(e) && e@ == "Timeout ("@ + spec_decimal(timeout_ms as nat)
            + "ms) waiting for '"@ + text@ + "' on page"@),
{
    let mut out: Vec<char> = Vec::new();
    if found {
        extend_str(&mut out, "Found '");
        extend_str(&mut out, text);
        extend_str(&mut out, "' on page");
        Ok(string_from_chars(out.as_slice()))
    } else {
        extend_str(&mut out, "Timeout (");
        let d = decimal(timeout_ms);
        extend_chars(&mut out, d.as_slice());
        extend_str(&mut out, "ms) waiting for '");
        extend_str(&mut out, text);
        extend_str(&mut out, "' on page");
        Err(string_from_chars(out.as_slice()))
    }
}

/// What a screenshot action reports: saved, or skipped with the reason (a
/// failed screenshot does not fail the step).
pub fn screenshot_message(path: &str, saved: &Result<(), String>) -> (r: String)
    ensures
        saved is Ok ==> r@ == "Screenshot saved: "@ + path@,
        saved matches Err(e) ==> r@ == "Screenshot skipped: "@ + e@,
{
    let mut out: Vec<char> = Vec::new();
    match saved {
        Ok(()) => {
            extend_str(&mut out, "Screenshot saved: ");
            extend_str(&mut out, path);
        },
        Err(e) => {
            extend_str(&mut out, "Screenshot skipped: ");
            extend_str(&mut out, e.as_str());
        },
    }
    string_from_chars(out.as_slice())
}

/// What launching the browser reports.
pub fn launch_message() -> (r: String)
    ensures
        r@ == "Browser launched via Playwright MCP"@,
{
    String::from_str("Browser launched via Playwright MCP")
}

/// What the report action reports: the engine writes the report.
pub fn report_message() -> (r: String)
    ensures
        r@ == "Report generation delegated to engine"@,
{
    String::from_str("Report generation delegated to engine")
}

/// The error of an action that needs a browser before one was launched.
pub fn no_browser_error() -> (r: String)
    ensures
        r@ == "Browser not launched \u{2014} call LaunchBrowser first"@,
{
    String::from_str("Browser not launched \u{2014} call LaunchBrowser first")
}

/// The error of an agentic node run before the browser was launched.
pub fn agent_without_browser_error() -> (r: String)
    ensures
        r@ == "Browser not launched \u{2014} cannot run agentic node"@,
{
    String::from_str("Browser not launched \u{2014} cannot run agentic node")
}

} // verus!

verus! {

/// Where a login stands: which browser step it waits on.
#[derive(Debug, Clone, Copy, PartialEq, Eq, Structural)]
pub enum LoginState {
    Start,
    AwaitNavigate,
    AwaitPageLoad,
    AwaitLoginSnapshot,
    AwaitCookieClick,
    AwaitCookieSettle,
    AwaitFormSnapshot,
    AwaitMainClick,
    AwaitMainSettle,
    AwaitMainSnapshot,
    AwaitScriptWait,
    AwaitScriptSnapshot,
    AwaitUsernameFill,
    AwaitPasswordSnapshot,
    AwaitPasswordFill,
    AwaitSubmitSnapshot,
    AwaitSubmit,
    AwaitDashboard,
    AwaitScreenshot,
    AwaitPostSnapshot,
    Finished,
}

/// How the browser step a login asked for went.
#[derive(Debug, Clone)]
pub enum LoginEvent {
    /// The step completed.
    Completed,
    /// A snapshot was taken; its text.
    Snapshot(String),
    /// The step failed; the error.
    Failed(String),
}

/// The browser step a login asks for next, or its end.
#[derive(Debug)]
pub enum LoginAction {
    Navigate(String),
    /// Wait this many milliseconds.
    Wait(u64),
    TakeSnapshot,
    Click(String),
    /// Type the value into the element with the reference.
    Fill(String, String),
    PressKey(String),
    SaveScreenshot(String),
    Finish(Result<String, String>),
}

/// A login event, by its texts.
pub enum LoginEventView {
    Completed,
    Snapshot(Seq<char>),
    Failed(Seq<char>),
}

/// A login action, by its texts.
pub enum LoginActionView {
    Navigate(Seq<char>),
    Wait(u64),
    TakeSnapshot,
    Click(Seq<char>),
    Fill(Seq<char>, Seq<char>),
    PressKey(Seq<char>),
    SaveScreenshot(Seq<char>),
    FinishOk(Seq<char>),
    FinishErr(Seq<char>),
}

impl View for LoginEvent {
    type V = LoginEventView;

    open spec fn view(&self) -> LoginEventView {
        match self {
            LoginEvent::Completed => LoginEventView::Completed,
            LoginEvent::Snapshot(s) => LoginEventView::Snapshot(s@),
            LoginEvent::Failed(e) => LoginEventView::Failed(e@),
        }
    }
}

impl View for LoginAction {
    type V = LoginActionView;

    open spec fn view(&self) -> LoginActionView {
        match self {
            LoginAction::Navigate(u) => LoginActionView::Navigate(u@),
            LoginAction::Wait(ms) => LoginActionView::Wait(*ms),
            LoginAction::TakeSnapshot => LoginActionView::TakeSnapshot,
            LoginAction::Click(r) => LoginActionView::Click(r@),
            LoginAction::Fill(r, v) => LoginActionView::Fill(r@, v@),
            LoginAction::PressKey(k) => LoginActionView::PressKey(k@),
            LoginAction::SaveScreenshot(p) => LoginActionView::SaveScreenshot(p@),
            LoginAction::Finish(Ok(m)) => LoginActionView::FinishOk(m@),
            LoginAction::Finish(Err(e)) => LoginActionView::FinishErr(e@),
        }
    }
}

/// Labels of cookie-consent buttons (German and English).
pub open spec fn cookie_keywords() -> Seq<Seq<char>> {
    seq![
        "ablehnen"@,
        "reject"@,
        "decline"@,
        "nur erforderliche"@,
        "alle akzeptieren"@,
        "accept all"@,
        "akzeptieren"@,
        "zustimmen"@,
        "einverstanden"@,
        "alle cookies"@,
        "accept cookies"@,
    ]
}

/// Labels of a skip-to-content button.
pub open spec fn main_keywords() -> Seq<Seq<char>> {
    seq!["hauptinhalt"@, "main content"@]
}

/// Labels of a user-name field.
pub open spec fn username_keywords() -> Seq<Seq<char>> {
    seq!["anmeldename"@, "user"@, "login"@, "username"@, "benutzername"@]
}

/// Labels of a password field.
pub open spec fn password_keywords() -> Seq<Seq<char>> {
    seq!["pin"@, "password"@, "passwort"@, "kennwort"@, "online-banking-pin"@]
}

/// Labels of a submit button, most specific first.
pub open spec fn submit_keywords_first() -> Seq<Seq<char>> {
    seq!["anmelden"@, "einloggen"@, "sign in"@, "log in"@]
}

/// The generic label of a submit button, tried last.
pub open spec fn submit_keywords_last() -> Seq<Seq<char>> {
    seq!["login"@]
}

/// The cookie banner control to dismiss: a button, else a link.
pub open spec fn cookie_target(s: Seq<char>) -> Option<Seq<char>> {
    match spec_find_kind_ref(s, "button"@, cookie_keywords()) {
        Some(r) => Some(r),
        None => spec_find_kind_ref(s, "link"@, cookie_keywords()),
    }
}

/// Whether the snapshot shows no textbox at all.
pub open spec fn no_textbox(s: Seq<char>) -> bool {
    nth_textbox_from(spec_lines(s), 0, 0) is None
}

/// The user-name field: by its label, else the first textbox.
pub open spec fn username_target(s: Seq<char>) -> Option<Seq<char>> {
    match spec_find_input_ref(s, username_keywords()) {
        Some(r) => Some(r),
        None => nth_textbox_from(spec_lines(s), 0, 0),
    }
}

/// The password field: by its label, else the second textbox.
pub open spec fn password_target(s: Seq<char>) -> Option<Seq<char>> {
    match spec_find_input_ref(s, password_keywords()) {
        Some(r) => Some(r),
        None => nth_textbox_from(spec_lines(s), 1, 0),
    }
}

/// The submit button: one with a specific label, else one labelled "login".
pub open spec fn submit_target(s: Seq<char>) -> Option<Seq<char>> {
    match spec_find_kind_ref(s, "button"@, submit_keywords_first()) {
        Some(r) => Some(r),
        None => spec_find_kind_ref(s, "button"@, submit_keywords_last()),
    }
}

/// `s` up to its first `c` (the first piece of `str::split(c)`).
pub open spec fn before_char(s: Seq<char>, c: char) -> Seq<char> {
    match spec_find(s, seq![c]) {
        Some(i) => s.take(i),
        None => s,
    }
}

/// Whether the page after logging in still shows the login URL: some line
/// names the page URL and contains the login URL (lower-cased, without its query).
pub open spec fn still_on_login(post: Seq<char>, cfg: AppConfig) -> bool {
    let ls = spec_lines(post);
    let key = before_char(spec_to_lowercase(cfg.spec_login_url()), '?');
    exists|i: int|
        0 <= i < ls.len() && spec_contains(spec_to_lowercase(#[trigger] ls[i]), "page url:"@)
            && spec_contains(spec_to_lowercase(ls[i]), key)
}

/// Whether the page shows an error or a hint.
pub open spec fn shows_error(post: Seq<char>) -> bool {
    let l = spec_to_lowercase(post);
    spec_contains(l, "fehler"@) || spec_contains(l, "error"@) || spec_contains(l, "hinweis"@)
}

/// Whether the login failed: still on the login page, showing an error.
pub open spec fn login_failed(post: Seq<char>, cfg: AppConfig) -> bool {
    still_on_login(post, cfg) && shows_error(post)
}

/// How a login ends after the page that follows it.
pub open spec fn login_outcome(post: Seq<char>, cfg: AppConfig) -> LoginActionView {
    if login_failed(post, cfg) {
        LoginActionView::FinishErr(
            "Login failed \u{2014} still on login page with errors. Snapshot: "@ + spec_truncate(
                post,
                500,
            ),
        )
    } else {
        LoginActionView::FinishOk(
            "Login completed. Post-login snapshot: "@ + spec_truncate(post, 300),
        )
    }
}

/// Whether a user name is configured but the snapshot shows no field for it.
pub open spec fn username_fails(s: Seq<char>, cfg: AppConfig) -> bool {
    cfg.auth.username is Some && username_target(s) is None
}

/// After the user name (if any): the password needs a fresh snapshot first;
/// without a password the submit button is looked for.
pub open spec fn password_phase(cfg: AppConfig) -> (LoginState, LoginActionView) {
    if cfg.auth.password is Some {
        (LoginState::AwaitPasswordSnapshot, LoginActionView::TakeSnapshot)
    } else {
        (LoginState::AwaitSubmitSnapshot, LoginActionView::TakeSnapshot)
    }
}

/// With the login form in view: fill the user name, or fail without a field.
pub open spec fn username_phase(s: Seq<char>, cfg: AppConfig) -> (LoginState, LoginActionView) {
    match cfg.auth.username {
        Some(v) => match username_target(s) {
            Some(r) => (LoginState::AwaitUsernameFill, LoginActionView::Fill(r, v@)),
            None => (
                LoginState::Finished,
                LoginActionView::FinishErr(
                    "Could not find username field. Snapshot excerpt: "@ + spec_truncate(s, 500),
                ),
            ),
        },
        None => password_phase(cfg),
    }
}

/// The next state and action of a login, given the last event.
pub open spec fn login_next(
    st: LoginState,
    ev: LoginEventView,
    cfg: AppConfig,
    dir: Seq<char>,
    counter: u32,
) -> (LoginState, LoginActionView) {
    match (st, ev) {
        (LoginState::Start, _) => if !cfg.spec_requires_auth() {
            (LoginState::Finished, LoginActionView::FinishOk("No auth required, skipping login"@))
        } else {
            (LoginState::AwaitNavigate, LoginActionView::Navigate(cfg.spec_login_url()))
        },
        (LoginState::AwaitScreenshot, _) => (LoginState::AwaitPostSnapshot, LoginActionView::TakeSnapshot),
        (_, LoginEventView::Failed(e)) => (LoginState::Finished, LoginActionView::FinishErr(e)),
        (LoginState::AwaitNavigate, _) => (LoginState::AwaitPageLoad, LoginActionView::Wait(3000)),
        (LoginState::AwaitPageLoad, _) => (LoginState::AwaitLoginSnapshot, LoginActionView::TakeSnapshot),
        (LoginState::AwaitLoginSnapshot, LoginEventView::Snapshot(s)) => match cookie_target(s) {
            Some(r) => (LoginState::AwaitCookieClick, LoginActionView::Click(r)),
            None => (LoginState::AwaitFormSnapshot, LoginActionView::TakeSnapshot),
        },
        (LoginState::AwaitCookieClick, _) => (LoginState::AwaitCookieSettle, LoginActionView::Wait(2000)),
        (LoginState::AwaitCookieSettle, _) => (LoginState::AwaitFormSnapshot, LoginActionView::TakeSnapshot),
        (LoginState::AwaitFormSnapshot, LoginEventView::Snapshot(s)) => if no_textbox(s) {
            match spec_find_kind_ref(s, "button"@, main_keywords()) {
                Some(r) => (LoginState::AwaitMainClick, LoginActionView::Click(r)),
                None => (LoginState::AwaitScriptWait, LoginActionView::Wait(5000)),
            }
        } else {
            username_phase(s, cfg)
        },
        (LoginState::AwaitMainClick, _) => (LoginState::AwaitMainSettle, LoginActionView::Wait(2000)),
        (LoginState::AwaitMainSettle, _) => (LoginState::AwaitMainSnapshot, LoginActionView::TakeSnapshot),
        (LoginState::AwaitMainSnapshot, LoginEventView::Snapshot(s)) => if no_textbox(s) {
            (LoginState::AwaitScriptWait, LoginActionView::Wait(5000))
        } else {
            username_phase(s, cfg)
        },
        (LoginState::AwaitScriptWait, _) => (LoginState::AwaitScriptSnapshot, LoginActionView::TakeSnapshot),
        (LoginState::AwaitScriptSnapshot, LoginEventView::Snapshot(s)) => username_phase(s, cfg),
        (LoginState::AwaitUsernameFill, _) => password_phase(cfg),
        (LoginState::AwaitPasswordSnapshot, LoginEventView::Snapshot(s)) => match password_target(s) {
            Some(r) => (
                LoginState::AwaitPasswordFill,
                LoginActionView::Fill(
                    r,
                    match cfg.auth.password {
                        Some(p) => p@,
                        None => Seq::empty(),
                    },
                ),
            ),
            None => (
                LoginState::Finished,
                LoginActionView::FinishErr(
                    "Could not find password field. Snapshot excerpt: "@ + spec_truncate(s, 500),
                ),
            ),
        },
        (LoginState::AwaitPasswordFill, _) => (LoginState::AwaitSubmitSnapshot, LoginActionView::TakeSnapshot),
        (LoginState::AwaitSubmitSnapshot, LoginEventView::Snapshot(s)) => match submit_target(s) {
            Some(r) => (LoginState::AwaitSubmit, LoginActionView::Click(r)),
            None => (LoginState::AwaitSubmit, LoginActionView::PressKey("Enter"@)),
        },
        (LoginState::AwaitSubmit, _) => (LoginState::AwaitDashboard, LoginActionView::Wait(5000)),
        (LoginState::AwaitDashboard, _) => (
            LoginState::AwaitScreenshot,
            LoginActionView::SaveScreenshot(
                spec_path_join(dir, step_file((counter + 1) as nat, "after_login"@)),
            ),
        ),
        (LoginState::AwaitPostSnapshot, LoginEventView::Snapshot(s)) => (
            LoginState::Finished,
            login_outcome(s, cfg),
        ),
        _ => (st, LoginActionView::TakeSnapshot),
    }
}

/// Whether a state waits for a snapshot.
pub open spec fn awaits_snapshot(st: LoginState) -> bool {
    st == LoginState::AwaitLoginSnapshot || st == LoginState::AwaitFormSnapshot || st
        == LoginState::AwaitMainSnapshot || st == LoginState::AwaitScriptSnapshot || st
        == LoginState::AwaitPasswordSnapshot || st == LoginState::AwaitSubmitSnapshot || st
        == LoginState::AwaitPostSnapshot
}

/// Whether the event answers what the state waits for, and a snapshot that
/// the login would quote is cut at a character boundary (cutting inside a
/// character panics).
pub open spec fn event_fits(st: LoginState, ev: LoginEventView, cfg: AppConfig) -> bool {
    &&& st != LoginState::Finished
    &&& (st != LoginState::Start && awaits_snapshot(st)) ==> (ev is Snapshot || ev is Failed)
    &&& (st != LoginState::Start && !awaits_snapshot(st)) ==> (ev is Completed || ev is Failed)
    &&& ev matches LoginEventView::Snapshot(s) ==> {
        &&& ((st == LoginState::AwaitFormSnapshot || st == LoginState::AwaitMainSnapshot)
            && !no_textbox(s) && username_fails(s, cfg)) ==> cut_ok(s, 500)
        &&& (st == LoginState::AwaitScriptSnapshot && username_fails(s, cfg)) ==> cut_ok(s, 500)
        &&& (st == LoginState::AwaitPasswordSnapshot && password_target(s) is None) ==> cut_ok(
            s,
            500,
        )
        &&& (st == LoginState::AwaitPostSnapshot && login_failed(s, cfg)) ==> cut_ok(s, 500)
        &&& (st == LoginState::AwaitPostSnapshot && !login_failed(s, cfg)) ==> cut_ok(s, 300)
    }
}

} // verus!

verus! {

fn cookie_kws() -> (r: Vec<&'static str>)
    ensures
        kw_views(r@) == cookie_keywords(),
{
    let mut r = Vec::new();
    r.push("ablehnen");
    r.push("reject");
    r.push("decline");
    r.push("nur erforderliche");
    r.push("alle akzeptieren");
    r.push("accept all");
    r.push("akzeptieren");
    r.push("zustimmen");
    r.push("einverstanden");
    r.push("alle cookies");
    r.push("accept cookies");
    assert(kw_views(r@) =~= cookie_keywords());
    r
}

fn main_kws() -> (r: Vec<&'static str>)
    ensures
        kw_views(r@) == main_keywords(),
{
    let mut r = Vec::new();
    r.push("hauptinhalt");
    r.push("main content");
    assert(kw_views(r@) =~= main_keywords());
    r
}

fn username_kws() -> (r: Vec<&'static str>)
    ensures
        kw_views(r@) == username_keywords(),
{
    let mut r = Vec::new();
    r.push("anmeldename");
    r.push("user");
    r.push("login");
    r.push("username");
    r.push("benutzername");
    assert(kw_views(r@) =~= username_keywords());
    r
}

fn password_kws() -> (r: Vec<&'static str>)
    ensures
        kw_views(r@) == password_keywords(),
{
    let mut r = Vec::new();
    r.push("pin");
    r.push("password");
    r.push("passwort");
    r.push("kennwort");
    r.push("online-banking-pin");
    assert(kw_views(r@) =~= password_keywords());
    r
}

fn submit_kws_first() -> (r: Vec<&'static str>)
    ensures
        kw_views(r@) == submit_keywords_first(),
{
    let mut r = Vec::new();
    r.push("anmelden");
    r.push("einloggen");
    r.push("sign in");
    r.push("log in");
    assert(kw_views(r@) =~= submit_keywords_first());
    r
}

fn submit_kws_last() -> (r: Vec<&'static str>)
    ensures
        kw_views(r@) == submit_keywords_last(),
{
    let mut r = Vec::new();
    r.push("login");
    assert(kw_views(r@) =~= submit_keywords_last());
    r
}

/// The cookie banner control to dismiss.
pub fn find_cookie_target(s: &str) -> (r: Option<String>)
    ensures
        opt_view(r) == cookie_target(s@),
{
    let kws = cookie_kws();
    match find_button_ref_ctx(s, kws.as_slice()) {
        Some(r) => Some(r),
        None => find_kind_ref(s, "link", kws.as_slice()),
    }
}

/// The user-name field of a login form.
pub fn find_username_target(s: &str) -> (r: Option<String>)
    ensures
        opt_view(r) == username_target(s@),
{
    let kws = username_kws();
    match find_input_ref_ctx(s, kws.as_slice()) {
        Some(r) => Some(r),
        None => find_nth_textbox(s, 0),
    }
}

/// The password field of a login form.
pub fn find_password_target(s: &str) -> (r: Option<String>)
    ensures
        opt_view(r) == password_target(s@),
{
    let kws = password_kws();
    match find_input_ref_ctx(s, kws.as_slice()) {
        Some(r) => Some(r),
        None => find_nth_textbox(s, 1),
    }
}

/// The submit button of a login form.
pub fn find_submit_target(s: &str) -> (r: Option<String>)
    ensures
        opt_view(r) == submit_target(s@),
{
    let first = submit_kws_first();
    match find_kind_ref(s, "button", first.as_slice()) {
        Some(r) => Some(r),
        None => {
            let last = submit_kws_last();
            find_kind_ref(s, "button", last.as_slice())
        },
    }
}

/// Whether the login failed: the page after it still shows the login URL
/// and an error or hint.
pub fn check_login_failed(post: &str, cfg: &AppConfig) -> (b: bool)
    ensures
        b == login_failed(post@, *cfg),
{
    let url = chars_of(cfg.login_url());
    let lower_url = to_lowercase(url.as_slice());
    let q: Vec<char> = vec!['?'];
    assert(q@ =~= seq!['?']);
    let key = match find(lower_url.as_slice(), q.as_slice()) {
        Some(i) => {
            proof {
                lemma_find_from(lower_url@, q@, 0);
            }
            crate::text::slice_range(lower_url.as_slice(), 0, i)
        },
        None => lower_url,
    };
    let pc = chars_of(post);
    let ls = lines(pc.as_slice());
    let ghost lv = ls@.map_values(|l: Vec<char>| l@);
    let page_url = chars_of("page url:");
    let mut i: usize = 0;
    while i < ls.len()
        invariant
            i <= ls@.len(),
            lv == ls@.map_values(|l: Vec<char>| l@),
            lv == spec_lines(post@),
            page_url@ == "page url:"@,
            key@ == before_char(spec_to_lowercase(cfg.spec_login_url()), '?'),
            forall|j: int|
                0 <= j < i ==> !(spec_contains(spec_to_lowercase(#[trigger] lv[j]), "page url:"@)
                    && spec_contains(spec_to_lowercase(lv[j]), key@)),
        decreases ls@.len() - i,
    {
        assert(lv[i as int] == ls@[i as int]@);
        let low = to_lowercase(ls[i].as_slice());
        if contains(low.as_slice(), page_url.as_slice()) && contains(low.as_slice(), key.as_slice()) {
            return shows_error_exec(post);
        }
        i += 1;
    }
    false
}

fn shows_error_exec(post: &str) -> (b: bool)
    ensures
        b == shows_error(post@),
{
    let pc = chars_of(post);
    let lp = to_lowercase(pc.as_slice());
    let fehler = chars_of("fehler");
    let error = chars_of("error");
    let hinweis = chars_of("hinweis");
    contains(lp.as_slice(), fehler.as_slice()) || contains(lp.as_slice(), error.as_slice())
        || contains(lp.as_slice(), hinweis.as_slice())
}

} // verus!

verus! {

/// A message made of a fixed head and the first `n` bytes of a snapshot.
fn excerpt(head: &str, s: &str, n: usize) -> (r: String)
    requires
        cut_ok(s@, n as nat),
    ensures
        r@ == head@ + spec_truncate(s@, n as nat),
{
    let mut out: Vec<char> = Vec::new();
    extend_str(&mut out, head);
    extend_str(&mut out, truncate(s, n));
    string_from_chars(out.as_slice())
}

impl DeterministicExecutor {
    fn password_phase_exec(&self) -> (r: (LoginState, LoginAction))
        ensures
            r.0 == password_phase(self.app_config).0,
            r.1@ == password_phase(self.app_config).1,
    {
        if self.app_config.auth.password.is_some() {
            (LoginState::AwaitPasswordSnapshot, LoginAction::TakeSnapshot)
        } else {
            (LoginState::AwaitSubmitSnapshot, LoginAction::TakeSnapshot)
        }
    }

    fn username_phase_exec(&self, s: &str) -> (r: (LoginState, LoginAction))
        requires
            username_fails(s@, self.app_config) ==> cut_ok(s@, 500),
        ensures
            r.0 == username_phase(s@, self.app_config).0,
            r.1@ == username_phase(s@, self.app_config).1,
    {
        match &self.app_config.auth.username {
            Some(v) => match find_username_target(s) {
                Some(r) => (LoginState::AwaitUsernameFill, LoginAction::Fill(r, v.clone())),
                None => (
                    LoginState::Finished,
                    LoginAction::Finish(
                        Err(excerpt("Could not find username field. Snapshot excerpt: ", s, 500)),
                    ),
                ),
            },
            None => self.password_phase_exec(),
        }
    }

    /// One step of the login procedure: given where the login stands and how
    /// the browser step it asked for went, the next state and browser step.
    /// The screenshot after submitting is numbered like every other.
    pub fn login_step(&mut self, st: LoginState, ev: LoginEvent) -> (r: (LoginState, LoginAction))
        requires
            event_fits(st, ev@, old(self).app_config),
            st == LoginState::AwaitDashboard ==> old(self).step_counter < u32::MAX,
        ensures
            r.0 == login_next(st, ev@, old(self).app_config, old(self).report_dir@, old(self).step_counter).0,
            r.1@ == login_next(st, ev@, old(self).app_config, old(self).report_dir@, old(self).step_counter).1,
            final(self).step_counter == if st == LoginState::AwaitDashboard && !(ev is Failed) {
                (old(self).step_counter + 1) as u32
            } else {
                old(self).step_counter
            },
            final(self).app_config == old(self).app_config,
            final(self).report_dir == old(self).report_dir,
            final(self).headed == old(self).headed,
    {
        match st {
            LoginState::Start => {
                if !self.app_config.requires_auth() {
                    return (
                        LoginState::Finished,
                        LoginAction::Finish(Ok(String::from_str("No auth required, skipping login"))),
                    );
                }
                return (
                    LoginState::AwaitNavigate,
                    LoginAction::Navigate(String::from_str(self.app_config.login_url())),
                );
            },
            LoginState::AwaitScreenshot => {
                return (LoginState::AwaitPostSnapshot, LoginAction::TakeSnapshot);
            },
            _ => {},
        }
        let s: String = match ev {
            LoginEvent::Failed(e) => {
                return (LoginState::Finished, LoginAction::Finish(Err(e)));
            },
            LoginEvent::Completed => String::new(),
            LoginEvent::Snapshot(s) => s,
        };
        match st {
            LoginState::AwaitNavigate => (LoginState::AwaitPageLoad, LoginAction::Wait(3000)),
            LoginState::AwaitPageLoad => (LoginState::AwaitLoginSnapshot, LoginAction::TakeSnapshot),
            LoginState::AwaitLoginSnapshot => match find_cookie_target(s.as_str()) {
                Some(r) => (LoginState::AwaitCookieClick, LoginAction::Click(r)),
                None => (LoginState::AwaitFormSnapshot, LoginAction::TakeSnapshot),
            },
            LoginState::AwaitCookieClick => (LoginState::AwaitCookieSettle, LoginAction::Wait(2000)),
            LoginState::AwaitCookieSettle => (LoginState::AwaitFormSnapshot, LoginAction::TakeSnapshot),
            LoginState::AwaitFormSnapshot => {
                if find_nth_textbox(s.as_str(), 0).is_none() {
                    let kws = main_kws();
                    match find_button_ref_ctx(s.as_str(), kws.as_slice()) {
                        Some(r) => (LoginState::AwaitMainClick, LoginAction::Click(r)),
                        None => (LoginState::AwaitScriptWait, LoginAction::Wait(5000)),
                    }
                } else {
                    self.username_phase_exec(s.as_str())
                }
            },
            LoginState::AwaitMainClick => (LoginState::AwaitMainSettle, LoginAction::Wait(2000)),
            LoginState::AwaitMainSettle => (LoginState::AwaitMainSnapshot, LoginAction::TakeSnapshot),
            LoginState::AwaitMainSnapshot => {
                if find_nth_textbox(s.as_str(), 0).is_none() {
                    (LoginState::AwaitScriptWait, LoginAction::Wait(5000))
                } else {
                    self.username_phase_exec(s.as_str())
                }
            },
            LoginState::AwaitScriptWait => (LoginState::AwaitScriptSnapshot, LoginAction::TakeSnapshot),
            LoginState::AwaitScriptSnapshot => self.username_phase_exec(s.as_str()),
            LoginState::AwaitUsernameFill => self.password_phase_exec(),
            LoginState::AwaitPasswordSnapshot => match find_password_target(s.as_str()) {
                Some(r) => {
                    let pw = match &self.app_config.auth.password {
                        Some(p) => p.clone(),
                        None => String::new(),
                    };
                    (LoginState::AwaitPasswordFill, LoginAction::Fill(r, pw))
                },
                None => (
                    LoginState::Finished,
                    LoginAction::Finish(
                        Err(excerpt("Could not find password field. Snapshot excerpt: ", s.as_str(), 500)),
                    ),
                ),
            },
            LoginState::AwaitPasswordFill => (LoginState::AwaitSubmitSnapshot, LoginAction::TakeSnapshot),
            LoginState::AwaitSubmitSnapshot => match find_submit_target(s.as_str()) {
                Some(r) => (LoginState::AwaitSubmit, LoginAction::Click(r)),
                None => (LoginState::AwaitSubmit, LoginAction::PressKey(String::from_str("Enter"))),
            },
            LoginState::AwaitSubmit => (LoginState::AwaitDashboard, LoginAction::Wait(5000)),
            LoginState::AwaitDashboard => {
                let path = self.next_screenshot_path("after_login");
                (LoginState::AwaitScreenshot, LoginAction::SaveScreenshot(path))
            },
            LoginState::AwaitPostSnapshot => {
                if check_login_failed(s.as_str(), &self.app_config) {
                    (
                        LoginState::Finished,
                        LoginAction::Finish(
                            Err(
                                excerpt(
                                    "Login failed \u{2014} still on login page with errors. Snapshot: ",
                                    s.as_str(),
                                    500,
                                ),
                            ),
                        ),
                    )
                } else {
                    (
                        LoginState::Finished,
                        LoginAction::Finish(
                            Ok(excerpt("Login completed. Post-login snapshot: ", s.as_str(), 300)),
                        ),
                    )
                }
            },
            _ => (st, LoginAction::TakeSnapshot),
        }
    }
}

} // verus!

verus! {

/// How many bytes of a snapshot the login step quotes in its message, when
/// it quotes one: 500 when a field is missing or the login failed, 300 when
/// it completed.
pub open spec fn excerpt_needed(st: LoginState, ev: LoginEventView, cfg: AppConfig) -> Option<nat> {
    match ev {
        LoginEventView::Snapshot(s) => if (st == LoginState::AwaitFormSnapshot || st
            == LoginState::AwaitMainSnapshot) && !no_textbox(s) && username_fails(s, cfg) {
            Some(500)
        } else if st == LoginState::AwaitScriptSnapshot && username_fails(s, cfg) {
            Some(500)
        } else if st == LoginState::AwaitPasswordSnapshot && password_target(s) is None {
            Some(500)
        } else if st == LoginState::AwaitPostSnapshot {
            if login_failed(s, cfg) {
                Some(500)
            } else {
                Some(300)
            }
        } else {
            None
        },
        _ => None,
    }
}

/// An event of the right kind for its state fits when the snapshot it
/// carries can be cut where the step quotes it.
pub proof fn lemma_event_fits(st: LoginState, ev: LoginEventView, cfg: AppConfig)
    requires
        st != LoginState::Finished,
        (st != LoginState::Start && awaits_snapshot(st)) ==> (ev is Snapshot || ev is Failed),
        (st != LoginState::Start && !awaits_snapshot(st)) ==> (ev is Completed || ev is Failed),
        excerpt_needed(st, ev, cfg) matches Some(n) ==> (ev matches LoginEventView::Snapshot(s)
            && cut_ok(s, n)),
    ensures
        event_fits(st, ev, cfg),
{
}

impl DeterministicExecutor {
    /// How many bytes of the snapshot the login step for `st` and `ev` will
    /// quote, if it quotes one; the cut must fall on a character boundary.
    pub fn excerpt_len(&self, st: LoginState, ev: &LoginEvent) -> (r: Option<usize>)
        ensures
            match excerpt_needed(st, ev@, self.app_config) {
                Some(n) => r == Some(n as usize),
                None => r is None,
            },
    {
        match ev {
            LoginEvent::Snapshot(s) => {
                let s = s.as_str();
                let username_fails = self.app_config.auth.username.is_some()
                    && find_username_target(s).is_none();
                if (st == LoginState::AwaitFormSnapshot || st == LoginState::AwaitMainSnapshot)
                    && find_nth_textbox(s, 0).is_some() && username_fails {
                    Some(500)
                } else if st == LoginState::AwaitScriptSnapshot && username_fails {
                    Some(500)
                } else if st == LoginState::AwaitPasswordSnapshot && find_password_target(s).is_none() {
                    Some(500)
                } else if st == LoginState::AwaitPostSnapshot {
                    if check_login_failed(s, &self.app_config) {
                        Some(500)
                    } else {
                        Some(300)
                    }
                } else {
                    None
                }
            },
            _ => None,
        }
    }
}

/// Numbered screenshots never share a file: screenshots with different
/// numbers get different file names, whatever they are called.
pub proof fn law_step_files_distinct(n: nat, m: nat, a: Seq<char>, b: Seq<char>)
    requires
        n != m,
    ensures
        step_file(n, a) != step_file(m, b),
{
    reveal_strlit("_");
    crate::text::lemma_numbered_distinct(n, m, 2, '_', a + ".png"@, b + ".png"@);
    assert(step_file(n, a) =~= spec_padded(n, 2).push('_') + (a + ".png"@));
    assert(step_file(m, b) =~= spec_padded(m, 2).push('_') + (b + ".png"@));
}

/// Whether line `l` of a page is the login page's URL line: it names the
/// page URL and holds the configured login URL, lower-cased and cut at its
/// query.
pub open spec fn is_login_url_line(l: Seq<char>, cfg: AppConfig) -> bool {
    let low = spec_to_lowercase(l);
    let url = spec_to_lowercase(cfg.spec_login_url());
    let key = match spec_find(url, seq!['?']) {
        Some(q) => url.take(q),
        None => url,
    };
    spec_contains(low, "page url:"@) && spec_contains(low, key)
}

/// The page after submitting decides the login only while the browser is
/// still on the login page: when no line of that page is the login URL line,
/// the login completes, whatever else the page shows (words like "error" or
/// "Hinweis" included). Still on the login page and showing an error, a
/// hint or "Fehler", the login fails.
pub proof fn law_login_verdict(post: Seq<char>, cfg: AppConfig, dir: Seq<char>, counter: u32)
    ensures
        (forall|i: int| 0 <= i < spec_lines(post).len() ==> !is_login_url_line(#[trigger] spec_lines(post)[i], cfg))
            ==> login_next(LoginState::AwaitPostSnapshot, LoginEventView::Snapshot(post), cfg, dir, counter)
            == (LoginState::Finished, LoginActionView::FinishOk(
                "Login completed. Post-login snapshot: "@ + spec_truncate(post, 300),
            )),
        ((exists|i: int| 0 <= i < spec_lines(post).len() && is_login_url_line(#[trigger] spec_lines(post)[i], cfg))
            && (spec_contains(spec_to_lowercase(post), "error"@) || spec_contains(spec_to_lowercase(post), "fehler"@)
            || spec_contains(spec_to_lowercase(post), "hinweis"@)))
            ==> login_next(LoginState::AwaitPostSnapshot, LoginEventView::Snapshot(post), cfg, dir, counter)
            == (LoginState::Finished, LoginActionView::FinishErr(
                "Login failed \u{2014} still on login page with errors. Snapshot: "@ + spec_truncate(post, 500),
            )),
{
    let ls = spec_lines(post);
    if exists|i: int| 0 <= i < ls.len() && is_login_url_line(#[trigger] ls[i], cfg) {
        let i = choose|i: int| 0 <= i < ls.len() && is_login_url_line(#[trigger] ls[i], cfg);
        assert(spec_contains(spec_to_lowercase(ls[i]), "page url:"@));
    }
    if still_on_login(post, cfg) {
        let i = choose|i: int|
            0 <= i < ls.len() && spec_contains(spec_to_lowercase(#[trigger] ls[i]), "page url:"@)
                && spec_contains(spec_to_lowercase(ls[i]), before_char(spec_to_lowercase(cfg.spec_login_url()), '?'));
        assert(is_login_url_line(ls[i], cfg));
    }
}

/// How many browser steps a login can still ask for, at most, from a state.
pub open spec fn login_rank(st: LoginState) -> nat {
    match st {
        LoginState::Start => 20,
        LoginState::AwaitNavigate => 19,
        LoginState::AwaitPageLoad => 18,
        LoginState::AwaitLoginSnapshot => 17,
        LoginState::AwaitCookieClick => 16,
        LoginState::AwaitCookieSettle => 15,
        LoginState::AwaitFormSnapshot => 14,
        LoginState::AwaitMainClick => 13,
        LoginState::AwaitMainSettle => 12,
        LoginState::AwaitMainSnapshot => 11,
        LoginState::AwaitScriptWait => 10,
        LoginState::AwaitScriptSnapshot => 9,
        LoginState::AwaitUsernameFill => 8,
        LoginState::AwaitPasswordSnapshot => 7,
        LoginState::AwaitPasswordFill => 6,
        LoginState::AwaitSubmitSnapshot => 5,
        LoginState::AwaitSubmit => 4,
        LoginState::AwaitDashboard => 3,
        LoginState::AwaitScreenshot => 2,
        LoginState::AwaitPostSnapshot => 1,
        LoginState::Finished => 0,
    }
}

/// A login always ends: every step moves to a state closer to the end, so a
/// login takes at most twenty browser steps; and it ends exactly when its
/// action is a finish.
pub proof fn law_login_progress(
    st: LoginState,
    ev: LoginEventView,
    cfg: AppConfig,
    dir: Seq<char>,
    counter: u32,
)
    requires
        event_fits(st, ev, cfg),
    ensures
        login_rank(login_next(st, ev, cfg, dir, counter).0) < login_rank(st),
        (login_next(st, ev, cfg, dir, counter).0 == LoginState::Finished) <==> (login_next(
            st,
            ev,
            cfg,
            dir,
            counter,
        ).1 is FinishOk || login_next(st, ev, cfg, dir, counter).1 is FinishErr),
{
}

} // verus!
