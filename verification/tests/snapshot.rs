use goose_webtest::discover::{
    cookie_decline_ref, find_nth_ref, find_ref, form_line, login_button_ref, password_ref, shows_dashboard,
    shows_error_hint, submit_line, username_ref,
};
use goose_webtest::steps::agentic::{
    extract_ref, find_button_ref_ctx, find_button_ref_prioritized, find_input_ref_ctx, find_kind_ref,
    find_link_ref, find_nth_textbox, sanitize, truncate,
};

const LOGIN_PAGE: &str = "- Page URL: https://bank.example/login?x=1\n\
- generic [ref=e10]: Anmeldename\n\
- textbox [ref=e11]\n\
- textbox \"Online-Banking-PIN\" [ref=e12]\n\
- button \"Anmelden\" [ref=e13]\n\
- link \"Cookies ablehnen\" [ref=e14]\n\
- button \"Login\" [ref=e15]";

#[test]
fn extract_ref_forms() {
    assert_eq!(extract_ref("- textbox [ref=e46]: chipDEMO").as_deref(), Some("e46"));
    assert_eq!(extract_ref("button ref=e7_x, more").as_deref(), Some("e7_x"));
    assert_eq!(extract_ref("[ref=] then ref=ab"), None);
    assert_eq!(extract_ref("no reference here"), None);
    assert_eq!(extract_ref("ref=!"), None);
}

#[test]
fn buttons_links_and_kinds() {
    assert_eq!(find_button_ref_ctx(LOGIN_PAGE, &["ANMELDEN"]).as_deref(), Some("e13"));
    assert_eq!(find_button_ref_ctx(LOGIN_PAGE, &["ablehnen"]), None);
    assert_eq!(find_link_ref(LOGIN_PAGE, &["ablehnen", "reject"]).as_deref(), Some("e14"));
    assert_eq!(find_kind_ref(LOGIN_PAGE, "textbox", &["pin"]).as_deref(), Some("e12"));
    assert_eq!(
        find_button_ref_prioritized(LOGIN_PAGE, &[&["sign in"], &["login"]]).as_deref(),
        Some("e15")
    );
    assert_eq!(
        find_button_ref_prioritized(LOGIN_PAGE, &[&["anmelden"], &["login"]]).as_deref(),
        Some("e13")
    );
    assert_eq!(find_button_ref_prioritized(LOGIN_PAGE, &[&["nothing"]]), None);
}

#[test]
fn textboxes_by_position_and_context() {
    assert_eq!(find_nth_textbox(LOGIN_PAGE, 0).as_deref(), Some("e11"));
    assert_eq!(find_nth_textbox(LOGIN_PAGE, 1).as_deref(), Some("e12"));
    assert_eq!(find_nth_textbox(LOGIN_PAGE, 2), None);
    // Inline label first, then a label on a neighbouring line.
    assert_eq!(find_input_ref_ctx(LOGIN_PAGE, &["pin"]).as_deref(), Some("e12"));
    assert_eq!(find_input_ref_ctx(LOGIN_PAGE, &["anmeldename"]).as_deref(), Some("e11"));
    assert_eq!(find_input_ref_ctx(LOGIN_PAGE, &["ablehnen"]).as_deref(), Some("e12"));
    assert_eq!(find_input_ref_ctx(LOGIN_PAGE, &["nothing"]), None);
    let far = "- generic: Anmeldename\n- x\n- y\n- z\n- textbox [ref=e1]";
    assert_eq!(find_input_ref_ctx(far, &["anmeldename"]), None);
}

#[test]
fn nth_textbox_stops_at_a_textbox_without_reference() {
    let s = "- textbox unnamed\n- textbox [ref=e2]";
    assert_eq!(find_nth_textbox(s, 0), None);
    assert_eq!(find_nth_textbox(s, 1).as_deref(), Some("e2"));
}

#[test]
fn discovery_references() {
    assert_eq!(find_ref(LOGIN_PAGE, "link", "ablehnen").as_deref(), Some("e14"));
    assert_eq!(find_ref(LOGIN_PAGE, "textbox", "pin").as_deref(), Some("e12"));
    assert_eq!(find_ref(LOGIN_PAGE, "textbox", "nothing"), None);
    assert_eq!(find_nth_ref(LOGIN_PAGE, "textbox", 0).as_deref(), Some("e11"));
    assert_eq!(find_nth_ref(LOGIN_PAGE, "textbox", 1).as_deref(), Some("e12"));
    assert_eq!(find_nth_ref(LOGIN_PAGE, "textbox", 2), None);
    // Unlike the step lookups, an empty reference is kept.
    assert_eq!(find_ref("- button [ref=] ok", "button", "ok").as_deref(), Some(""));
    assert_eq!(find_nth_ref("- textbox x\n- textbox [ref=e2]", "textbox", 0), None);
}

#[test]
fn discovery_filters() {
    assert!(form_line("- TextBox [ref=e1]"));
    assert!(form_line("- generic: Online-Banking PIN"));
    assert!(!form_line("- heading Welcome"));
    assert!(submit_line("- textbox [ref=e1]"));
    assert!(submit_line("- button \"Anmelden\""));
    assert!(!submit_line("- link \"Anmelden\""));
    assert!(shows_error_hint("Ein Fehler ist aufgetreten"));
    assert!(!shows_error_hint("Willkommen"));
    assert!(shows_dashboard("Ihr Kontostand"));
    assert!(shows_dashboard("UMSÄTZE"));
    assert!(!shows_dashboard("Login"));
}

#[test]
fn sanitize_file_labels() {
    assert_eq!(sanitize("Hello, World!"), "Hello__World_");
    assert_eq!(sanitize("a-b_c ü"), "a-b_c_ü");
    let long = "x".repeat(40);
    assert_eq!(sanitize(&long), "x".repeat(30));
}

#[test]
fn truncate_cuts_bytes() {
    assert_eq!(truncate("hello", 10), "hello");
    assert_eq!(truncate("hello", 3), "hel");
    assert_eq!(truncate("hello", 5), "hello");
}

#[test]
fn discovery_field_choices() {
    assert_eq!(cookie_decline_ref(LOGIN_PAGE).as_deref(), Some("e14"));
    assert_eq!(login_button_ref(LOGIN_PAGE).as_deref(), Some("e13"));
    // No text box is named for the login name: the first one is taken.
    assert_eq!(username_ref(LOGIN_PAGE).as_deref(), Some("e11"));
    assert_eq!(username_ref("- textbox [ref=e1]\n- textbox \"Anmeldename\" [ref=e2]").as_deref(), Some("e2"));
    assert_eq!(password_ref(LOGIN_PAGE).as_deref(), Some("e12"));
    assert_eq!(
        password_ref("- textbox [ref=e1]\n- textbox \"Zugang online-banking\" [ref=e3]\n- textbox [ref=e4]").as_deref(),
        Some("e3")
    );
    assert_eq!(password_ref("- textbox [ref=e1]\n- textbox [ref=e4]").as_deref(), Some("e4"));
    assert_eq!(password_ref("- textbox [ref=e1]"), None);
    assert_eq!(username_ref("- heading"), None);
}
