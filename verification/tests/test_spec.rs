use goose_webtest::config::test_spec::{TestScenario, TestSpec};

#[test]
fn test_parse_markdown_spec() {
    let md = r#"# Sparkasse Demo - Basic Tests
- After login, check that account balance (Kontostand) is visible
- Navigate to account transactions (Umsätze)
- Verify the transaction list shows recent entries
"#;
    let spec = TestSpec::from_markdown(md).unwrap();
    assert_eq!(spec.title, "Sparkasse Demo - Basic Tests");
    assert_eq!(spec.scenarios.len(), 3);
    assert!(spec.scenarios[0].description.contains("account balance"));
}

#[test]
fn test_to_prompt() {
    let spec = TestSpec {
        title: "Test".to_string(),
        scenarios: vec![
            TestScenario { description: "Check login".to_string() },
            TestScenario { description: "Check dashboard".to_string() },
        ],
    };
    let prompt = spec.to_prompt();
    assert!(prompt.contains("1. Check login"));
    assert!(prompt.contains("2. Check dashboard"));
}

#[test]
fn markdown_without_heading_is_unnamed() {
    let spec = TestSpec::from_markdown("* first\n  - second  \n-   \nplain text\n").unwrap();
    assert_eq!(spec.title, "Unnamed Test Spec");
    let ds: Vec<&str> = spec.scenarios.iter().map(|s| s.description.as_str()).collect();
    assert_eq!(ds, vec!["first", "second"]);
}

#[test]
fn markdown_last_heading_wins_and_bullets_keep_order() {
    let spec = TestSpec::from_markdown("# One\n- a\r\n# Two\n* b\n## sub\n").unwrap();
    assert_eq!(spec.title, "Two");
    let ds: Vec<&str> = spec.scenarios.iter().map(|s| s.description.as_str()).collect();
    assert_eq!(ds, vec!["a", "b"]);
}

#[test]
fn prompt_is_exact() {
    let spec = TestSpec {
        title: "Test".to_string(),
        scenarios: vec![
            TestScenario { description: "Check login".to_string() },
            TestScenario { description: "Check dashboard".to_string() },
        ],
    };
    assert_eq!(
        spec.to_prompt(),
        "Execute the following test scenarios for 'Test':\n\n1. Check login\n2. Check dashboard\n\nFor each scenario:\n- Navigate to the relevant page\n- Perform the described actions\n- Use assert tools to validate expected outcomes\n- Take a screenshot at each important step\n- Log pass/fail for each scenario with log_step\n"
    );
}
