use goose_webtest::text::{
    chars_of, contains, find, join, lines, padded, path_join, replace, split_last, starts_with,
    str_eq, trim, trim_start_matches,
};

fn s(v: Vec<char>) -> String {
    v.into_iter().collect()
}

#[test]
fn searching() {
    let h = chars_of("abcabc");
    assert_eq!(find(&h, &chars_of("ca")), Some(2));
    assert_eq!(find(&h, &chars_of("x")), None);
    assert!(contains(&h, &chars_of("")));
    assert!(starts_with(&h, &chars_of("ab")));
    assert!(!starts_with(&h, &chars_of("abcabcd")));
    assert!(str_eq("ü", "ü") && !str_eq("a", "ab"));
}

#[test]
fn trimming_and_lines() {
    assert_eq!(s(trim(&chars_of("\t a b \n"))), "a b");
    assert_eq!(s(trim_start_matches(&chars_of("# # x"), &chars_of("# "))), "x");
    let ls: Vec<String> = lines(&chars_of("a\r\nb\n\nc\n")).into_iter().map(s).collect();
    assert_eq!(ls, "a\r\nb\n\nc\n".lines().collect::<Vec<_>>());
    let ls: Vec<String> = lines(&chars_of("")).into_iter().map(s).collect();
    assert!(ls.is_empty());
}

#[test]
fn formatting() {
    assert_eq!(s(padded(5, 3)), "005");
    assert_eq!(s(padded(1234, 2)), "1234");
    assert_eq!(path_join("", &chars_of("a.png")), "a.png");
    assert_eq!(path_join("/d/", &chars_of("a.png")), "/d/a.png");
    assert_eq!(path_join("d", &chars_of("a.png")), "d/a.png");
    assert_eq!(s(replace(&chars_of("aXbX"), &chars_of("X"), &chars_of("yy"))), "ayybyy");
    assert_eq!(s(split_last(&chars_of("a page url: b page url: c"), &chars_of("page url:"))), " c");
    assert_eq!(join(&vec!["a".to_string(), "b".to_string()], ", "), "a, b");
    assert_eq!(join(&vec![], ", "), "");
}
