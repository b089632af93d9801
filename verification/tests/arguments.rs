use gojo::args::{parse_arguments, ParsedArguments};

fn tokens(words: &[&str]) -> Vec<String> {
    words.iter().map(|w| w.to_string()).collect()
}

fn entries(parsed: &ParsedArguments) -> Vec<(String, Option<String>)> {
    let mut out = Vec::new();
    let mut i = 0;
    while i < parsed.len() {
        let flag = parsed.flag(i);
        out.push((flag.name.clone(), flag.value.clone()));
        i += 1;
    }
    out
}

fn entry(name: &str, value: Option<&str>) -> (String, Option<String>) {
    (name.to_string(), value.map(|v| v.to_string()))
}

#[test]
fn no_tokens_no_flags() {
    let parsed = parse_arguments(&[]);
    assert_eq!(parsed.len(), 0);
    assert!(parsed.get("--std").is_none());
}

#[test]
fn flag_with_equals_is_split_at_the_first_one() {
    let parsed = parse_arguments(&tokens(&["--std=17", "--define=a=b", "--empty="]));
    assert_eq!(
        entries(&parsed),
        vec![
            entry("--std", Some("17")),
            entry("--define", Some("a=b")),
            entry("--empty", Some("")),
        ]
    );
}

#[test]
fn flag_without_equals_takes_the_next_token() {
    let parsed = parse_arguments(&tokens(&["--std", "17", "-s", "cpp"]));
    assert_eq!(entries(&parsed), vec![entry("--std", Some("17")), entry("-s", Some("cpp"))]);
}

#[test]
fn flag_at_the_end_has_no_value() {
    let parsed = parse_arguments(&tokens(&["--std", "17", "--quiet"]));
    assert_eq!(entries(&parsed), vec![entry("--std", Some("17")), entry("--quiet", None)]);
    assert_eq!(parsed.get("--quiet"), Some(&None));
}

#[test]
fn flag_swallows_a_following_flag() {
    let parsed = parse_arguments(&tokens(&["--no-test", "--quiet"]));
    assert_eq!(entries(&parsed), vec![entry("--no-test", Some("--quiet"))]);
    assert!(parsed.get("--quiet").is_none());
}

#[test]
fn stray_token_is_recorded_without_a_value() {
    let parsed = parse_arguments(&tokens(&["stray", "--std", "17", "other"]));
    assert_eq!(
        entries(&parsed),
        vec![entry("stray", None), entry("--std", Some("17")), entry("other", None)]
    );
}

#[test]
fn stray_token_with_equals_is_not_split() {
    let parsed = parse_arguments(&tokens(&["a=b"]));
    assert_eq!(entries(&parsed), vec![entry("a=b", None)]);
}

#[test]
fn repeated_flag_keeps_its_place_and_takes_the_last_value() {
    let parsed = parse_arguments(&tokens(&["--std=11", "-q", "x", "--std", "23"]));
    assert_eq!(entries(&parsed), vec![entry("--std", Some("23")), entry("-q", Some("x"))]);
    assert_eq!(parsed.get("--std"), Some(&Some(String::from("23"))));
    assert_eq!(parsed.find("-q"), 1);
    assert_eq!(parsed.find("--absent"), 2);
}

#[test]
fn single_dash_is_a_flag() {
    let parsed = parse_arguments(&tokens(&["-", "value"]));
    assert_eq!(entries(&parsed), vec![entry("-", Some("value"))]);
}

#[test]
fn empty_token_is_no_flag() {
    let parsed = parse_arguments(&tokens(&["", "--x"]));
    assert_eq!(entries(&parsed), vec![entry("", None), entry("--x", None)]);
}

#[test]
fn insert_overwrites_in_place() {
    let mut parsed = ParsedArguments::new();
    parsed.insert(String::from("-a"), None);
    parsed.insert(String::from("-b"), Some(String::from("1")));
    parsed.insert(String::from("-a"), Some(String::from("2")));
    assert_eq!(entries(&parsed), vec![entry("-a", Some("2")), entry("-b", Some("1"))]);
}
