use dpc_core::boolean::Boolean;
use dpc_core::error::Error;

#[test]
fn test_parse() {
    // Ensure type and empty value fails.
    assert!(Boolean::parse(Boolean::name_of_type()).is_err());
    assert!(Boolean::parse("").is_err());

    for boolean in &[true, false] {
        let expected = format!("{}", boolean);
        let (remainder, candidate) = Boolean::parse(&expected).unwrap();
        assert_eq!(format!("{expected}"), candidate.to_string());
        assert_eq!("", remainder);
    }
}

#[test]
fn test_display() {
    /// Attempts to construct a boolean from the given element,
    /// format it in display mode, and recover a boolean from it.
    fn check_display(element: bool) {
        let candidate = Boolean::new(element);
        assert_eq!(format!("{element}"), candidate.to_string());

        let candidate_recovered = Boolean::from_str(&candidate.to_string()).unwrap();
        assert_eq!(candidate, candidate_recovered);
    }

    check_display(false);
    check_display(true);
}

#[test]
fn test_display_false() {
    // Constant
    let candidate = Boolean::new(false);
    assert_eq!("false", &candidate.to_string());
}

#[test]
fn test_display_true() {
    // Constant
    let candidate = Boolean::new(true);
    assert_eq!("true", &candidate.to_string());
}

#[test]
fn parse_leaves_the_rest_of_the_string() {
    let (remainder, candidate) = Boolean::parse("truefalse").unwrap();
    assert_eq!(remainder, "false");
    assert!(candidate.value());
    let (remainder, candidate) = Boolean::parse("false.private").unwrap();
    assert_eq!(remainder, ".private");
    assert!(!candidate.value());
    let (remainder, _) = Boolean::parse("true\u{e9}t\u{e9}").unwrap();
    assert_eq!(remainder, "\u{e9}t\u{e9}");
}

#[test]
fn parse_rejects_what_is_no_boolean() {
    for string in ["boolean", "", "tru", "fals", "True", " true", "t", "\u{e9}true", "1"] {
        assert_eq!(Boolean::parse(string), Err(Error::Parse));
        assert_eq!(Boolean::from_str(string), Err(Error::Parse));
    }
}

#[test]
fn from_str_wants_the_whole_string() {
    assert_eq!(Boolean::from_str("true"), Ok(Boolean::new(true)));
    assert_eq!(Boolean::from_str("false"), Ok(Boolean::new(false)));
    assert_eq!(Boolean::from_str("true "), Err(Error::TrailingCharacters));
    assert_eq!(Boolean::from_str("falsetrue"), Err(Error::TrailingCharacters));
    assert_eq!(Boolean::name_of_type(), "boolean");
}
