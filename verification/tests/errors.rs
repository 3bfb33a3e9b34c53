use gl_helpers::Error;

#[test]
fn an_error_carries_its_message() {
    let error = Error::new("the driver said no");
    assert_eq!(error.to_string(), "the driver said no");
}

#[test]
fn an_error_can_be_empty() {
    assert_eq!(Error::new("").to_string(), "");
}

#[test]
fn a_cloned_error_has_the_same_message() {
    let error = Error::new("lost context");
    let copy = error.clone();
    assert_eq!(copy.to_string(), error.to_string());
}

#[test]
fn an_error_shows_its_message_when_debugged() {
    let shown = format!("{:?}", Error::new("boom"));
    assert!(shown.contains("boom"));
}
