use easyalgolia::error::debug_layout_of;
use easyalgolia::error::EasyAlgoliaError;
use easyalgolia::error::ErrorKind;

#[test]
fn an_error_keeps_kind_and_cause() {
    let e = EasyAlgoliaError::new(ErrorKind::ClientError, Some(String::from("why")));
    assert_eq!(e.error_kind(), ErrorKind::ClientError);
    assert_eq!(e.cause(), Some("why"));
    let e = EasyAlgoliaError::new(ErrorKind::ClientBuilderError, None);
    assert_eq!(e.error_kind(), ErrorKind::ClientBuilderError);
    assert_eq!(e.cause(), None);
}

#[test]
fn kinds_have_their_names() {
    assert_eq!(ErrorKind::RequestError.name(), "RequestError");
    assert_eq!(ErrorKind::ClientBuilderError.name(), "ClientBuilderError");
    assert_eq!(ErrorKind::ClientError.name(), "ClientError");
    assert_eq!(format!("{:?}", ErrorKind::RequestError), "RequestError");
}

#[test]
fn a_request_error_prints_its_cause_bare_and_without_quotes() {
    let e = EasyAlgoliaError::new(
        ErrorKind::RequestError,
        Some(String::from("{\"message\":\"Invalid key\"}")),
    );
    assert_eq!(
        e.debug_string(),
        "EasyAlgoliaError { error_kind: RequestError, cause: \"{message:Invalid key}\" }"
    );
}

#[test]
fn a_request_error_without_cause_prints_only_its_kind() {
    let e = EasyAlgoliaError::new(ErrorKind::RequestError, None);
    assert_eq!(e.debug_string(), "EasyAlgoliaError { error_kind: RequestError}");
}

#[test]
fn other_errors_print_the_cause_as_an_option() {
    let e = EasyAlgoliaError::new(ErrorKind::ClientBuilderError, Some(String::from("no \"key\"")));
    assert_eq!(
        e.debug_string(),
        "EasyAlgoliaError { error_kind: ClientBuilderError, cause: Some(\"no \\\"key\\\"\") }"
    );
    let e = EasyAlgoliaError::new(ErrorKind::ClientError, None);
    assert_eq!(e.debug_string(), "EasyAlgoliaError { error_kind: ClientError, cause: None }");
}

#[test]
fn the_cause_is_escaped_as_debug_escapes() {
    let e = EasyAlgoliaError::new(ErrorKind::RequestError, Some(String::from("line\nbreak\ttab\\")));
    assert_eq!(
        e.debug_string(),
        "EasyAlgoliaError { error_kind: RequestError, cause: \"line\\nbreak\\ttab\\\\\" }"
    );
}

#[test]
fn the_layout_takes_the_cause_as_it_is_given() {
    assert_eq!(
        debug_layout_of(ErrorKind::RequestError, Some("Q")),
        "EasyAlgoliaError { error_kind: RequestError, cause: Q }"
    );
    assert_eq!(
        debug_layout_of(ErrorKind::RequestError, None),
        "EasyAlgoliaError { error_kind: RequestError}"
    );
    assert_eq!(
        debug_layout_of(ErrorKind::ClientError, Some("Q")),
        "EasyAlgoliaError { error_kind: ClientError, cause: Some(Q) }"
    );
    assert_eq!(
        debug_layout_of(ErrorKind::ClientBuilderError, None),
        "EasyAlgoliaError { error_kind: ClientBuilderError, cause: None }"
    );
}

#[test]
fn every_error_displays_the_same_message() {
    let e = EasyAlgoliaError::new(ErrorKind::RequestError, Some(String::from("x")));
    assert_eq!(e.display_string(), "An error occurred in EasyAlgolia: ...");
    let e = EasyAlgoliaError::new(ErrorKind::ClientError, None);
    assert_eq!(e.display_string(), "An error occurred in EasyAlgolia: ...");
}

#[test]
fn a_transport_error_becomes_a_request_error_without_cause() {
    let failed = reqwest::Client::new().get("not a url").build();
    let err = match failed {
        Ok(_) => panic!("a request to nowhere"),
        Err(err) => err,
    };
    let e = EasyAlgoliaError::from(err);
    assert_eq!(e.error_kind(), ErrorKind::RequestError);
    assert_eq!(e.cause(), None);
}
