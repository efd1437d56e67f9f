use ovh::error::OvhError;

#[test]
fn every_error_has_its_message() {
    assert_eq!(OvhError::UnknownEndpoint.message(), "unknown endpoint");
    assert_eq!(
        OvhError::MissingConfigKey(String::from("endpoint")).message(),
        "missing key `endpoint`"
    );
    assert_eq!(OvhError::NetworkError.message(), "network issue");
    assert_eq!(
        OvhError::ApiError(404, String::from("{\"message\":\"gone\"}")).message(),
        "api error 404: {\"message\":\"gone\"}"
    );
    assert_eq!(OvhError::SerializationError.message(), "serialization issue");
    assert_eq!(OvhError::ParseError.message(), "parse issue");
    assert_eq!(OvhError::OutOfRange.message(), "value out of range");
}

#[test]
fn errors_clone_to_equal_errors() {
    let errors = [
        OvhError::UnknownEndpoint,
        OvhError::MissingConfigKey(String::from("consumer_key")),
        OvhError::NetworkError,
        OvhError::ApiError(500, String::from("oops")),
        OvhError::SerializationError,
        OvhError::ParseError,
        OvhError::OutOfRange,
    ];
    for e in errors.iter() {
        assert_eq!(&e.clone(), e);
    }
    assert_ne!(OvhError::ApiError(500, String::from("a")), OvhError::ApiError(500, String::from("b")));
    assert_ne!(OvhError::ApiError(500, String::from("a")), OvhError::ApiError(501, String::from("a")));
}
