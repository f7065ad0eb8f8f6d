use serde::Deserialize;
use serde_dyn::SerdeDynError;

fn decode_error() -> ron::Error {
    let mut source = ron::de::Deserializer::from_str("abc").unwrap();
    i32::deserialize(&mut source).unwrap_err()
}

#[test]
fn from_decode_keeps_value_and_wraps_error() {
    let decoded: Result<i32, String> = Ok(3);
    assert_eq!(SerdeDynError::from_decode(decoded), Ok(3));

    let failed: Result<i32, String> = Err("broken".to_string());
    assert_eq!(
        SerdeDynError::from_decode(failed),
        Err(SerdeDynError::DeserializerError("broken".to_string()))
    );
}

#[test]
fn the_two_errors_differ() {
    let not_found: SerdeDynError<String> = SerdeDynError::UuidNotFound;
    let failed = SerdeDynError::DeserializerError("broken".to_string());
    assert_ne!(not_found, failed);
    assert_eq!(not_found.clone(), SerdeDynError::UuidNotFound);
    assert_eq!(failed.clone(), failed);
    assert_ne!(failed, SerdeDynError::DeserializerError("other".to_string()));
}

#[test]
fn display_of_unknown_identifier() {
    let error: SerdeDynError<ron::Error> = SerdeDynError::UuidNotFound;
    assert_eq!(error.display_string(), "Uuid requested not found in TUSM.");
    assert_eq!(error.display_with("unused"), "Uuid requested not found in TUSM.");
}

#[test]
fn display_of_decode_failure() {
    let inner = decode_error();
    let error = SerdeDynError::DeserializerError(inner.clone());
    assert_eq!(error.display_string(), format!("Deserialization error: {}", inner));
    assert_eq!(error.display_with("bad input"), "Deserialization error: bad input");
    assert_eq!(error.display_with(""), "Deserialization error: ");
}

#[test]
fn debug_of_unknown_identifier() {
    let error: SerdeDynError<ron::Error> = SerdeDynError::UuidNotFound;
    assert_eq!(error.debug_string(), "UuidNotFound");
    assert_eq!(error.debug_with("unused"), "UuidNotFound");
    assert_eq!(format!("{:?}", error), "UuidNotFound");
}

#[test]
fn debug_of_decode_failure() {
    let inner = decode_error();
    let error = SerdeDynError::DeserializerError(inner.clone());
    assert_eq!(error.debug_string(), format!("DeserializerError({:?})", inner));
    assert_eq!(error.debug_string(), format!("{:?}", error));
    assert_eq!(error.debug_with("Inner"), "DeserializerError(Inner)");

    let text = SerdeDynError::DeserializerError("a\"b".to_string());
    assert_eq!(text.debug_string(), "DeserializerError(\"a\\\"b\")");
}
