use metabase_embed::{EmbedError, EmbedResponse};

#[test]
fn request_faults_are_400() {
    assert_eq!(EmbedError::MissingParameter.status_code(), 400);
    assert_eq!(EmbedError::InvalidParameter.status_code(), 400);
}

#[test]
fn serving_faults_are_500() {
    assert_eq!(EmbedError::MissingConfiguration.status_code(), 500);
    assert_eq!(EmbedError::SigningError.status_code(), 500);
    assert_eq!(EmbedError::ResponseConstructionError.status_code(), 500);
    assert_eq!(EmbedError::ClockError.status_code(), 500);
}

#[test]
fn messages_are_fixed() {
    assert_eq!(EmbedError::MissingParameter.message(), "missing query parameter: dashboard");
    assert_eq!(
        EmbedError::InvalidParameter.message(),
        "invalid query parameter: dashboard is not an unsigned integer"
    );
    assert_eq!(
        EmbedError::MissingConfiguration.message(),
        "missing configuration: signing key and target host must both be set"
    );
    assert_eq!(EmbedError::SigningError.message(), "signing failed");
    assert_eq!(
        EmbedError::ResponseConstructionError.message(),
        "response could not be constructed"
    );
    assert_eq!(EmbedError::ClockError.message(), "system clock out of range");
}

#[test]
fn ok_response_is_200_html() {
    let resp = EmbedResponse::ok(String::from("https://example.com/x"));
    assert_eq!(resp.status, 200);
    assert_eq!(resp.content_type, "text/html");
    assert_eq!(resp.body, "https://example.com/x");
}

#[test]
fn error_response_reports_status_and_text() {
    let all = [
        EmbedError::MissingParameter,
        EmbedError::InvalidParameter,
        EmbedError::MissingConfiguration,
        EmbedError::SigningError,
        EmbedError::ResponseConstructionError,
        EmbedError::ClockError,
    ];
    for e in all.iter() {
        let resp = EmbedResponse::error(*e);
        assert_eq!(resp.status, e.status_code());
        assert_ne!(resp.status, 200);
        assert_eq!(resp.content_type, "text/plain");
        assert_eq!(resp.body, e.message());
    }
}
