use qwen::err::{Error, RequestFailure};

#[test]
fn error_texts() {
    assert_eq!(
        Error::ClientError(RequestFailure { text: "timed out".to_string(), status: None, is_timeout: true }).to_string(),
        "An error occurred when processing a request: timed out"
    );
    assert_eq!(
        Error::InvalidHeaderValue("failed to parse header value".to_string()).to_string(),
        "Invalid configuration provided: failed to parse header value"
    );
    assert_eq!(
        Error::BackendError { message: "Invalid API-key provided.".to_string(), code: "InvalidApiKey".to_string() }
            .to_string(),
        "An error (code: InvalidApiKey) occurred on the API backend: Invalid API-key provided."
    );
    assert_eq!(
        Error::InvalidEnvValue("environment variable not found".to_string()).to_string(),
        "Invalid env value: environment variable not found"
    );
}
