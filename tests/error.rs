use matrixapi::error::decimal_text;
use matrixapi::APIErrorMessage;
use matrixapi::APIErrorResponse;
use matrixapi::MatrixAPIError;

#[test]
fn message_for_undefined_server() {
    let e = MatrixAPIError::ServerNotDefined("home".to_string());
    assert_eq!(e.message(), "The given server home is not defined");
}

#[test]
fn message_for_each_text_variant() {
    assert_eq!(
        MatrixAPIError::ConfigFileError("gone".to_string()).message(),
        "There was an error with the config file: gone"
    );
    assert_eq!(
        MatrixAPIError::AccessTokenError("bad".to_string()).message(),
        "There was an error reading the access token: bad"
    );
    assert_eq!(
        MatrixAPIError::ReqwestError("timeout".to_string()).message(),
        "There was an error during the HTTP request: timeout"
    );
}

#[test]
fn message_for_api_error() {
    let body = APIErrorResponse {
        errcode: "M_FORBIDDEN".to_string(),
        error: "Forbidden".to_string(),
        soft_logout: Some(false),
    };
    let e = MatrixAPIError::APIRequestError(APIErrorMessage::new(body, 403));
    assert_eq!(
        e.message(),
        "There was an error running the API request.\n\terror:\t\"Forbidden\"\n\terrcode\t\"M_FORBIDDEN\"\n\tstatus:\t403"
    );
}

#[test]
fn error_message_new_keeps_fields() {
    let body = APIErrorResponse {
        errcode: "M_X".to_string(),
        error: "x".to_string(),
        soft_logout: None,
    };
    let m = APIErrorMessage::new(body, 500);
    assert_eq!(m.status_code, 500);
    assert_eq!(m.api_error_response.errcode, "M_X");
}

#[test]
fn decimal_text_values() {
    assert_eq!(decimal_text(0), "0");
    assert_eq!(decimal_text(7), "7");
    assert_eq!(decimal_text(10), "10");
    assert_eq!(decimal_text(404), "404");
    assert_eq!(decimal_text(65535), "65535");
}
