use nftscape::error::{ApiError, OpenSeaApiError, RaribleApiError};

#[test]
fn unauthorized_text() {
    assert_eq!(ApiError::Unauthorized.to_string(), "Unauthorized request to API");
}

#[test]
fn other_text_carries_status() {
    assert_eq!(ApiError::Other(503).to_string(), "API reported error code 503");
    assert_eq!(ApiError::Other(0).to_string(), "API reported error code 0");
    assert_eq!(ApiError::Other(65535).to_string(), "API reported error code 65535");
}

#[test]
fn opensea_text() {
    let e: ApiError = OpenSeaApiError { success: false }.into();
    assert_eq!(e.to_string(), "OpenSea Server success false");
    let e: ApiError = OpenSeaApiError { success: true }.into();
    assert_eq!(e.to_string(), "OpenSea Server success true");
}

#[test]
fn rarible_text() {
    let r = RaribleApiError { status: -3, code: "BAD".to_string(), message: "no".to_string() };
    assert_eq!(r.to_string(), "status: `-3`, code: `BAD`, message: `no`");
    let e: ApiError = r.into();
    assert_eq!(e.to_string(), "status: `-3`, code: `BAD`, message: `no`");
}
