use pageview::error::RendererError;

#[test]
fn renderer_error_codes() {
    assert_eq!(RendererError::UNKNOWN.code(), 0);
    assert_eq!(RendererError::FAIL.code(), 1);
    assert_eq!(RendererError::SUCCESS.code(), 2);
}
