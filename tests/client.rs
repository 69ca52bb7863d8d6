use llm_sdk::{
    check_reply, CreateImageRequest, HttpMethod, IntoRequest, SdkError, ImageQuality, LLMSDK,
    TIMEOUT,
};

#[test]
fn empty_token_sends_no_authorization() {
    let sdk = LLMSDK::new(String::new());
    let req = sdk.prepare_request(CreateImageRequest::new("draw a cute caterpillar".to_string()));
    assert!(req.authorization.is_none());
}

#[test]
fn token_sends_bearer_authorization() {
    let sdk = LLMSDK::new("sk-abc".to_string());
    assert_eq!(sdk.token(), "sk-abc");
    let req = sdk.prepare_request(CreateImageRequest::new("draw a cute caterpillar".to_string()));
    assert_eq!(req.authorization.as_deref(), Some("Bearer sk-abc"));
}

#[test]
fn prepared_call_is_a_bounded_post() {
    let sdk = LLMSDK::new("t".to_string());
    let model = CreateImageRequest {
        prompt: "draw a cute caterpillar".into(),
        quality: Some(ImageQuality::Hd),
        ..Default::default()
    };
    let body = model.body();
    let req = sdk.prepare_request(model);
    assert_eq!(req.method, HttpMethod::Post);
    assert_eq!(req.url, "https://api.openai.com/v1/images/generations");
    assert_eq!(req.body, body);
    assert_eq!(req.timeout_secs, Some(30));
    assert_eq!(TIMEOUT, 30);
}

#[test]
fn bare_request_has_no_auth_and_no_timeout() {
    let req = CreateImageRequest::new("x".to_string()).into_request();
    assert_eq!(req.method, HttpMethod::Post);
    assert!(req.authorization.is_none());
    assert!(req.timeout_secs.is_none());
    assert_eq!(req.body, r#"{"prompt":"x","model":"dall-e-3"}"#);
}

#[test]
fn success_reply_goes_on() {
    let r = check_reply(200, "{}".to_string());
    assert!(matches!(r, Ok(ref b) if b == "{}"));
    let r = check_reply(299, "b".to_string());
    assert!(matches!(r, Ok(ref b) if b == "b"));
}

#[test]
fn error_reply_is_remote_error() {
    let r = check_reply(401, "{\"error\":{}}".to_string());
    match r {
        Err(SdkError::Remote { status, body }) => {
            assert_eq!(status, 401);
            assert_eq!(body, "{\"error\":{}}");
        }
        _ => panic!("expected a remote error"),
    }
    assert!(matches!(check_reply(199, String::new()), Err(SdkError::Remote { status: 199, .. })));
    assert!(matches!(check_reply(300, String::new()), Err(SdkError::Remote { status: 300, .. })));
    assert!(matches!(check_reply(500, String::new()), Err(SdkError::Remote { status: 500, .. })));
}
