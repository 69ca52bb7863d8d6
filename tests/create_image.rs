use llm_sdk::{
    CreateImageRequest, ImageModel, ImageQuality, ImageResponseFormat, ImageSize, ImageStyle,
};

fn body_value(req: &CreateImageRequest) -> serde_json::Value {
    serde_json::from_str(&req.body()).expect("the body is JSON")
}

fn object(members: &[(&str, serde_json::Value)]) -> serde_json::Value {
    let mut map = serde_json::Map::new();
    for (k, v) in members {
        map.insert(k.to_string(), v.clone());
    }
    serde_json::Value::Object(map)
}

fn text(s: &str) -> serde_json::Value {
    serde_json::Value::String(s.to_string())
}

#[test]
fn test_image_request_serialize() {
    let req = CreateImageRequest::new("draw a cute caterpillar".to_string());
    assert_eq!(
        body_value(&req),
        object(&[
            ("prompt", text("draw a cute caterpillar")),
            ("model", text("dall-e-3")),
        ])
    );
}

#[test]
fn test_image_custom_request_serialize() {
    let req = CreateImageRequest {
        prompt: "draw a cute caterpillar".into(),
        quality: Some(ImageQuality::Hd),
        style: Some(ImageStyle::Natural),
        ..Default::default()
    };
    assert_eq!(
        body_value(&req),
        object(&[
            ("prompt", text("draw a cute caterpillar")),
            ("model", text("dall-e-3")),
            ("quality", text("hd")),
            ("style", text("natural")),
        ])
    );
}

#[test]
fn prompt_only_body_text() {
    let req = CreateImageRequest::new("draw a cute caterpillar".to_string());
    assert_eq!(req.body(), r#"{"prompt":"draw a cute caterpillar","model":"dall-e-3"}"#);
}

#[test]
fn custom_body_text() {
    let req = CreateImageRequest {
        prompt: "draw a cute caterpillar".into(),
        quality: Some(ImageQuality::Hd),
        style: Some(ImageStyle::Natural),
        ..Default::default()
    };
    assert_eq!(
        req.body(),
        r#"{"prompt":"draw a cute caterpillar","model":"dall-e-3","quality":"hd","style":"natural"}"#
    );
}

#[test]
fn every_field_set_in_order() {
    let req = CreateImageRequest {
        prompt: "a fox".into(),
        model: ImageModel::DallE3,
        n: Some(10),
        quality: Some(ImageQuality::Standard),
        response_format: Some(ImageResponseFormat::B64Json),
        size: Some(ImageSize::LargeTall),
        style: Some(ImageStyle::Vivid),
        user: Some("user-42".into()),
    };
    assert_eq!(
        req.body(),
        r#"{"prompt":"a fox","model":"dall-e-3","n":10,"quality":"standard","response_format":"b64_json","size":"1024x1792","style":"vivid","user":"user-42"}"#
    );
}

#[test]
fn unset_fields_have_no_key() {
    let req = CreateImageRequest {
        prompt: "p".into(),
        size: Some(ImageSize::LargeWide),
        ..Default::default()
    };
    let v = body_value(&req);
    let keys: Vec<&String> = v.as_object().unwrap().keys().collect();
    assert_eq!(keys.len(), 3);
    assert_eq!(v["size"], text("1792x1024"));
    assert!(v.get("n").is_none());
    assert!(v.get("quality").is_none());
    assert!(v.get("response_format").is_none());
    assert!(v.get("style").is_none());
    assert!(v.get("user").is_none());
    assert!(!req.body().contains("null"));
}

#[test]
fn count_zero_and_large() {
    let mut req = CreateImageRequest::new("p".to_string());
    req.n = Some(0);
    assert_eq!(req.body(), r#"{"prompt":"p","model":"dall-e-3","n":0}"#);
    req.n = Some(usize::MAX);
    assert_eq!(req.body(), format!(r#"{{"prompt":"p","model":"dall-e-3","n":{}}}"#, usize::MAX));
}

#[test]
fn wire_names() {
    assert_eq!(ImageModel::DallE3.as_str(), "dall-e-3");
    assert_eq!(ImageQuality::Standard.as_str(), "standard");
    assert_eq!(ImageQuality::Hd.as_str(), "hd");
    assert_eq!(ImageResponseFormat::Url.as_str(), "url");
    assert_eq!(ImageResponseFormat::B64Json.as_str(), "b64_json");
    assert_eq!(ImageSize::Large.as_str(), "1024x1024");
    assert_eq!(ImageSize::LargeWide.as_str(), "1792x1024");
    assert_eq!(ImageSize::LargeTall.as_str(), "1024x1792");
    assert_eq!(ImageStyle::Vivid.as_str(), "vivid");
    assert_eq!(ImageStyle::Natural.as_str(), "natural");
}

#[test]
fn prompt_is_escaped() {
    let req = CreateImageRequest::new("say \"hi\"\\\n\t\u{1}\u{1f} é\u{7f}".to_string());
    assert_eq!(
        req.body(),
        "{\"prompt\":\"say \\\"hi\\\"\\\\\\n\\t\\u0001\\u001f é\u{7f}\",\"model\":\"dall-e-3\"}"
    );
    let v = body_value(&req);
    assert_eq!(v["prompt"], text("say \"hi\"\\\n\t\u{1}\u{1f} é\u{7f}"));
}

#[test]
fn escaping_agrees_with_serde_json() {
    let prompt = "\u{8}\u{c}\r\u{0}x\"/\u{10}";
    let req = CreateImageRequest::new(prompt.to_string());
    let expected = format!(
        "{{\"prompt\":{},\"model\":\"dall-e-3\"}}",
        serde_json::to_string(prompt).unwrap()
    );
    assert_eq!(req.body(), expected);
}

#[test]
fn empty_prompt_is_kept() {
    let req = CreateImageRequest::new(String::new());
    assert_eq!(req.body(), r#"{"prompt":"","model":"dall-e-3"}"#);
    let d = CreateImageRequest::default();
    assert_eq!(d.body(), req.body());
}
