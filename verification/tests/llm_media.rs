use swissknife_ai_sdk::error::Error;
use swissknife_ai_sdk::http::{api_error, header, status_error, HttpMethod};
use swissknife_ai_sdk::llm::deepl::{
    detect_request, detected_language, document_path, document_result_path, glossary_path, language_codes,
    languages_path, translate_request_for, translation_response_from, DeepLClient, DeepLTranslateRequest,
    DeepLTranslateResponse, DeepLTranslation, Language,
};
use swissknife_ai_sdk::llm::runway::{
    pending_video, task_path, task_poll, task_timeout_error, text_to_video_body, video_status, video_task_for,
    Gen3Request, RunwayClient, TaskPoll, TaskResponse, TextToVideoRequest, VideoTask,
};
use swissknife_ai_sdk::llm::stability::{
    image_response, image_to_image_form_fields, remove_background_form_fields, sd3_form_fields, sd3_request_for,
    ultra_form_fields, upscale_form_fields, SD3Request, StabilityClient, UltraRequest,
};
use swissknife_ai_sdk::llm::{ImageRequest, ProviderConfig, TranslationRequest, VideoRequest};

fn pairs(v: &[(&str, &str)]) -> Vec<(String, String)> {
    v.iter().map(|(a, b)| (a.to_string(), b.to_string())).collect()
}

#[test]
fn deepl_picks_the_endpoint_by_key() {
    let free = DeepLClient::from_api_key("abc:fx".to_string());
    assert_eq!(free.request(HttpMethod::Get, "/usage").url, "https://api-free.deepl.com/v2/usage");
    let pro = DeepLClient::from_api_key("abc".to_string());
    let r = pro.request(HttpMethod::Post, "/translate");
    assert_eq!(r.url, "https://api.deepl.com/v2/translate");
    assert_eq!(r.headers[0], ("Authorization".to_string(), "DeepL-Auth-Key abc".to_string()));
    let custom = DeepLClient::new(ProviderConfig::new("k:fx".to_string()).with_base_url("http://h".to_string()));
    assert_eq!(custom.request(HttpMethod::Get, "/x").url, "http://h/x");
}

#[test]
fn deepl_paths() {
    assert_eq!(languages_path(Some("target")), "/languages?type=target");
    assert_eq!(languages_path(None), "/languages");
    assert_eq!(document_path("d1"), "/document/d1");
    assert_eq!(document_result_path("d1"), "/document/d1/result");
    assert_eq!(glossary_path("g"), "/glossaries/g");
}

#[test]
fn deepl_requests_and_answers() {
    let r = DeepLTranslateRequest::single("hi".to_string(), "DE".to_string())
        .with_source_lang("EN".to_string())
        .with_formality("less".to_string())
        .with_glossary("g".to_string());
    assert_eq!(r.text, vec!["hi".to_string()]);
    assert_eq!(r.source_lang.as_deref(), Some("EN"));
    assert_eq!(r.formality.as_deref(), Some("less"));
    assert_eq!(r.glossary_id.as_deref(), Some("g"));
    let t = translate_request_for(TranslationRequest {
        text: vec!["a".to_string()],
        target_language: "FR".to_string(),
        source_language: None,
        formality: None,
        preserve_formatting: Some(true),
    });
    assert_eq!(t.target_lang, "FR");
    assert_eq!(t.preserve_formatting, Some(true));
    assert!(t.tag_handling.is_none());
    let d = detect_request("bonjour");
    assert_eq!(d.target_lang, "EN");
    let resp = DeepLTranslateResponse {
        translations: vec![DeepLTranslation { text: "Hallo".to_string(), detected_source_language: "EN".to_string() }],
    };
    assert_eq!(detected_language(&resp).unwrap(), "EN");
    let out = translation_response_from(resp);
    assert_eq!(out.translations[0].text, "Hallo");
    assert_eq!(out.translations[0].detected_source_language.as_deref(), Some("EN"));
    match detected_language(&DeepLTranslateResponse { translations: vec![] }) {
        Err(Error::Api { message, code: None }) => assert_eq!(message, "No translation returned"),
        other => panic!("unexpected {:?}", other),
    }
    let langs = vec![
        Language { language: "DE".to_string(), name: "German".to_string(), supports_formality: Some(true) },
        Language { language: "EN".to_string(), name: "English".to_string(), supports_formality: None },
    ];
    assert_eq!(language_codes(&langs), vec!["DE".to_string(), "EN".to_string()]);
}

#[test]
fn runway_tasks() {
    let c = RunwayClient::from_api_key("k".to_string());
    assert_eq!(c.request(HttpMethod::Get, &task_path("t1")).url, "https://api.runwayml.com/v1/tasks/t1");
    let body = text_to_video_body(&TextToVideoRequest::new("a cat".to_string()));
    assert_eq!(body.str_member("model"), Some("gen3a_turbo"));
    assert_eq!(body.str_member("promptText"), Some("a cat"));
    assert_eq!(body.get("duration").and_then(|d| d.as_u64()), Some(5));
    assert_eq!(body.str_member("ratio"), Some("1280:768"));
    let body = text_to_video_body(&TextToVideoRequest::new("x".to_string()).with_duration(10));
    assert_eq!(body.get("duration").and_then(|d| d.as_u64()), Some(10));
    let g = Gen3Request::new("img".to_string()).with_prompt("p".to_string()).with_duration(4).with_ratio("16:9".to_string());
    assert_eq!(g.prompt_text.as_deref(), Some("p"));
    assert_eq!(g.duration, Some(4));
}

#[test]
fn runway_polling() {
    assert!(matches!(task_poll("SUCCEEDED", None, None), TaskPoll::Succeeded));
    assert!(matches!(task_poll("RUNNING", None, None), TaskPoll::Pending));
    match task_poll("FAILED", None, None) {
        TaskPoll::Failed(Error::Api { message, code }) => {
            assert_eq!(message, "Task failed");
            assert_eq!(code.as_deref(), Some(""));
        },
        other => panic!("unexpected {:?}", other),
    }
    match task_poll("FAILED", Some("oops".to_string()), Some("E1".to_string())) {
        TaskPoll::Failed(Error::Api { message, code }) => {
            assert_eq!(message, "oops");
            assert_eq!(code.as_deref(), Some("E1"));
        },
        other => panic!("unexpected {:?}", other),
    }
    assert!(matches!(task_poll("CANCELLED", None, None), TaskPoll::Failed(Error::Api { message, .. }) if message == "Task cancelled"));
    assert!(matches!(task_timeout_error(), Error::Api { message, code: Some(c) } if message == "Task timeout" && c == "TIMEOUT"));
}

#[test]
fn runway_videos() {
    let v = pending_video(TaskResponse { id: "t".to_string() });
    assert_eq!(v.status, "pending");
    assert_eq!(v.data[0].task_id.as_deref(), Some("t"));
    let v = video_status("t", "SUCCEEDED".to_string(), Some(vec!["http://v".to_string()]));
    assert_eq!(v.data[0].url.as_deref(), Some("http://v"));
    let v = video_status("t", "RUNNING".to_string(), Some(vec![]));
    assert!(v.data[0].url.is_none());
    let req = VideoRequest { prompt: "p".to_string(), image: Some("i".to_string()), model: None, duration: None, aspect_ratio: None, seed: Some(3) };
    assert!(matches!(video_task_for(req), VideoTask::FromImage(g) if g.prompt_image == "i" && g.seed == Some(3)));
    let req = VideoRequest { prompt: "p".to_string(), image: None, model: None, duration: None, aspect_ratio: None, seed: None };
    assert!(matches!(video_task_for(req), VideoTask::FromText(t) if t.prompt == "p"));
}

#[test]
fn stability_forms() {
    let c = StabilityClient::from_api_key("k".to_string());
    assert_eq!(c.request(HttpMethod::Post, "/stable-image/generate/sd3").url, "https://api.stability.ai/v2beta/stable-image/generate/sd3");
    let mut r = SD3Request::new("cat".to_string()).with_model("sd3".to_string()).with_aspect_ratio("1:1".to_string());
    r.seed = Some(42);
    assert_eq!(sd3_form_fields(&r), pairs(&[("prompt", "cat"), ("output_format", "png"), ("model", "sd3"), ("aspect_ratio", "1:1"), ("seed", "42")]));
    let u = UltraRequest::new("dog".to_string()).with_aspect_ratio("2:3".to_string());
    assert_eq!(ultra_form_fields(&u), pairs(&[("prompt", "dog"), ("output_format", "png"), ("aspect_ratio", "2:3")]));
    assert_eq!(upscale_form_fields(Some("sharp")), pairs(&[("output_format", "png"), ("prompt", "sharp")]));
    assert_eq!(upscale_form_fields(None), pairs(&[("output_format", "png")]));
    assert_eq!(image_to_image_form_fields("p"), pairs(&[("prompt", "p"), ("output_format", "png")]));
    assert_eq!(remove_background_form_fields(), pairs(&[("output_format", "png")]));
    let s = sd3_request_for(ImageRequest { prompt: "p".to_string(), model: None, size: Some("16:9".to_string()), response_format: Some("jpeg".to_string()) });
    assert_eq!(s.aspect_ratio.as_deref(), Some("16:9"));
    assert_eq!(s.output_format.as_deref(), Some("jpeg"));
    let img = image_response("b64".to_string());
    assert_eq!(img.created, 0);
    assert_eq!(img.data[0].b64_json.as_deref(), Some("b64"));
}

#[test]
fn http_errors_and_headers() {
    assert_eq!(header("A", "b"), ("A".to_string(), "b".to_string()));
    assert!(matches!(status_error("404", "gone"), Error::Api { message, code: Some(c) } if message == "gone" && c == "404"));
    assert!(matches!(api_error("m".to_string(), None), Error::Api { message, code: None } if message == "m"));
}
