use local_ai_assistant::engine::video_gen::{
    alibaba_payload, api_error, api_key_check, backend_for, baidu_generation_url, baidu_payload, baidu_token_url,
    bearer, check_video_api_configs, get_available_video_providers, get_video_generation_status, openrouter_payload,
    request_from_form, status_text, ProviderConfig, VideoBackend, VideoGenForm, VideoGenerator, VideoRequest, VideoStatus,
};
use local_ai_assistant::engine::volc::{
    bytedance_keys_check, poll_payload, poll_query, poll_step, sign_now, sign_volc_request, submit_outcome,
    submit_payload, submit_query, volc_headers, volc_sha256, BytedancePoll, PollReply, PollStep,
};
use local_ai_assistant::models::{VideoModel, VideoProvider, VideoQuality};

fn env(pairs: &[(&str, &str)]) -> Vec<(String, String)> {
    pairs.iter().map(|(k, v)| (k.to_string(), v.to_string())).collect()
}

fn config(api_key: &str, ak: &str, sk: &str) -> ProviderConfig {
    ProviderConfig {
        api_key: api_key.to_string(),
        access_key_id: ak.to_string(),
        secret_access_key: sk.to_string(),
        base_url: "https://base".to_string(),
        timeout_secs: 60,
    }
}

#[test]
fn volc_hashes_and_signature() {
    assert_eq!(volc_sha256("abc"), "ba7816bf8f01cfea414140de5dae2223b00361a396177a9cb410ff61f20015ad");
    let date = "20240102T030405Z";
    let payload = submit_payload("a cat", None);
    assert_eq!(payload, "{\"aspect_ratio\":\"16:9\",\"frames\":121,\"prompt\":\"a cat\",\"req_key\":\"jimeng_t2v_v30_1080p\",\"seed\":-1}");
    let headers = volc_headers("visual.volcengineapi.com", date);
    let auth = sign_volc_request("AKID", "SECRET", "POST", "/", &submit_query(), &headers, &payload, "cn-north-1", "cv", date);
    assert_eq!(
        auth,
        "HMAC-SHA256 Credential=AKID/20240102/cn-north-1/cv/request, SignedHeaders=content-type;host;x-date, Signature=5a5ee510c7f9cd025445fb62beb72c2caf1c98b843e902f857123f545d7b7ac4"
    );
}

#[test]
fn signed_headers_are_sorted_by_lowercase_name() {
    let date = "20240102T030405Z";
    let payload = submit_payload("a cat", None);
    let sorted = volc_headers("visual.volcengineapi.com", date);
    let shuffled = vec![
        ("X-Date".to_string(), date.to_string()),
        ("host".to_string(), "other".to_string()),
        ("Content-Type".to_string(), "  application/json ".to_string()),
        ("HOST".to_string(), "visual.volcengineapi.com".to_string()),
    ];
    let a = sign_volc_request("AKID", "SECRET", "POST", "/", &submit_query(), &sorted, &payload, "cn-north-1", "cv", date);
    let b = sign_volc_request("AKID", "SECRET", "POST", "/", &submit_query(), &shuffled, &payload, "cn-north-1", "cv", date);
    assert_eq!(a, b);
    let one = vec![("B".to_string(), "1".to_string()), ("a".to_string(), "2".to_string())];
    let auth = sign_volc_request("K", "S", "GET", "/", "", &one, "", "r", "s", date);
    assert!(auth.contains("SignedHeaders=a;b, "));
}

#[test]
fn signing_now_is_dated() {
    let (date, auth) = sign_now(&config("", "AK", "SK"), &poll_query(), "{}");
    assert_eq!(date.len(), 16);
    assert!(auth.starts_with(&format!("HMAC-SHA256 Credential=AK/{}/cn-north-1/cv/request", &date[..8])));
}

#[test]
fn bytedance_bodies_and_queries() {
    assert_eq!(submit_query(), "Action=CVSync2AsyncSubmitTask&Version=2022-08-31");
    assert_eq!(poll_query(), "Action=CVSync2AsyncGetResult&Version=2022-08-31");
    assert_eq!(
        submit_payload("say \"hi\"", Some(7)),
        "{\"aspect_ratio\":\"16:9\",\"frames\":121,\"prompt\":\"say \\\"hi\\\"\",\"req_key\":\"jimeng_t2v_v30_1080p\",\"seed\":7}"
    );
    assert_eq!(poll_payload("t1"), "{\"req_key\":\"jimeng_t2v_v30_1080p\",\"task_id\":\"t1\"}");
    assert!(bytedance_keys_check(&config("", "a", "b")).is_ok());
    assert_eq!(
        bytedance_keys_check(&config("k", "", "b")).unwrap_err(),
        "ByteDance Access Key ID or Secret Access Key not configured. Please set Access_Key_ID and Secret_Access_Key in .env file."
    );
}

#[test]
fn submission_outcomes() {
    assert_eq!(
        submit_outcome(false, "500", "oops", None, "", None).unwrap_err(),
        "ByteDance Submit Task Error: status=500, body=oops"
    );
    assert_eq!(submit_outcome(true, "200", "", Some(50400), "\"denied\"", None).unwrap_err(), "ByteDance Submit Failed: \"denied\"");
    assert_eq!(submit_outcome(true, "200", "", None, "null", Some("t".into())).unwrap_err(), "ByteDance Submit Failed: null");
    assert_eq!(submit_outcome(true, "200", "", Some(10000), "", None).unwrap_err(), "Task ID not found in response");
    assert_eq!(submit_outcome(true, "200", "", Some(10000), "", Some("t9".into())), Ok("t9".to_string()));
}

#[test]
fn polling_steps() {
    let data = |code: Option<i64>, status: Option<&str>, url: Option<&str>| PollReply::Data {
        code,
        status: status.map(|s| s.to_string()),
        video_url: url.map(|s| s.to_string()),
    };
    assert!(matches!(poll_step(data(Some(10000), Some("done"), Some("u"))), PollStep::Done(u) if u == "u"));
    assert!(matches!(poll_step(data(Some(10000), Some("success"), None)), PollStep::Done(u) if u.is_empty()));
    assert!(matches!(poll_step(data(Some(10000), Some("error"), None)), PollStep::Failed(m) if m == "Generation failed: status=error"));
    assert!(matches!(poll_step(data(Some(10000), None, None)), PollStep::Continue));
    assert!(matches!(poll_step(data(Some(1), Some("done"), None)), PollStep::Continue));
    assert!(matches!(poll_step(PollReply::Unanswered), PollStep::Continue));
    assert!(matches!(poll_step(PollReply::Unreadable), PollStep::Continue));
}

#[test]
fn polling_gives_up_after_150() {
    let mut p = BytedancePoll::new();
    for _ in 0..150 {
        assert!(p.begin_attempt().is_ok());
    }
    assert_eq!(p.begin_attempt().unwrap_err(), "Video generation timed out");
    assert_eq!(p.attempts, 150);
}

#[test]
fn request_bodies() {
    let g = VideoGenerator::new(&vec![]);
    let mut r = VideoRequest::new("a \"q\"".to_string()).with_model(VideoModel::Gen2).with_duration(3);
    r.seed = Some(9);
    assert_eq!(
        openrouter_payload(&g, &r),
        "{\"duration_seconds\":3,\"height\":576,\"model\":\"runway/gen-2\",\"prompt\":\"a \\\"q\\\"\",\"quality\":\"720p\",\"seed\":9,\"width\":1024}"
    );
    r.negative_prompt = Some("blur".to_string());
    assert!(openrouter_payload(&g, &r).contains(",\"negative_prompt\":\"blur\",\"prompt\""));
    let a = VideoRequest::new("p".to_string()).with_model(VideoModel::AliVGen);
    assert_eq!(
        alibaba_payload(&g, &a),
        "{\"input\":{\"prompt\":\"p\",\"resolution\":\"1024x576\",\"video_length\":5},\"model\":\"ali-v-gen\"}"
    );
    assert_eq!(baidu_payload(&a), "{\"prompt\":\"p\",\"video_duration\":5,\"video_height\":576,\"video_width\":1024}");
}

#[test]
fn backend_rules() {
    assert_eq!(backend_for(VideoProvider::Alibaba), VideoBackend::Alibaba);
    let g = VideoGenerator::new(&env(&[("DASHSCOPE_API_KEY", "k")]));
    let c = g.backend_config(VideoBackend::Alibaba).unwrap();
    assert_eq!(c.api_key, "k");
    assert!(api_key_check(VideoBackend::Alibaba, c).is_ok());
    let b = g.backend_config(VideoBackend::Baidu).unwrap();
    assert_eq!(api_key_check(VideoBackend::Baidu, b).unwrap_err(), "Baidu API key not configured");
    let empty = VideoGenerator { configs: vec![] };
    assert_eq!(empty.backend_config(VideoBackend::OpenRouter).unwrap_err(), "OpenRouter config not found");
    assert_eq!(bearer("k"), "Bearer k");
    assert_eq!(api_error(VideoBackend::OpenRouter, "x"), "OpenRouter API error: x");
    assert_eq!(
        baidu_token_url("K"),
        "https://aip.baidubce.com/oauth/2.0/token?grant_type=client_credentials&client_id=K"
    );
    assert_eq!(baidu_generation_url("B", None).unwrap_err(), "Failed to get access token");
    assert_eq!(baidu_generation_url("B", Some("t".into())), Ok("B/wenxinworkshop/video/generation/v1?access_token=t".to_string()));
}

#[test]
fn forms_and_statuses() {
    let f = VideoGenForm::default();
    assert_eq!((f.width, f.height, f.duration_seconds, f.fps), (1024, 576, 5, 24));
    assert_eq!(f.model, VideoModel::JimengV2);
    let mut f2 = f.clone();
    f2.prompt = "p".to_string();
    f2.seed = Some(3);
    f2.quality = VideoQuality::Premium;
    let r = request_from_form(f2);
    assert_eq!(r.prompt, "p");
    assert_eq!(r.seed, Some(3));
    assert_eq!(r.config.quality, VideoQuality::Premium);
    assert_eq!(r.provider, VideoProvider::ByteDance);
    assert_eq!(status_text(VideoStatus::Failed("x".to_string())), "failed: x");
    assert_eq!(status_text(VideoStatus::Processing), "processing");
    let s = get_video_generation_status("t".to_string());
    assert_eq!((s.status.as_str(), s.progress), ("completed", 100));
}

#[test]
fn provider_lists() {
    let ps = get_available_video_providers();
    assert_eq!(ps.len(), 4);
    assert_eq!(ps[0].provider, VideoProvider::ByteDance);
    assert_eq!(ps[0].models.len(), 3);
    assert_eq!(ps[2].name, "OpenRouter");
    let cs = check_video_api_configs(&env(&[("BAIDU_API_KEY", "")]));
    assert_eq!(cs.len(), 5);
    assert!(cs[3].is_configured);
    assert!(!cs[0].is_configured);
    assert_eq!(cs[4].env_key, "TENCENT_SECRET_ID");
}

#[test]
fn cost_table_in_thousandths() {
    assert_eq!(VideoModel::Pika2.get_cost_per_second(&VideoQuality::Premium), 50);
    assert_eq!(VideoModel::JimengV1.get_cost_per_second(&VideoQuality::Standard), 7);
    assert_eq!(VideoModel::JimengV2.get_cost_per_second(&VideoQuality::Premium), 35);
    assert_eq!(VideoModel::AliVGen.get_cost_per_second(&VideoQuality::Premium), 30);
    assert_eq!(VideoModel::AliVGen.get_cost_per_second(&VideoQuality::Standard), 20);
    assert_eq!(VideoModel::PaddlePaddleVideo.get_cost_per_second(&VideoQuality::HD), 5);
    assert_eq!(VideoModel::StableVideo.get_cost_per_second(&VideoQuality::Premium), 15);
}

#[test]
fn estimated_cost_scales_with_length() {
    let g = VideoGenerator::new(&vec![]);
    let r = VideoRequest::new("p".to_string())
        .with_model(VideoModel::JimengV2)
        .with_quality(VideoQuality::HD)
        .with_duration(8);
    assert_eq!(g.estimate_cost(&r), 168);
    let r = VideoRequest::new("p".to_string()).with_model(VideoModel::Gen2).with_quality(VideoQuality::Standard).with_duration(5);
    assert_eq!(g.estimate_cost(&r), 150);
}
