use local_ai_assistant::content::outline::outline_prompt;
use local_ai_assistant::engine::content_source::{article_from_page, ContentSource, ContentSourceType};
use local_ai_assistant::engine::video_gen::{ProviderConfig, VideoGenerator, VideoRequest};
use local_ai_assistant::models::content_template::{Platform, WritingStyle};
use local_ai_assistant::models::{
    ContentPackage, FontSize, ImageAsset, ResponseLanguage, SocialPlatform, Theme, VideoClip, VideoModel, VideoProvider,
    VideoQuality,
};

#[test]
fn settings_tables() {
    assert_eq!(ResponseLanguage::English.prompt_instruction(), "Please respond in English.");
    assert_eq!(ResponseLanguage::German.as_str(), "German");
    assert_eq!(Theme::Purple.bg_class(), "bg-purple-950");
    assert_eq!(Theme::Light.sidebar_bg(), "bg-white");
    assert_eq!(Theme::Light.text_class(), "text-gray-900");
    assert_eq!(Theme::Blue.as_str(), "Blue");
    let f = FontSize::Large;
    assert!(!f.prose_class().is_empty());
    assert!(!f.font_style().is_empty());
    assert!(!f.as_str().is_empty());
}

#[test]
fn template_tables() {
    assert_eq!(Platform::Medium.icon(), "📰");
    assert_eq!(Platform::WeChat.display_name(), "微信公众号");
    assert!(WritingStyle::Academic.system_prompt().starts_with("Write in a formal, scholarly tone."));
}

#[test]
fn reading_time_and_assets() {
    let mut p = ContentPackage::new("t".to_string());
    p.article.add_section("A".to_string(), "word ".repeat(401));
    p.update_reading_time();
    assert_eq!(p.article.word_count, 401);
    assert_eq!(p.article.reading_time_minutes, 3);
    let mut empty = ContentPackage::new("e".to_string());
    empty.update_reading_time();
    assert_eq!(empty.article.reading_time_minutes, 1);
    assert_eq!(p.total_assets(), 0);
    p.header_image = Some(ImageAsset::new("p".into(), "x".into(), "alt".into()));
    p.social_clips.push(VideoClip::new("p".into(), "v".into(), SocialPlatform::Twitter));
    assert_eq!(p.total_assets(), 2);
}

#[test]
fn sources_from_pages_and_files() {
    let a = article_from_page("https://x/y", "Title", "a b c");
    assert_eq!((a.title.as_str(), a.word_count, a.url.as_deref()), ("Title", 3, Some("https://x/y")));
    let s = ContentSource::new_local_file("/docs/notes.md".to_string());
    assert_eq!(s.name, "notes.md");
    assert_eq!(s.source_type, ContentSourceType::LocalFile);
    let r = ContentSource::new_local_file("/".to_string());
    assert_eq!(r.name, "Unnamed File");
}

#[test]
fn outline_request_text() {
    let p = outline_prompt("Rust");
    assert!(p.starts_with("Create a detailed blog post outline for the topic: \"Rust\"\n\nInstructions:\n- Start with a compelling H1 title"));
    assert!(p.ends_with("Now create the outline:"));
}

#[test]
fn provider_configs_read_back() {
    let mut g = VideoGenerator::new(&vec![]);
    let c = ProviderConfig {
        api_key: "k".to_string(),
        access_key_id: String::new(),
        secret_access_key: String::new(),
        base_url: "u".to_string(),
        timeout_secs: 9,
    };
    g.add_provider_config(VideoProvider::Baidu, c);
    assert_eq!(g.config_for(VideoProvider::Baidu).map(|c| c.api_key.clone()), Some("k".to_string()));
    assert_eq!(g.config_for(VideoProvider::Tencent).map(|c| c.timeout_secs), Some(300));
    assert_eq!(g.configs.len(), 8);
    assert_eq!(g.get_bytedance_model_name(&VideoModel::DoubaoVideo), "doubao-video-gen");
    assert_eq!(g.get_bytedance_model_name(&VideoModel::Pika2), "jimeng-2.0");
    let r = VideoRequest::new("p".to_string()).with_quality(VideoQuality::Premium);
    assert_eq!(r.config.quality, VideoQuality::Premium);
}
