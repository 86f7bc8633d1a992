//! Data models of the assistant: chat, blog posts, templates, settings,
//! model catalogue, video options and content packages.
pub mod blog_post;

pub use blog_post::{BlogPost, BlogSection, HeadingLevel};
pub mod content_template;
pub mod settings;

pub use settings::{AppSettings, FontSize, ResponseLanguage, Theme};
pub mod model_info;

pub use model_info::{get_available_models, CacheInfo, ModelInfo, ModelStatus, ModelType};
pub mod video_gen;

pub use video_gen::{VideoConfig, VideoModel, VideoProvider, VideoQuality};
pub mod chat;

pub use chat::{ChatMessage, ChatRole};
pub mod session;

pub use session::Session;
pub mod content_package;

pub use content_package::{
    Article, ArticleSection, ContentPackage, ExportFormat, GenerationProgress, GenerationStage,
    ImageAsset, SeoMetadata, SocialPlatform, VideoClip,
};
