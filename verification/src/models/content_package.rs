//! Content packages: an article with its images, social clips and SEO
//! metadata, and the progress of their generation.
use vstd::prelude::*;
use crate::deps::{new_id, now, Timestamp};
use crate::text::{count_words_in, words};

verus! {

/// A complete content package with article, images, videos and SEO metadata
#[derive(Clone, Debug)]
pub struct ContentPackage {
    pub id: String,
    pub topic: String,
    pub article: Article,
    pub header_image: Option<ImageAsset>,
    pub section_images: Vec<ImageAsset>,
    pub social_clips: Vec<VideoClip>,
    pub seo_metadata: SeoMetadata,
    pub created_at: Timestamp,
    pub updated_at: Timestamp,
}

/// Article structure with sections
#[derive(Clone, Debug)]
pub struct Article {
    pub title: String,
    pub subtitle: Option<String>,
    pub author: Option<String>,
    pub sections: Vec<ArticleSection>,
    pub word_count: usize,
    pub reading_time_minutes: u32,
}

/// Individual section of an article
#[derive(Clone, Debug)]
pub struct ArticleSection {
    pub heading: String,
    pub content: String,
    pub order: u32,
    /// Reference to an `ImageAsset` id
    pub image_ref: Option<String>,
}

/// Image asset metadata
#[derive(Clone, Debug)]
pub struct ImageAsset {
    pub id: String,
    pub prompt: String,
    pub url: Option<String>,
    pub local_path: Option<String>,
    pub provider: String,
    pub width: Option<u32>,
    pub height: Option<u32>,
    pub alt_text: String,
    pub created_at: Timestamp,
}

/// Video clip for social media
#[derive(Clone, Debug)]
pub struct VideoClip {
    pub id: String,
    pub prompt: String,
    pub url: Option<String>,
    pub local_path: Option<String>,
    pub provider: String,
    pub duration_seconds: Option<u32>,
    pub platform: SocialPlatform,
    pub caption: Option<String>,
    pub created_at: Timestamp,
}

/// Target social media platform
#[derive(Clone, Copy, Debug, PartialEq, Eq, Structural)]
pub enum SocialPlatform {
    Twitter,
    Instagram,
    TikTok,
    YouTube,
    LinkedIn,
    Generic,
}

/// The name of a platform as `Debug` prints it.
pub open spec fn social_platform_name(p: SocialPlatform) -> Seq<char> {
    match p {
        SocialPlatform::Twitter => "Twitter"@,
        SocialPlatform::Instagram => "Instagram"@,
        SocialPlatform::TikTok => "TikTok"@,
        SocialPlatform::YouTube => "YouTube"@,
        SocialPlatform::LinkedIn => "LinkedIn"@,
        SocialPlatform::Generic => "Generic"@,
    }
}

/// SEO metadata for the content. The readability score, a float that the
/// library never computes, is carried by the application's copy of the type.
#[derive(Clone, Debug)]
pub struct SeoMetadata {
    pub meta_title: String,
    pub meta_description: String,
    pub keywords: Vec<String>,
    pub canonical_url: Option<String>,
    pub og_image: Option<String>,
    /// JSON-LD
    pub schema_markup: Option<String>,
    pub focus_keyword: Option<String>,
}

/// Export format options
#[derive(Clone, Copy, Debug, PartialEq, Eq, Structural)]
pub enum ExportFormat {
    Markdown,
    Html,
    Json,
    WordPress,
    Medium,
}

/// Content package generation progress
#[derive(Clone, Debug)]
pub struct GenerationProgress {
    pub stage: GenerationStage,
    pub progress_percent: u8,
    pub current_task: String,
    /// seconds
    pub estimated_time_remaining: Option<u32>,
}

/// Stages of content generation
#[derive(Clone, Copy, Debug, PartialEq, Eq, Structural)]
pub enum GenerationStage {
    Initializing,
    GeneratingOutline,
    GeneratingArticle,
    GeneratingHeaderImage,
    GeneratingSectionImages,
    GeneratingSocialClips,
    GeneratingSeoMetadata,
    Finalizing,
    Complete,
    Failed,
}

/// Total number of words in the contents of `sections`.
pub open spec fn article_words(sections: Seq<ArticleSection>) -> nat
    decreases sections.len(),
{
    if sections.len() == 0 {
        0
    } else {
        article_words(sections.drop_last()) + words(sections.last().content@)
    }
}

/// Minutes needed to read `words` words at 200 words a minute, rounded up,
/// at least one, and capped at the largest `u32` as the conversion to
/// `u32` saturates.
pub open spec fn reading_minutes(words: nat) -> nat {
    let m = (words + 199) / 200;
    if m < 1 {
        1
    } else if m > 0xffff_ffff {
        0xffff_ffff
    } else {
        m
    }
}

/// The words of a prefix of the sections are at most the words of all.
proof fn lemma_article_words_prefix(s: Seq<ArticleSection>, n: int)
    requires
        0 <= n <= s.len(),
    ensures
        article_words(s.take(n)) <= article_words(s),
    decreases s.len() - n,
{
    if n < s.len() {
        lemma_article_words_prefix(s, n + 1);
        assert(s.take(n + 1).drop_last() == s.take(n));
    } else {
        assert(s.take(n) == s);
    }
}

impl ContentPackage {
    /// Create a new empty content package
    pub fn new(topic: String) -> (p: Self)
        ensures
            p.topic == topic,
            p.article.title@.len() == 0,
            p.article.subtitle is None,
            p.article.author is None,
            p.article.sections@.len() == 0,
            p.article.word_count == 0,
            p.article.reading_time_minutes == 0,
            p.header_image is None,
            p.section_images@.len() == 0,
            p.social_clips@.len() == 0,
            p.seo_metadata.meta_title@.len() == 0,
            p.seo_metadata.meta_description@.len() == 0,
            p.seo_metadata.keywords@.len() == 0,
            p.seo_metadata.canonical_url is None,
            p.seo_metadata.og_image is None,
            p.seo_metadata.schema_markup is None,
            p.seo_metadata.focus_keyword is None,
            p.created_at == p.updated_at,
    {
        let now = now();
        ContentPackage {
            id: new_id(),
            topic,
            article: Article {
                title: String::new(),
                subtitle: None,
                author: None,
                sections: Vec::new(),
                word_count: 0,
                reading_time_minutes: 0,
            },
            header_image: None,
            section_images: Vec::new(),
            social_clips: Vec::new(),
            seo_metadata: SeoMetadata {
                meta_title: String::new(),
                meta_description: String::new(),
                keywords: Vec::new(),
                canonical_url: None,
                og_image: None,
                schema_markup: None,
                focus_keyword: None,
            },
            created_at: now,
            updated_at: now,
        }
    }

    /// Calculate reading time based on word count (average 200 words per minute)
    pub fn update_reading_time(&mut self)
        requires
            article_words(old(self).article.sections@) <= usize::MAX,
        ensures
            final(self).article.word_count == article_words(old(self).article.sections@),
            final(self).article.reading_time_minutes == reading_minutes(
                article_words(old(self).article.sections@),
            ),
            final(self).article.title == old(self).article.title,
            final(self).article.subtitle == old(self).article.subtitle,
            final(self).article.author == old(self).article.author,
            final(self).article.sections == old(self).article.sections,
            final(self).id == old(self).id,
            final(self).topic == old(self).topic,
            final(self).header_image == old(self).header_image,
            final(self).section_images == old(self).section_images,
            final(self).social_clips == old(self).social_clips,
            final(self).seo_metadata == old(self).seo_metadata,
            final(self).created_at == old(self).created_at,
            final(self).updated_at == old(self).updated_at,
    {
        let mut total: usize = 0;
        let mut i: usize = 0;
        while i < self.article.sections.len()
            invariant
                i <= self.article.sections@.len(),
                self.article.sections@ == old(self).article.sections@,
                article_words(self.article.sections@) <= usize::MAX,
                total == article_words(self.article.sections@.take(i as int)),
            decreases self.article.sections@.len() - i,
        {
            assert(self.article.sections@.take(i + 1).drop_last() == self.article.sections@.take(
                i as int,
            ));
            proof {
                lemma_article_words_prefix(self.article.sections@, i as int + 1);
            }
            total = total + count_words_in(self.article.sections[i].content.as_str());
            i += 1;
        }
        assert(self.article.sections@.take(self.article.sections@.len() as int)
            == self.article.sections@);
        self.article.word_count = total;
        let minutes = total / 200 + if total % 200 == 0 {
            0
        } else {
            1
        };
        assert(minutes == (total + 199) / 200);
        let minutes32: u32 = if minutes > 0xffff_ffff {
            0xffff_ffff
        } else {
            minutes as u32
        };
        self.article.reading_time_minutes = if minutes32 < 1 {
            1
        } else {
            minutes32
        };
    }

    /// Get total number of assets (images + videos)
    pub fn total_assets(&self) -> (n: usize)
        requires
            self.section_images@.len() + 1 + self.social_clips@.len() <= usize::MAX,
        ensures
            n == self.section_images@.len() + (if self.header_image is Some {
                1int
            } else {
                0int
            }) + self.social_clips@.len(),
    {
        let image_count = self.section_images.len() + if self.header_image.is_some() {
            1
        } else {
            0
        };
        image_count + self.social_clips.len()
    }
}

impl Article {
    /// Create a new article from title
    pub fn new(title: String) -> (a: Self)
        ensures
            a.title == title,
            a.subtitle is None,
            a.author is None,
            a.sections@.len() == 0,
            a.word_count == 0,
            a.reading_time_minutes == 0,
    {
        Article {
            title,
            subtitle: None,
            author: None,
            sections: Vec::new(),
            word_count: 0,
            reading_time_minutes: 0,
        }
    }

    /// Add a section to the article; its order is its position.
    pub fn add_section(&mut self, heading: String, content: String)
        requires
            old(self).sections@.len() < 0x1_0000_0000,
        ensures
            final(self).sections@ == old(self).sections@.push(
                ArticleSection {
                    heading,
                    content,
                    order: old(self).sections@.len() as u32,
                    image_ref: None,
                },
            ),
            final(self).title == old(self).title,
            final(self).subtitle == old(self).subtitle,
            final(self).author == old(self).author,
            final(self).word_count == old(self).word_count,
            final(self).reading_time_minutes == old(self).reading_time_minutes,
    {
        let order = self.sections.len() as u32;
        self.sections.push(ArticleSection { heading, content, order, image_ref: None });
    }
}

impl ImageAsset {
    /// Create a new image asset
    pub fn new(prompt: String, provider: String, alt_text: String) -> (a: Self)
        ensures
            a.prompt == prompt,
            a.url is None,
            a.local_path is None,
            a.provider == provider,
            a.width is None,
            a.height is None,
            a.alt_text == alt_text,
    {
        ImageAsset {
            id: new_id(),
            prompt,
            url: None,
            local_path: None,
            provider,
            width: None,
            height: None,
            alt_text,
            created_at: now(),
        }
    }
}

impl VideoClip {
    /// Create a new video clip
    pub fn new(prompt: String, provider: String, platform: SocialPlatform) -> (c: Self)
        ensures
            c.prompt == prompt,
            c.url is None,
            c.local_path is None,
            c.provider == provider,
            c.duration_seconds is None,
            c.platform == platform,
            c.caption is None,
    {
        VideoClip {
            id: new_id(),
            prompt,
            url: None,
            local_path: None,
            provider,
            duration_seconds: None,
            platform,
            caption: None,
            created_at: now(),
        }
    }
}

} // verus!
