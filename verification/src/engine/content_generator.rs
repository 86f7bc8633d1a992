//! Building a content package from a topic: the prompts sent to the
//! language model, how its answers become an article, images, clips and
//! SEO metadata, the progress reported on the way, and the exports. The
//! model and the image and video back ends are called by the caller, which
//! hands their answers back here.
use vstd::prelude::*;

use crate::deps::{now_rfc3339, Timestamp};
use crate::models::content_package::social_platform_name;
use crate::models::{
    Article, ArticleSection, ContentPackage, ExportFormat, GenerationProgress, GenerationStage,
    ImageAsset, SeoMetadata, SocialPlatform, VideoClip,
};
use crate::text::{
    comma_items, decimal, decimal_string, first_chars, join, join_strings, lines, nonblank_lines,
    nonblank_trimmed, owned, pieces, push_all, remove_char, string_views, take_chars,
    trimmed_nonempty, without_char,
};

verus! {

/// Content generator for creating multi-modal content packages
pub struct ContentGenerator {
    pub llm_provider: String,
    pub image_provider: String,
    pub video_provider: String,
}

impl ContentGenerator {
    /// Create a new content generator
    pub fn new(llm_provider: String, image_provider: String, video_provider: String) -> (g: Self)
        ensures
            g.llm_provider == llm_provider,
            g.image_provider == image_provider,
            g.video_provider == video_provider,
    {
        ContentGenerator { llm_provider, image_provider, video_provider }
    }
}

/// The prompt asking for an article outline.
pub open spec fn outline_request(topic: Seq<char>) -> Seq<char> {
    "Create a detailed article outline for the topic: '"@ + topic
        + "'\n\nGenerate a list of 5-7 main section headings. Each heading should be:\n- Clear and descriptive\n- Follow a logical flow\n- Cover different aspects of the topic\n\nReturn only the section headings, one per line, without numbering."@
}

/// The prompt asking for an article outline on `topic`.
pub fn article_outline_prompt(topic: &str) -> (p: String)
    ensures
        p@ == outline_request(topic@),
{
    let mut p = owned("Create a detailed article outline for the topic: '");
    push_all(&mut p, topic);
    push_all(
        &mut p,
        "'\n\nGenerate a list of 5-7 main section headings. Each heading should be:\n- Clear and descriptive\n- Follow a logical flow\n- Cover different aspects of the topic\n\nReturn only the section headings, one per line, without numbering.",
    );
    p
}

/// The section headings in the model's outline answer: its lines that are
/// not blank, trimmed.
pub fn outline_headings(response: &str) -> (hs: Vec<String>)
    ensures
        string_views(hs@) == nonblank_trimmed(lines(response@)),
{
    nonblank_lines(response)
}

/// The prompt asking for the introduction.
pub open spec fn intro_request(topic: Seq<char>, outline: Seq<Seq<char>>) -> Seq<char> {
    "Write an engaging introduction (150-200 words) for an article about: '"@ + topic
        + "'\n\nThe article will cover these sections:\n"@ + join(outline, "\n- "@)
        + "\n\nMake it compelling and set the stage for what's to come."@
}

/// The prompt asking for the introduction of an article on `topic` with
/// these section headings.
pub fn intro_prompt(topic: &str, outline: &Vec<String>) -> (p: String)
    ensures
        p@ == intro_request(topic@, string_views(outline@)),
{
    let mut p = owned("Write an engaging introduction (150-200 words) for an article about: '");
    push_all(&mut p, topic);
    push_all(&mut p, "'\n\nThe article will cover these sections:\n");
    let j = join_strings(outline, "\n- ");
    push_all(&mut p, j.as_str());
    push_all(&mut p, "\n\nMake it compelling and set the stage for what's to come.");
    p
}

/// The prompt asking for section `idx` of the outline.
pub open spec fn section_request(topic: Seq<char>, outline: Seq<Seq<char>>, idx: int) -> Seq<char> {
    "Write a detailed section (200-300 words) for the heading: '"@ + outline[idx]
        + "'\n\nThis is section "@ + decimal((idx + 1) as nat) + " of "@ + decimal(outline.len())
        + " in an article about: '"@ + topic + "'\n\nPrevious sections covered:\n"@ + join(
        outline.take(idx),
        "\n- "@,
    ) + "\n\nProvide informative, engaging content with specific details."@
}

/// The prompt asking for section `idx` of an article on `topic`.
pub fn section_prompt(topic: &str, outline: &Vec<String>, idx: usize) -> (p: String)
    requires
        idx < outline@.len(),
    ensures
        p@ == section_request(topic@, string_views(outline@), idx as int),
{
    let mut p = owned("Write a detailed section (200-300 words) for the heading: '");
    push_all(&mut p, outline[idx].as_str());
    push_all(&mut p, "'\n\nThis is section ");
    let len = outline.len();
    assert(idx < len);
    let n = decimal_string(idx + 1);
    push_all(&mut p, n.as_str());
    push_all(&mut p, " of ");
    let m = decimal_string(outline.len());
    push_all(&mut p, m.as_str());
    push_all(&mut p, " in an article about: '");
    push_all(&mut p, topic);
    push_all(&mut p, "'\n\nPrevious sections covered:\n");
    let mut prev: Vec<String> = Vec::new();
    let mut k: usize = 0;
    while k < idx
        invariant
            k <= idx < outline@.len(),
            prev@ == outline@.take(k as int),
        decreases idx - k,
    {
        prev.push(outline[k].clone());
        k += 1;
        assert(prev@ =~= outline@.take(k as int));
    }
    assert(string_views(prev@) == string_views(outline@).take(idx as int));
    let j = join_strings(&prev, "\n- ");
    push_all(&mut p, j.as_str());
    push_all(&mut p, "\n\nProvide informative, engaging content with specific details.");
    p
}

/// The prompt asking for the conclusion.
pub open spec fn conclusion_request(topic: Seq<char>, outline: Seq<Seq<char>>) -> Seq<char> {
    "Write a strong conclusion (100-150 words) for an article about: '"@ + topic
        + "'\n\nThe article covered these main points:\n"@ + join(outline, "\n- "@)
        + "\n\nSummarize the key takeaways and provide a call to action or final thought."@
}

/// The prompt asking for the conclusion of an article on `topic`.
pub fn conclusion_prompt(topic: &str, outline: &Vec<String>) -> (p: String)
    ensures
        p@ == conclusion_request(topic@, string_views(outline@)),
{
    let mut p = owned("Write a strong conclusion (100-150 words) for an article about: '");
    push_all(&mut p, topic);
    push_all(&mut p, "'\n\nThe article covered these main points:\n");
    let j = join_strings(outline, "\n- ");
    push_all(&mut p, j.as_str());
    push_all(&mut p, "\n\nSummarize the key takeaways and provide a call to action or final thought.");
    p
}

/// The content of a section: what the model wrote, or a placeholder naming
/// the heading when it failed.
pub open spec fn section_text(heading: Seq<char>, answer: Option<Seq<char>>) -> Seq<char> {
    match answer {
        Some(a) => a,
        None => "Content for "@ + heading,
    }
}

/// The sections of an article built from an outline: the introduction,
/// one section per heading, the conclusion.
pub open spec fn article_sections(
    outline: Seq<Seq<char>>,
    intro: Seq<char>,
    answers: Seq<Option<Seq<char>>>,
    conclusion: Option<Seq<char>>,
) -> Seq<(Seq<char>, Seq<char>)> {
    seq![("Introduction"@, intro)] + Seq::new(
        outline.len(),
        |i: int| (outline[i], section_text(outline[i], answers[i])),
    ) + seq![(
        "Conclusion"@,
        match conclusion {
            Some(c) => c,
            None => "Conclusion content"@,
        },
    )]
}

/// The heading and content of each section.
pub open spec fn section_pairs(s: Seq<ArticleSection>) -> Seq<(Seq<char>, Seq<char>)> {
    s.map_values(|x: ArticleSection| (x.heading@, x.content@))
}

/// An optional text as a plain value.
pub open spec fn opt_view(o: Option<String>) -> Option<Seq<char>> {
    match o {
        Some(s) => Some(s@),
        None => None,
    }
}

/// The answers as plain values.
pub open spec fn answer_views(a: Seq<Option<String>>) -> Seq<Option<Seq<char>>> {
    a.map_values(
        |x: Option<String>|
            match x {
                Some(s) => Some(s@),
                None => None,
            },
    )
}

/// Build the article on `topic` from its outline and the model's answers:
/// the introduction, each section (a placeholder where the model failed),
/// and the conclusion (a placeholder where it failed). Sections are
/// numbered in order.
pub fn assemble_article(
    topic: String,
    outline: &Vec<String>,
    intro: String,
    answers: Vec<Option<String>>,
    conclusion: Option<String>,
) -> (a: Article)
    requires
        answers@.len() == outline@.len(),
        outline@.len() + 2 < 0x1_0000_0000,
    ensures
        a.title == topic,
        a.subtitle is None,
        a.author is None,
        a.word_count == 0,
        a.reading_time_minutes == 0,
        section_pairs(a.sections@) == article_sections(
            string_views(outline@),
            intro@,
            answer_views(answers@),
            match conclusion {
                Some(c) => Some(c@),
                None => None,
            },
        ),
        forall|i: int| 0 <= i < a.sections@.len() ==> (#[trigger] a.sections@[i]).order == i && a.sections@[i].image_ref is None,
{
    let ghost want = article_sections(
        string_views(outline@),
        intro@,
        answer_views(answers@),
        opt_view(conclusion),
    );
    let mut article = Article::new(topic);
    article.add_section(owned("Introduction"), intro);
    assert(section_pairs(article.sections@) =~= want.take(1));
    let mut i: usize = 0;
    while i < outline.len()
        invariant
            i <= outline@.len() == answers@.len(),
            outline@.len() + 2 < 0x1_0000_0000,
            want == article_sections(
                string_views(outline@),
                intro@,
                answer_views(answers@),
                opt_view(conclusion),
            ),
            article.sections@.len() == i + 1,
            section_pairs(article.sections@) == want.take(i + 1),
            forall|k: int| 0 <= k < article.sections@.len() ==> (#[trigger] article.sections@[k]).order == k && article.sections@[k].image_ref is None,
            article.title == topic,
            article.subtitle is None,
            article.author is None,
            article.word_count == 0,
            article.reading_time_minutes == 0,
        decreases outline@.len() - i,
    {
        let heading = outline[i].clone();
        let content = match &answers[i] {
            Some(text) => text.clone(),
            None => {
                let mut c = owned("Content for ");
                push_all(&mut c, outline[i].as_str());
                c
            },
        };
        let ghost before = article.sections@;
        article.add_section(heading, content);
        assert(section_pairs(article.sections@) =~= section_pairs(before).push(
            (outline@[i as int]@, content@),
        ));
        assert(want[i + 1] == (outline@[i as int]@, content@));
        assert(want.take(i + 2) =~= want.take(i + 1).push(want[i + 1]));
        i += 1;
    }
    let last = match conclusion {
        Some(c) => c,
        None => owned("Conclusion content"),
    };
    let ghost before = article.sections@;
    article.add_section(owned("Conclusion"), last);
    assert(section_pairs(article.sections@) =~= section_pairs(before).push(("Conclusion"@, last@)));
    assert(want.len() == outline@.len() + 2);
    assert(want =~= want.take(outline@.len() + 1 as int).push(want[outline@.len() + 1 as int]));
    article
}

/// The prompt for an article's header image.
pub open spec fn header_image_request(title: Seq<char>) -> Seq<char> {
    "A professional, eye-catching header image for an article titled: '"@ + title
        + "'. High quality, modern, visually appealing."@
}

impl ContentGenerator {
    /// The header image to generate for an article titled `title`: its
    /// prompt, this generator's image provider, and its alt text; the URL
    /// is set once the image exists.
    pub fn header_image_asset(&self, title: &str) -> (a: ImageAsset)
        ensures
            a.prompt@ == header_image_request(title@),
            a.provider@ == self.image_provider@,
            a.alt_text@ == "Header image for: "@ + title@,
            a.url is None,
            a.local_path is None,
            a.width is None,
            a.height is None,
    {
        let mut prompt = owned("A professional, eye-catching header image for an article titled: '");
        push_all(&mut prompt, title);
        push_all(&mut prompt, "'. High quality, modern, visually appealing.");
        let mut alt = owned("Header image for: ");
        push_all(&mut alt, title);
        ImageAsset::new(prompt, owned(self.image_provider.as_str()), alt)
    }

    /// The image to generate for the section headed `heading` of an article
    /// titled `title`.
    pub fn section_image_asset(&self, heading: &str, title: &str) -> (a: ImageAsset)
        ensures
            a.prompt@ == "An illustrative image for the section '"@ + heading@ + "' in an article about '"@
                + title@ + "'. Professional, informative, relevant to the content."@,
            a.provider@ == self.image_provider@,
            a.alt_text@ == "Illustration for section: "@ + heading@,
            a.url is None,
            a.local_path is None,
            a.width is None,
            a.height is None,
    {
        let mut prompt = owned("An illustrative image for the section '");
        push_all(&mut prompt, heading);
        push_all(&mut prompt, "' in an article about '");
        push_all(&mut prompt, title);
        push_all(&mut prompt, "'. Professional, informative, relevant to the content.");
        let mut alt = owned("Illustration for section: ");
        push_all(&mut alt, heading);
        ImageAsset::new(prompt, owned(self.image_provider.as_str()), alt)
    }

    /// The promotional clip to generate for `platform`, for an article
    /// titled `title` on `topic`, with its caption.
    pub fn social_clip(&self, platform: SocialPlatform, topic: &str, title: &str) -> (c: VideoClip)
        ensures
            c.prompt@ == "A short, engaging "@ + platform_slug(platform) + " promotional video about: '"@
                + topic@ + "'. Quick, attention-grabbing, suitable for social media."@,
            c.provider@ == self.video_provider@,
            c.platform == platform,
            c.caption matches Some(cap) && cap@ == "Check out our latest article: "@ + title@ + "! #content #"@
                + without_char(topic@, ' '),
            c.url is None,
            c.local_path is None,
            c.duration_seconds is None,
    {
        let mut prompt = owned("A short, engaging ");
        push_all(&mut prompt, platform_slug_text(platform));
        push_all(&mut prompt, " promotional video about: '");
        push_all(&mut prompt, topic);
        push_all(&mut prompt, "'. Quick, attention-grabbing, suitable for social media.");
        let mut caption = owned("Check out our latest article: ");
        push_all(&mut caption, title);
        push_all(&mut caption, "! #content #");
        let tag = remove_char(topic, ' ');
        push_all(&mut caption, tag.as_str());
        let mut clip = VideoClip::new(prompt, owned(self.video_provider.as_str()), platform);
        clip.caption = Some(caption);
        clip
    }
}

/// The headings of the sections that get an image: all but the
/// introduction and the conclusion, at most four, in order.
pub open spec fn illustrated(headings: Seq<Seq<char>>) -> Seq<Seq<char>>
    decreases headings.len(),
{
    if headings.len() == 0 {
        Seq::empty()
    } else {
        let rest = illustrated(headings.drop_last());
        let h = headings.last();
        if h == "Introduction"@ || h == "Conclusion"@ || rest.len() >= 4 {
            rest
        } else {
            rest.push(h)
        }
    }
}

/// The headings of the article's sections.
pub open spec fn section_headings(s: Seq<ArticleSection>) -> Seq<Seq<char>> {
    s.map_values(|x: ArticleSection| x.heading@)
}

/// The headings of the sections to illustrate.
pub fn sections_to_illustrate(article: &Article) -> (hs: Vec<String>)
    ensures
        string_views(hs@) == illustrated(section_headings(article.sections@)),
        hs@.len() <= 4,
{
    let ghost all = section_headings(article.sections@);
    let intro = owned("Introduction");
    let conclusion = owned("Conclusion");
    let mut hs: Vec<String> = Vec::new();
    let mut i: usize = 0;
    while i < article.sections.len()
        invariant
            i <= article.sections@.len(),
            all == section_headings(article.sections@),
            intro@ == "Introduction"@,
            conclusion@ == "Conclusion"@,
            string_views(hs@) == illustrated(all.take(i as int)),
            hs@.len() <= 4,
        decreases article.sections@.len() - i,
    {
        assert(all.take(i + 1).drop_last() == all.take(i as int));
        assert(all.take(i + 1).last() == article.sections@[i as int].heading@);
        let h = &article.sections[i].heading;
        if !(*h == intro) && !(*h == conclusion) && hs.len() < 4 {
            let ghost before = hs@;
            hs.push(h.clone());
            assert(string_views(hs@) == string_views(before).push(h@));
        }
        i += 1;
    }
    assert(all.take(all.len() as int) == all);
    hs
}

/// The platforms promotional clips are made for.
pub fn clip_platforms() -> (ps: Vec<SocialPlatform>)
    ensures
        ps@ == seq![SocialPlatform::Twitter, SocialPlatform::Instagram],
{
    let ps = vec![SocialPlatform::Twitter, SocialPlatform::Instagram];
    assert(ps@ =~= seq![SocialPlatform::Twitter, SocialPlatform::Instagram]);
    ps
}

/// A platform's name in lowercase, as clip prompts use it.
pub open spec fn platform_slug(p: SocialPlatform) -> Seq<char> {
    match p {
        SocialPlatform::Twitter => "twitter"@,
        SocialPlatform::Instagram => "instagram"@,
        SocialPlatform::TikTok => "tiktok"@,
        SocialPlatform::YouTube => "youtube"@,
        SocialPlatform::LinkedIn => "linkedin"@,
        SocialPlatform::Generic => "generic"@,
    }
}

/// A platform's name in lowercase.
pub fn platform_slug_text(p: SocialPlatform) -> (s: &'static str)
    ensures
        s@ == platform_slug(p),
{
    match p {
        SocialPlatform::Twitter => "twitter",
        SocialPlatform::Instagram => "instagram",
        SocialPlatform::TikTok => "tiktok",
        SocialPlatform::YouTube => "youtube",
        SocialPlatform::LinkedIn => "linkedin",
        SocialPlatform::Generic => "generic",
    }
}

/// The prompt asking for a meta description.
pub open spec fn meta_description_request(title: Seq<char>, first_content: Seq<char>) -> Seq<char> {
    "Write a compelling 150-160 character meta description for an article titled: '"@ + title
        + "'\n\nFirst section content:\n"@ + first_content + "\n\nMake it SEO-friendly and engaging."@
}

/// The content of the first section, or nothing.
pub open spec fn first_content(s: Seq<ArticleSection>) -> Seq<char> {
    if s.len() > 0 {
        s[0].content@
    } else {
        Seq::empty()
    }
}

/// The prompt asking for a meta description of the article.
pub fn meta_description_prompt(article: &Article) -> (p: String)
    ensures
        p@ == meta_description_request(article.title@, first_content(article.sections@)),
{
    let mut p = owned("Write a compelling 150-160 character meta description for an article titled: '");
    push_all(&mut p, article.title.as_str());
    push_all(&mut p, "'\n\nFirst section content:\n");
    if article.sections.len() > 0 {
        push_all(&mut p, article.sections[0].content.as_str());
    }
    push_all(&mut p, "\n\nMake it SEO-friendly and engaging.");
    p
}

/// The prompt asking for keywords, naming up to five section headings.
pub open spec fn keywords_request(title: Seq<char>, headings: Seq<Seq<char>>) -> Seq<char> {
    "Generate 5-10 SEO keywords for an article titled: '"@ + title + "'\n\nArticle covers:\n"@ + join(
        if headings.len() <= 5 {
            headings
        } else {
            headings.take(5)
        },
        ", "@,
    ) + "\n\nReturn only the keywords, comma-separated."@
}

/// The prompt asking for keywords for the article.
pub fn keywords_prompt(article: &Article) -> (p: String)
    ensures
        p@ == keywords_request(article.title@, section_headings(article.sections@)),
{
    let ghost all = section_headings(article.sections@);
    let mut p = owned("Generate 5-10 SEO keywords for an article titled: '");
    push_all(&mut p, article.title.as_str());
    push_all(&mut p, "'\n\nArticle covers:\n");
    let mut hs: Vec<String> = Vec::new();
    let mut i: usize = 0;
    while i < article.sections.len() && i < 5
        invariant
            i <= article.sections@.len(),
            i <= 5,
            all == section_headings(article.sections@),
            string_views(hs@) == all.take(i as int),
        decreases article.sections@.len() - i,
    {
        let ghost before = hs@;
        let h = article.sections[i].heading.clone();
        assert(all.take(i + 1) == all.take(i as int).push(h@));
        hs.push(h);
        assert(string_views(hs@) == string_views(before).push(h@));
        i += 1;
    }
    assert(all.len() <= 5 ==> all.take(all.len() as int) == all);
    let j = join_strings(&hs, ", ");
    push_all(&mut p, j.as_str());
    push_all(&mut p, "\n\nReturn only the keywords, comma-separated.");
    p
}

/// The Schema.org Article markup for an article published at `date`.
pub open spec fn article_schema_markup(article: Article, date: Seq<char>) -> Seq<char> {
    "{\n  \"@context\": \"https://schema.org\",\n  \"@type\": \"Article\",\n  \"headline\": \""@
        + article.title@ + "\",\n  \"wordCount\": "@ + decimal(article.word_count as nat)
        + ",\n  \"datePublished\": \""@ + date + "\",\n  \"author\": {\n    \"@type\": \"Person\",\n    \"name\": \""@
        + (match article.author {
        Some(a) => a@,
        None => "iDoris AI Assistant"@,
    }) + "\"\n  }\n}"@
}

/// Generate Schema.org JSON-LD markup for an article published at `date`.
pub fn schema_markup_at(article: &Article, date: &str) -> (s: String)
    ensures
        s@ == article_schema_markup(*article, date@),
{
    let mut s = owned("{\n  \"@context\": \"https://schema.org\",\n  \"@type\": \"Article\",\n  \"headline\": \"");
    push_all(&mut s, article.title.as_str());
    push_all(&mut s, "\",\n  \"wordCount\": ");
    let n = decimal_string(article.word_count);
    push_all(&mut s, n.as_str());
    push_all(&mut s, ",\n  \"datePublished\": \"");
    push_all(&mut s, date);
    push_all(&mut s, "\",\n  \"author\": {\n    \"@type\": \"Person\",\n    \"name\": \"");
    match &article.author {
        Some(a) => push_all(&mut s, a.as_str()),
        None => push_all(&mut s, "iDoris AI Assistant"),
    }
    push_all(&mut s, "\"\n  }\n}");
    s
}

/// Generate Schema.org JSON-LD markup, dated now.
pub fn generate_schema_markup(article: &Article) -> (s: String)
    ensures
        exists|date: Seq<char>| s@ == article_schema_markup(*article, date),
{
    let date = now_rfc3339();
    let s = schema_markup_at(article, date.as_str());
    assert(s@ == article_schema_markup(*article, date@));
    s
}

/// The SEO metadata made of the model's answers: the meta description
/// (the article's title where the model failed), cut to 160 characters;
/// the keywords, the comma-separated items of its answer (none where it
/// failed); the first keyword as the focus; and the schema markup.
pub fn seo_metadata_from(
    article: &Article,
    meta_answer: Option<String>,
    keywords_answer: Option<String>,
    schema: String,
) -> (m: SeoMetadata)
    ensures
        m.meta_title@ == article.title@,
        m.meta_description@ == first_chars(
            match meta_answer {
                Some(a) => a@,
                None => article.title@,
            },
            160,
        ),
        string_views(m.keywords@) == (match keywords_answer {
            Some(k) => trimmed_nonempty(pieces(k@, ',')),
            None => Seq::empty(),
        }),
        m.canonical_url is None,
        m.og_image is None,
        m.schema_markup == Some(schema),
        match m.focus_keyword {
            Some(f) => m.keywords@.len() > 0 && f@ == m.keywords@[0]@,
            None => m.keywords@.len() == 0,
        },
{
    let meta = match &meta_answer {
        Some(a) => take_chars(a.as_str(), 160),
        None => take_chars(article.title.as_str(), 160),
    };
    let keywords = match &keywords_answer {
        Some(k) => comma_items(k.as_str()),
        None => {
            let v: Vec<String> = Vec::new();
            assert(string_views(v@) =~= Seq::<Seq<char>>::empty());
            v
        },
    };
    let focus = if keywords.len() > 0 {
        Some(keywords[0].clone())
    } else {
        None
    };
    proof {
        if keywords@.len() > 0 {
            assert(string_views(keywords@)[0] == keywords@[0]@);
        }
    }
    SeoMetadata {
        meta_title: owned(article.title.as_str()),
        meta_description: meta,
        keywords,
        canonical_url: None,
        og_image: None,
        schema_markup: Some(schema),
        focus_keyword: focus,
    }
}

/// The progress reported when a stage starts: its percentage and its task.
pub open spec fn stage_progress(stage: GenerationStage) -> Option<(u8, Seq<char>)> {
    match stage {
        GenerationStage::GeneratingOutline => Some((10u8, "Creating article outline..."@)),
        GenerationStage::GeneratingArticle => Some((20u8, "Writing article content..."@)),
        GenerationStage::GeneratingHeaderImage => Some((40u8, "Creating header image..."@)),
        GenerationStage::GeneratingSectionImages => Some((55u8, "Creating section images..."@)),
        GenerationStage::GeneratingSocialClips => Some((70u8, "Creating social media clips..."@)),
        GenerationStage::GeneratingSeoMetadata => Some((85u8, "Generating SEO metadata..."@)),
        GenerationStage::Finalizing => Some((95u8, "Finalizing content package..."@)),
        GenerationStage::Complete => Some((100u8, "Content package complete!"@)),
        _ => None,
    }
}

/// The progress report for a stage of the generation; stages the
/// generation never reports give `None`.
pub fn progress_for(stage: GenerationStage) -> (p: Option<GenerationProgress>)
    ensures
        match stage_progress(stage) {
            Some((pct, task)) => p matches Some(g) && g.stage == stage && g.progress_percent == pct
                && g.current_task@ == task && g.estimated_time_remaining is None,
            None => p is None,
        },
{
    let (pct, task) = match stage {
        GenerationStage::GeneratingOutline => (10u8, "Creating article outline..."),
        GenerationStage::GeneratingArticle => (20u8, "Writing article content..."),
        GenerationStage::GeneratingHeaderImage => (40u8, "Creating header image..."),
        GenerationStage::GeneratingSectionImages => (55u8, "Creating section images..."),
        GenerationStage::GeneratingSocialClips => (70u8, "Creating social media clips..."),
        GenerationStage::GeneratingSeoMetadata => (85u8, "Generating SEO metadata..."),
        GenerationStage::Finalizing => (95u8, "Finalizing content package..."),
        GenerationStage::Complete => (100u8, "Content package complete!"),
        _ => {
            return None;
        },
    };
    Some(GenerationProgress { stage, progress_percent: pct, current_task: owned(task), estimated_time_remaining: None })
}

/// The stage after `stage` in a generation run, if any.
pub open spec fn next_stage_of(stage: GenerationStage) -> Option<GenerationStage> {
    match stage {
        GenerationStage::Initializing => Some(GenerationStage::GeneratingOutline),
        GenerationStage::GeneratingOutline => Some(GenerationStage::GeneratingArticle),
        GenerationStage::GeneratingArticle => Some(GenerationStage::GeneratingHeaderImage),
        GenerationStage::GeneratingHeaderImage => Some(GenerationStage::GeneratingSectionImages),
        GenerationStage::GeneratingSectionImages => Some(GenerationStage::GeneratingSocialClips),
        GenerationStage::GeneratingSocialClips => Some(GenerationStage::GeneratingSeoMetadata),
        GenerationStage::GeneratingSeoMetadata => Some(GenerationStage::Finalizing),
        GenerationStage::Finalizing => Some(GenerationStage::Complete),
        _ => None,
    }
}

/// The stage a generation run moves on to after `stage`.
pub fn next_stage(stage: GenerationStage) -> (n: Option<GenerationStage>)
    ensures
        n == next_stage_of(stage),
{
    match stage {
        GenerationStage::Initializing => Some(GenerationStage::GeneratingOutline),
        GenerationStage::GeneratingOutline => Some(GenerationStage::GeneratingArticle),
        GenerationStage::GeneratingArticle => Some(GenerationStage::GeneratingHeaderImage),
        GenerationStage::GeneratingHeaderImage => Some(GenerationStage::GeneratingSectionImages),
        GenerationStage::GeneratingSectionImages => Some(GenerationStage::GeneratingSocialClips),
        GenerationStage::GeneratingSocialClips => Some(GenerationStage::GeneratingSeoMetadata),
        GenerationStage::GeneratingSeoMetadata => Some(GenerationStage::Finalizing),
        GenerationStage::Finalizing => Some(GenerationStage::Complete),
        _ => None,
    }
}

/// `g` is the progress reported when `stage` starts.
pub open spec fn reports(g: GenerationProgress, stage: GenerationStage) -> bool {
    &&& g.stage == stage
    &&& stage_progress(stage) == Some((g.progress_percent, g.current_task@))
    &&& g.estimated_time_remaining is None
}

/// What the work of a stage of a package run gave.
pub enum StageOutcome {
    /// The outline's section headings, or why they could not be made.
    Outline(Result<Vec<String>, String>),
    /// The article written from the outline.
    Article(Result<Article, String>),
    /// The header image; a run goes on without one.
    HeaderImage(Result<ImageAsset, String>),
    /// The images of the sections.
    SectionImages(Result<Vec<ImageAsset>, String>),
    /// The social media clips; a run goes on without them.
    SocialClips(Result<Vec<VideoClip>, String>),
    /// The SEO metadata.
    SeoMetadata(Result<SeoMetadata, String>),
    /// The run was finalized at this time.
    Finalized(Timestamp),
}

/// The stage whose work an outcome reports.
pub open spec fn outcome_stage(o: StageOutcome) -> GenerationStage {
    match o {
        StageOutcome::Outline(_) => GenerationStage::GeneratingOutline,
        StageOutcome::Article(_) => GenerationStage::GeneratingArticle,
        StageOutcome::HeaderImage(_) => GenerationStage::GeneratingHeaderImage,
        StageOutcome::SectionImages(_) => GenerationStage::GeneratingSectionImages,
        StageOutcome::SocialClips(_) => GenerationStage::GeneratingSocialClips,
        StageOutcome::SeoMetadata(_) => GenerationStage::GeneratingSeoMetadata,
        StageOutcome::Finalized(_) => GenerationStage::Finalizing,
    }
}

/// What a package run does after a stage.
pub enum RunStep {
    /// Report this progress and do the work of its stage.
    Work(GenerationProgress),
    /// The run failed with this error.
    Failed(String),
    /// The package is complete: report this progress.
    Complete(GenerationProgress),
}

/// A run that builds a content package from a topic, stage by stage: the
/// stage whose work is awaited, the package so far and the outline.
pub struct PackageRun {
    pub stage: GenerationStage,
    pub package: ContentPackage,
    pub outline: Vec<String>,
}

/// The progress report for a stage that reports one.
fn report(stage: GenerationStage) -> (g: GenerationProgress)
    requires
        stage_progress(stage) is Some,
    ensures
        reports(g, stage),
{
    match progress_for(stage) {
        Some(g) => g,
        None => {
            assert(false);
            GenerationProgress {
                stage,
                progress_percent: 0,
                current_task: String::new(),
                estimated_time_remaining: None,
            }
        },
    }
}

impl PackageRun {
    /// Start a run for `topic`: an empty package for it, and the outline is
    /// the first work, reported at 10%.
    pub fn start(topic: String) -> (r: (PackageRun, GenerationProgress))
        ensures
            r.0.stage == GenerationStage::GeneratingOutline,
            r.0.package.topic == topic,
            r.0.package.article.sections@.len() == 0,
            r.0.package.header_image is None,
            r.0.package.section_images@.len() == 0,
            r.0.package.social_clips@.len() == 0,
            r.0.outline@.len() == 0,
            reports(r.1, GenerationStage::GeneratingOutline),
    {
        let run = PackageRun {
            stage: GenerationStage::GeneratingOutline,
            package: ContentPackage::new(topic),
            outline: Vec::new(),
        };
        (run, report(GenerationStage::GeneratingOutline))
    }

    /// Take the outcome of the stage's work and say what comes next. The
    /// outline, article, section images and SEO metadata must succeed: their
    /// error ends the run. A header image or clips that fail are left out
    /// and the run goes on. Each success is put into the package and the
    /// next stage's progress is reported; finalizing stamps the package and
    /// completes it at 100%.
    pub fn advance(&mut self, outcome: StageOutcome) -> (step: RunStep)
        requires
            outcome_stage(outcome) == old(self).stage,
            outcome matches StageOutcome::Article(Ok(a)) ==> crate::models::content_package::article_words(
                a.sections@,
            ) <= usize::MAX,
        ensures
            final(self).package.id == old(self).package.id,
            final(self).package.topic == old(self).package.topic,
            final(self).package.created_at == old(self).package.created_at,
            match outcome {
                StageOutcome::Outline(Err(e)) | StageOutcome::Article(Err(e)) | StageOutcome::SectionImages(Err(e))
                | StageOutcome::SeoMetadata(Err(e)) => step == RunStep::Failed(e) && final(self).stage
                    == GenerationStage::Failed && final(self).package == old(self).package,
                StageOutcome::Finalized(t) => final(self).stage == GenerationStage::Complete && (step matches RunStep::Complete(g)
                    && reports(g, GenerationStage::Complete)) && final(self).package == (ContentPackage {
                    updated_at: t,
                    ..old(self).package
                }),
                _ => final(self).stage == next_stage_of(old(self).stage)->0 && (step matches RunStep::Work(g) && reports(
                    g,
                    final(self).stage,
                )) && match outcome {
                    StageOutcome::Outline(Ok(hs)) => final(self).outline == hs && final(self).package == old(
                        self,
                    ).package,
                    StageOutcome::Article(Ok(a)) => final(self).package == (ContentPackage {
                        article: Article {
                            word_count: crate::models::content_package::article_words(a.sections@) as usize,
                            reading_time_minutes: crate::models::content_package::reading_minutes(
                                crate::models::content_package::article_words(a.sections@),
                            ) as u32,
                            ..a
                        },
                        ..old(self).package
                    }),
                    StageOutcome::HeaderImage(Ok(h)) => final(self).package == (ContentPackage {
                        header_image: Some(h),
                        ..old(self).package
                    }),
                    StageOutcome::SectionImages(Ok(v)) => final(self).package == (ContentPackage {
                        section_images: v,
                        ..old(self).package
                    }),
                    StageOutcome::SocialClips(Ok(v)) => final(self).package == (ContentPackage {
                        social_clips: v,
                        ..old(self).package
                    }),
                    StageOutcome::SeoMetadata(Ok(m)) => final(self).package == (ContentPackage {
                        seo_metadata: m,
                        ..old(self).package
                    }),
                    _ => final(self).package == old(self).package,
                },
            },
    {
        match outcome {
            StageOutcome::Outline(Ok(hs)) => {
                self.outline = hs;
                self.stage = GenerationStage::GeneratingArticle;
            },
            StageOutcome::Article(Ok(a)) => {
                self.package.article = a;
                self.package.update_reading_time();
                self.stage = GenerationStage::GeneratingHeaderImage;
            },
            StageOutcome::HeaderImage(r) => {
                if let Ok(h) = r {
                    self.package.header_image = Some(h);
                }
                self.stage = GenerationStage::GeneratingSectionImages;
            },
            StageOutcome::SectionImages(Ok(v)) => {
                self.package.section_images = v;
                self.stage = GenerationStage::GeneratingSocialClips;
            },
            StageOutcome::SocialClips(r) => {
                if let Ok(v) = r {
                    self.package.social_clips = v;
                }
                self.stage = GenerationStage::GeneratingSeoMetadata;
            },
            StageOutcome::SeoMetadata(Ok(m)) => {
                self.package.seo_metadata = m;
                self.stage = GenerationStage::Finalizing;
            },
            StageOutcome::Finalized(t) => {
                self.package.updated_at = t;
                self.stage = GenerationStage::Complete;
                return RunStep::Complete(report(GenerationStage::Complete));
            },
            StageOutcome::Outline(Err(e)) | StageOutcome::Article(Err(e)) | StageOutcome::SectionImages(Err(e))
            | StageOutcome::SeoMetadata(Err(e)) => {
                self.stage = GenerationStage::Failed;
                return RunStep::Failed(e);
            },
        }
        RunStep::Work(report(self.stage))
    }
}

/// A run that failed or completed takes no more outcomes, since no stage's
/// work reports for those stages: nothing is reported after an error or
/// after completion.
pub proof fn lemma_run_ends(o: StageOutcome)
    ensures
        outcome_stage(o) != GenerationStage::Failed,
        outcome_stage(o) != GenerationStage::Complete,
{
}

/// Progress only grows as a run moves from stage to stage, and the run
/// ends complete at 100%.
pub proof fn lemma_progress_grows(stage: GenerationStage)
    ensures
        next_stage_of(stage) matches Some(n) ==> (stage_progress(stage) matches Some(p) ==> (
        stage_progress(n) matches Some(q) && p.0 < q.0)),
        stage_progress(GenerationStage::Complete) matches Some(p) && p.0 == 100,
        next_stage_of(GenerationStage::Complete) is None,
{
}

/// The Markdown of the article's sections.
pub open spec fn sections_markdown(s: Seq<ArticleSection>) -> Seq<char>
    decreases s.len(),
{
    if s.len() == 0 {
        Seq::empty()
    } else {
        sections_markdown(s.drop_last()) + "## "@ + s.last().heading@ + "\n\n"@ + s.last().content@ + "\n\n"@
    }
}

/// A content package as Markdown.
pub open spec fn package_markdown(p: ContentPackage) -> Seq<char> {
    "# "@ + p.article.title@ + "\n\n"@ + (match p.article.subtitle {
        Some(s) => "## "@ + s@ + "\n\n"@,
        None => Seq::empty(),
    }) + "*Reading time: "@ + decimal(p.article.reading_time_minutes as nat) + " min*\n\n"@ + "---\n\n"@
        + sections_markdown(p.article.sections@) + "---\n\n"@ + "**Keywords**: "@ + join(
        string_views(p.seo_metadata.keywords@),
        ", "@,
    ) + "\n"@
}

/// Export to Markdown format
pub fn export_to_markdown(package: &ContentPackage) -> (md: String)
    ensures
        md@ == package_markdown(*package),
{
    let a = &package.article;
    let mut md = owned("# ");
    push_all(&mut md, a.title.as_str());
    push_all(&mut md, "\n\n");
    match &a.subtitle {
        Some(sub) => {
            push_all(&mut md, "## ");
            push_all(&mut md, sub.as_str());
            push_all(&mut md, "\n\n");
        },
        None => {},
    }
    push_all(&mut md, "*Reading time: ");
    let n = decimal_string(a.reading_time_minutes as usize);
    push_all(&mut md, n.as_str());
    push_all(&mut md, " min*\n\n");
    push_all(&mut md, "---\n\n");
    let ghost head = md@;
    let mut i: usize = 0;
    while i < a.sections.len()
        invariant
            i <= a.sections@.len(),
            md@ == head + sections_markdown(a.sections@.take(i as int)),
        decreases a.sections@.len() - i,
    {
        assert(a.sections@.take(i + 1).drop_last() == a.sections@.take(i as int));
        push_all(&mut md, "## ");
        push_all(&mut md, a.sections[i].heading.as_str());
        push_all(&mut md, "\n\n");
        push_all(&mut md, a.sections[i].content.as_str());
        push_all(&mut md, "\n\n");
        i += 1;
    }
    assert(a.sections@.take(a.sections@.len() as int) == a.sections@);
    push_all(&mut md, "---\n\n");
    push_all(&mut md, "**Keywords**: ");
    let k = join_strings(&package.seo_metadata.keywords, ", ");
    push_all(&mut md, k.as_str());
    push_all(&mut md, "\n");
    md
}

/// The HTML of the article's sections.
pub open spec fn sections_html(s: Seq<ArticleSection>) -> Seq<char>
    decreases s.len(),
{
    if s.len() == 0 {
        Seq::empty()
    } else {
        sections_html(s.drop_last()) + "  <h2>"@ + s.last().heading@ + "</h2>\n"@ + "  <p>"@ + s.last().content@
            + "</p>\n"@
    }
}

/// A content package as an HTML page.
pub open spec fn package_html(p: ContentPackage) -> Seq<char> {
    "<!DOCTYPE html>\n<html>\n<head>\n"@ + "  <title>"@ + p.article.title@ + "</title>\n"@
        + "  <meta name=\"description\" content=\""@ + p.seo_metadata.meta_description@ + "\">\n"@
        + "  <meta name=\"keywords\" content=\""@ + join(string_views(p.seo_metadata.keywords@), ", "@)
        + "\">\n"@ + "</head>\n<body>\n"@ + "  <h1>"@ + p.article.title@ + "</h1>\n"@ + sections_html(
        p.article.sections@,
    ) + "</body>\n</html>"@
}

/// Export to HTML format
pub fn export_to_html(package: &ContentPackage) -> (html: String)
    ensures
        html@ == package_html(*package),
{
    let a = &package.article;
    let mut html = owned("<!DOCTYPE html>\n<html>\n<head>\n");
    push_all(&mut html, "  <title>");
    push_all(&mut html, a.title.as_str());
    push_all(&mut html, "</title>\n");
    push_all(&mut html, "  <meta name=\"description\" content=\"");
    push_all(&mut html, package.seo_metadata.meta_description.as_str());
    push_all(&mut html, "\">\n");
    push_all(&mut html, "  <meta name=\"keywords\" content=\"");
    let k = join_strings(&package.seo_metadata.keywords, ", ");
    push_all(&mut html, k.as_str());
    push_all(&mut html, "\">\n");
    push_all(&mut html, "</head>\n<body>\n");
    push_all(&mut html, "  <h1>");
    push_all(&mut html, a.title.as_str());
    push_all(&mut html, "</h1>\n");
    let ghost head = html@;
    let mut i: usize = 0;
    while i < a.sections.len()
        invariant
            i <= a.sections@.len(),
            html@ == head + sections_html(a.sections@.take(i as int)),
        decreases a.sections@.len() - i,
    {
        assert(a.sections@.take(i + 1).drop_last() == a.sections@.take(i as int));
        push_all(&mut html, "  <h2>");
        push_all(&mut html, a.sections[i].heading.as_str());
        push_all(&mut html, "</h2>\n");
        push_all(&mut html, "  <p>");
        push_all(&mut html, a.sections[i].content.as_str());
        push_all(&mut html, "</p>\n");
        i += 1;
    }
    assert(a.sections@.take(a.sections@.len() as int) == a.sections@);
    push_all(&mut html, "</body>\n</html>");
    html
}

/// Export content package to a text format. JSON is the serialization of
/// the package, which the caller produces: it gives `None` here. WordPress
/// takes the HTML export and Medium the Markdown one.
pub fn export_content_package(package: &ContentPackage, format: ExportFormat) -> (r: Option<String>)
    ensures
        match format {
            ExportFormat::Markdown | ExportFormat::Medium => r matches Some(s) && s@ == package_markdown(*package),
            ExportFormat::Html | ExportFormat::WordPress => r matches Some(s) && s@ == package_html(*package),
            ExportFormat::Json => r is None,
        },
{
    match format {
        ExportFormat::Markdown => Some(export_to_markdown(package)),
        ExportFormat::Html => Some(export_to_html(package)),
        ExportFormat::Json => None,
        ExportFormat::WordPress => Some(export_to_html(package)),
        ExportFormat::Medium => Some(export_to_markdown(package)),
    }
}

/// An assembled article opens with the introduction as written, has one
/// section per outline heading (with the model's text where it answered),
/// and closes with the conclusion: the model's conclusion whenever it gave
/// one.
pub proof fn lemma_article_keeps_answers(
    outline: Seq<Seq<char>>,
    intro: Seq<char>,
    answers: Seq<Option<Seq<char>>>,
    conclusion: Option<Seq<char>>,
)
    requires
        answers.len() == outline.len(),
    ensures
        ({
            let secs = article_sections(outline, intro, answers, conclusion);
            &&& secs.len() == outline.len() + 2
            &&& secs[0] == ("Introduction"@, intro)
            &&& forall|i: int|
                0 <= i < outline.len() ==> (#[trigger] secs[i + 1]).0 == outline[i] && (answers[i] matches Some(t)
                    ==> secs[i + 1].1 == t)
            &&& secs.last().0 == "Conclusion"@
            &&& conclusion matches Some(c) ==> secs.last().1 == c
        }),
{
}

} // verus!
