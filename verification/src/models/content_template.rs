//! Content template system: article templates for different platforms
//! and the editor state built from them.
use vstd::prelude::*;
use crate::deps::{markdown_html, markdown_to_html, new_id};
use crate::text::{count_words_in, owned, push_all, push_char, words};

verus! {

/// Target platform for content
#[derive(Clone, Copy, Debug, PartialEq, Eq, Structural)]
pub enum Platform {
    Blog,
    WeChat,
    XiaoHongShu,
    Twitter,
    LinkedIn,
    Medium,
    Custom,
}

impl Default for Platform {
    fn default() -> (p: Self)
        ensures
            p == Platform::Blog,
    {
        Platform::Blog
    }
}

/// Display name of a platform.
pub open spec fn platform_name(p: Platform) -> Seq<char> {
    match p {
        Platform::Blog => "Blog Post"@,
        Platform::WeChat => "微信公众号"@,
        Platform::XiaoHongShu => "小红书"@,
        Platform::Twitter => "Twitter/X Thread"@,
        Platform::LinkedIn => "LinkedIn Article"@,
        Platform::Medium => "Medium Story"@,
        Platform::Custom => "Custom"@,
    }
}

/// Icon of a platform.
pub open spec fn platform_icon(p: Platform) -> Seq<char> {
    match p {
        Platform::Blog => "📝"@,
        Platform::WeChat => "💬"@,
        Platform::XiaoHongShu => "📕"@,
        Platform::Twitter => "🐦"@,
        Platform::LinkedIn => "💼"@,
        Platform::Medium => "📰"@,
        Platform::Custom => "⚙️"@,
    }
}

impl Platform {
    pub fn display_name(&self) -> (r: &'static str)
        ensures
            r@ == platform_name(*self),
    {
        match self {
            Platform::Blog => "Blog Post",
            Platform::WeChat => "微信公众号",
            Platform::XiaoHongShu => "小红书",
            Platform::Twitter => "Twitter/X Thread",
            Platform::LinkedIn => "LinkedIn Article",
            Platform::Medium => "Medium Story",
            Platform::Custom => "Custom",
        }
    }

    pub fn icon(&self) -> (r: &'static str)
        ensures
            r@ == platform_icon(*self),
    {
        match self {
            Platform::Blog => "📝",
            Platform::WeChat => "💬",
            Platform::XiaoHongShu => "📕",
            Platform::Twitter => "🐦",
            Platform::LinkedIn => "💼",
            Platform::Medium => "📰",
            Platform::Custom => "⚙️",
        }
    }
}

/// Writing style for content generation
#[derive(Clone, Copy, Debug, PartialEq, Eq, Structural)]
pub enum WritingStyle {
    Professional,
    Casual,
    Academic,
    Conversational,
    Persuasive,
    Storytelling,
}

impl Default for WritingStyle {
    fn default() -> (w: Self)
        ensures
            w == WritingStyle::Professional,
    {
        WritingStyle::Professional
    }
}
/// Display name of a writing style.
pub open spec fn style_name(w: WritingStyle) -> Seq<char> {
    match w {
        WritingStyle::Professional => "Professional"@,
        WritingStyle::Casual => "Casual"@,
        WritingStyle::Academic => "Academic"@,
        WritingStyle::Conversational => "Conversational"@,
        WritingStyle::Persuasive => "Persuasive"@,
        WritingStyle::Storytelling => "Storytelling"@,
    }
}
/// System prompt of a writing style.
pub open spec fn style_prompt(w: WritingStyle) -> Seq<char> {
    match w {
        WritingStyle::Professional => "Write in a professional, clear, and authoritative tone. Use industry-standard terminology and maintain objectivity."@,
        WritingStyle::Casual => "Write in a friendly, relaxed tone. Use simple language and feel free to include personal anecdotes."@,
        WritingStyle::Academic => "Write in a formal, scholarly tone. Cite sources, use precise terminology, and maintain objectivity."@,
        WritingStyle::Conversational => "Write as if talking to a friend. Use 'you' and 'I', ask questions, and keep it engaging."@,
        WritingStyle::Persuasive => "Write to convince the reader. Use strong arguments, emotional appeals, and clear calls to action."@,
        WritingStyle::Storytelling => "Write in a narrative style. Use vivid descriptions, build tension, and engage emotions."@,
    }
}
impl WritingStyle {
    pub fn display_name(&self) -> (r: &'static str)
        ensures
            r@ == style_name(*self),
    {
        match self {
            WritingStyle::Professional => "Professional",
            WritingStyle::Casual => "Casual",
            WritingStyle::Academic => "Academic",
            WritingStyle::Conversational => "Conversational",
            WritingStyle::Persuasive => "Persuasive",
            WritingStyle::Storytelling => "Storytelling",
        }
    }

    pub fn system_prompt(&self) -> (r: &'static str)
        ensures
            r@ == style_prompt(*self),
    {
        match self {
            WritingStyle::Professional => "Write in a professional, clear, and authoritative tone. Use industry-standard terminology and maintain objectivity.",
            WritingStyle::Casual => "Write in a friendly, relaxed tone. Use simple language and feel free to include personal anecdotes.",
            WritingStyle::Academic => "Write in a formal, scholarly tone. Cite sources, use precise terminology, and maintain objectivity.",
            WritingStyle::Conversational => "Write as if talking to a friend. Use 'you' and 'I', ask questions, and keep it engaging.",
            WritingStyle::Persuasive => "Write to convince the reader. Use strong arguments, emotional appeals, and clear calls to action.",
            WritingStyle::Storytelling => "Write in a narrative style. Use vivid descriptions, build tension, and engage emotions.",
        }
    }
}
/// A section within an article template
#[derive(Clone, Debug)]
pub struct TemplateSection {
    pub id: String,
    pub title: String,
    pub prompt: String,
    pub word_limit: Option<usize>,
    pub is_optional: bool,
}

impl TemplateSection {
    pub fn new(title: &str, prompt: &str) -> (s: Self)
        ensures
            s.title@ == title@,
            s.prompt@ == prompt@,
            s.word_limit is None,
            !s.is_optional,
    {
        TemplateSection {
            id: new_id(),
            title: owned(title),
            prompt: owned(prompt),
            word_limit: None,
            is_optional: false,
        }
    }

    pub fn with_word_limit(self, limit: usize) -> (s: Self)
        ensures
            s.word_limit == Some(limit),
            s.id == self.id,
            s.title == self.title,
            s.prompt == self.prompt,
            s.is_optional == self.is_optional,
    {
        let mut s = self;
        s.word_limit = Some(limit);
        s
    }

    pub fn optional(self) -> (s: Self)
        ensures
            s.is_optional,
            s.id == self.id,
            s.title == self.title,
            s.prompt == self.prompt,
            s.word_limit == self.word_limit,
    {
        let mut s = self;
        s.is_optional = true;
        s
    }
}

/// Article template definition
#[derive(Clone, Debug)]
pub struct ArticleTemplate {
    pub id: String,
    pub name: String,
    pub description: String,
    pub platform: Platform,
    pub style: WritingStyle,
    pub sections: Vec<TemplateSection>,
    pub is_builtin: bool,
}

impl ArticleTemplate {
    pub fn new(name: &str, platform: Platform) -> (t: Self)
        ensures
            t.name@ == name@,
            t.description@.len() == 0,
            t.platform == platform,
            t.style == WritingStyle::Professional,
            t.sections@.len() == 0,
            !t.is_builtin,
    {
        ArticleTemplate {
            id: new_id(),
            name: owned(name),
            description: String::new(),
            platform,
            style: WritingStyle::default(),
            sections: Vec::new(),
            is_builtin: false,
        }
    }

    pub fn with_description(self, desc: &str) -> (t: Self)
        ensures
            t.description@ == desc@,
            t.id == self.id,
            t.name == self.name,
            t.platform == self.platform,
            t.style == self.style,
            t.sections == self.sections,
            t.is_builtin == self.is_builtin,
    {
        let mut t = self;
        t.description = owned(desc);
        t
    }

    pub fn with_style(self, style: WritingStyle) -> (t: Self)
        ensures
            t.style == style,
            t.id == self.id,
            t.name == self.name,
            t.description == self.description,
            t.platform == self.platform,
            t.sections == self.sections,
            t.is_builtin == self.is_builtin,
    {
        let mut t = self;
        t.style = style;
        t
    }

    pub fn add_section(self, section: TemplateSection) -> (t: Self)
        ensures
            t.sections@ == self.sections@.push(section),
            t.id == self.id,
            t.name == self.name,
            t.description == self.description,
            t.platform == self.platform,
            t.style == self.style,
            t.is_builtin == self.is_builtin,
    {
        let mut t = self;
        t.sections.push(section);
        t
    }

    pub fn builtin(self) -> (t: Self)
        ensures
            t.is_builtin,
            t.id == self.id,
            t.name == self.name,
            t.description == self.description,
            t.platform == self.platform,
            t.style == self.style,
            t.sections == self.sections,
    {
        let mut t = self;
        t.is_builtin = true;
        t
    }
}

/// Name, platform, description and style of the built-in template `t`.
pub open spec fn builtin_template_head(t: int) -> (Seq<char>, Platform, Seq<char>, WritingStyle) {
    if t == 0 {
        ("Tech Blog Post"@, Platform::Blog, "A standard technical blog post with introduction, main content, and conclusion"@, WritingStyle::Professional)
    } else if t == 1 {
        ("小红书种草"@, Platform::XiaoHongShu, "小红书风格的种草推荐文案，适合产品推荐"@, WritingStyle::Conversational)
    } else if t == 2 {
        ("Twitter Thread"@, Platform::Twitter, "A viral Twitter thread format with hook, content, and CTA"@, WritingStyle::Conversational)
    } else if t == 3 {
        ("微信公众号文章"@, Platform::WeChat, "适合微信公众号的长文格式"@, WritingStyle::Storytelling)
    } else {
        ("LinkedIn Article"@, Platform::LinkedIn, "Professional article format for LinkedIn"@, WritingStyle::Professional)
    }
}

/// Title, prompt, word limit and optionality of section `k` of the
/// built-in template `t`.
pub open spec fn builtin_template_section(t: int, k: int) -> (Seq<char>, Seq<char>, usize, bool) {
    if t == 0 && k == 0 {
        ("Introduction"@, "Write an engaging introduction that hooks the reader and explains what problem this article solves."@, 150, false)
    } else if t == 0 && k == 1 {
        ("Background"@, "Provide necessary background context for readers who may be unfamiliar with the topic."@, 200, true)
    } else if t == 0 && k == 2 {
        ("Main Content"@, "Explain the main concepts, techniques, or solutions in detail. Use code examples where appropriate."@, 800, false)
    } else if t == 0 && k == 3 {
        ("Best Practices"@, "Share practical tips and best practices related to the topic."@, 300, true)
    } else if t == 0 && k == 4 {
        ("Conclusion"@, "Summarize key takeaways and provide next steps or resources for further learning."@, 150, false)
    } else if t == 1 && k == 0 {
        ("吸睛标题"@, "写一个吸引眼球的标题，可以用emoji，要有冲击力和悬念感"@, 30, false)
    } else if t == 1 && k == 1 {
        ("痛点共鸣"@, "描述目标用户的痛点或困扰，让读者产生共鸣"@, 100, false)
    } else if t == 1 && k == 2 {
        ("产品介绍"@, "介绍推荐的产品/方法，强调独特卖点和使用体验"@, 200, false)
    } else if t == 1 && k == 3 {
        ("使用效果"@, "分享使用效果和个人体验，要真实可信"@, 150, false)
    } else if t == 1 && k == 4 {
        ("行动号召"@, "引导读者行动，可以是收藏、关注、购买链接等"@, 50, false)
    } else if t == 2 && k == 0 {
        ("Hook Tweet"@, "Write a compelling hook that makes people want to read the thread. Use curiosity, controversy, or value promise."@, 280, false)
    } else if t == 2 && k == 1 {
        ("Context Tweet"@, "Provide context or background for the main content."@, 280, false)
    } else if t == 2 && k == 2 {
        ("Main Points (5 tweets)"@, "Break down the main content into 5 digestible tweets. Each should stand alone but flow together."@, 1400, false)
    } else if t == 2 && k == 3 {
        ("Summary Tweet"@, "Summarize the key takeaways in one tweet."@, 280, false)
    } else if t == 2 && k == 4 {
        ("CTA Tweet"@, "End with a call to action - follow, retweet, or link to more content."@, 280, false)
    } else if t == 3 && k == 0 {
        ("标题"@, "写一个吸引人的标题，控制在20字以内"@, 20, false)
    } else if t == 3 && k == 1 {
        ("引子"@, "用一个故事、问题或现象引入话题，吸引读者继续阅读"@, 200, false)
    } else if t == 3 && k == 2 {
        ("正文"@, "展开主要内容，可以分小节，每节有小标题"@, 1500, false)
    } else if t == 3 && k == 3 {
        ("金句/观点"@, "提炼一两句可以被转发的金句或核心观点"@, 100, false)
    } else if t == 3 && k == 4 {
        ("结尾互动"@, "以问题或互动结尾，引导读者留言或转发"@, 100, false)
    } else if t == 4 && k == 0 {
        ("Headline"@, "Write a professional headline that promises value to the reader."@, 100, false)
    } else if t == 4 && k == 1 {
        ("Personal Hook"@, "Start with a personal story or observation that relates to your professional experience."@, 150, false)
    } else if t == 4 && k == 2 {
        ("Key Insights"@, "Share 3-5 key insights or lessons learned, each with a brief explanation."@, 600, false)
    } else if t == 4 && k == 3 {
        ("Actionable Advice"@, "Provide concrete, actionable advice readers can apply immediately."@, 200, false)
    } else {
        ("Call to Discussion"@, "End with a question or call for others to share their experiences."@, 100, false)
    }
}

/// `tp` is the built-in template number `t`.
pub open spec fn is_builtin_template(tp: ArticleTemplate, t: int) -> bool {
    let head = builtin_template_head(t);
    &&& tp.name@ == head.0
    &&& tp.platform == head.1
    &&& tp.description@ == head.2
    &&& tp.style == head.3
    &&& tp.is_builtin
    &&& tp.sections@.len() == 5
    &&& forall|k: int|
        0 <= k < 5 ==> {
            let sec = builtin_template_section(t, k);
            &&& (#[trigger] tp.sections@[k]).title@ == sec.0
            &&& tp.sections@[k].prompt@ == sec.1
            &&& tp.sections@[k].word_limit == Some(sec.2)
            &&& tp.sections@[k].is_optional == sec.3
        }
}

/// Tech blog post: introduction, main content and conclusion.
fn tech_blog_template() -> (tp: ArticleTemplate)
    ensures
        is_builtin_template(tp, 0),
{
    let tp = ArticleTemplate::new("Tech Blog Post", Platform::Blog)
        .with_description("A standard technical blog post with introduction, main content, and conclusion")
        .with_style(WritingStyle::Professional)
        .add_section(
            TemplateSection::new(
                "Introduction",
                "Write an engaging introduction that hooks the reader and explains what problem this article solves.",
            ).with_word_limit(150),
        )
        .add_section(
            TemplateSection::new(
                "Background",
                "Provide necessary background context for readers who may be unfamiliar with the topic.",
            ).with_word_limit(200).optional(),
        )
        .add_section(
            TemplateSection::new(
                "Main Content",
                "Explain the main concepts, techniques, or solutions in detail. Use code examples where appropriate.",
            ).with_word_limit(800),
        )
        .add_section(
            TemplateSection::new(
                "Best Practices",
                "Share practical tips and best practices related to the topic.",
            ).with_word_limit(300).optional(),
        )
        .add_section(
            TemplateSection::new(
                "Conclusion",
                "Summarize key takeaways and provide next steps or resources for further learning.",
            ).with_word_limit(150),
        )
        .builtin();
    tp
}

/// Product recommendation note in the XiaoHongShu style.
fn xiaohongshu_template() -> (tp: ArticleTemplate)
    ensures
        is_builtin_template(tp, 1),
{
    let tp = ArticleTemplate::new("小红书种草", Platform::XiaoHongShu)
        .with_description("小红书风格的种草推荐文案，适合产品推荐")
        .with_style(WritingStyle::Conversational)
        .add_section(
            TemplateSection::new(
                "吸睛标题",
                "写一个吸引眼球的标题，可以用emoji，要有冲击力和悬念感",
            ).with_word_limit(30),
        )
        .add_section(
            TemplateSection::new(
                "痛点共鸣",
                "描述目标用户的痛点或困扰，让读者产生共鸣",
            ).with_word_limit(100),
        )
        .add_section(
            TemplateSection::new(
                "产品介绍",
                "介绍推荐的产品/方法，强调独特卖点和使用体验",
            ).with_word_limit(200),
        )
        .add_section(
            TemplateSection::new(
                "使用效果",
                "分享使用效果和个人体验，要真实可信",
            ).with_word_limit(150),
        )
        .add_section(
            TemplateSection::new(
                "行动号召",
                "引导读者行动，可以是收藏、关注、购买链接等",
            ).with_word_limit(50),
        )
        .builtin();
    tp
}

/// Twitter thread: hook, content and call to action.
fn twitter_thread_template() -> (tp: ArticleTemplate)
    ensures
        is_builtin_template(tp, 2),
{
    let tp = ArticleTemplate::new("Twitter Thread", Platform::Twitter)
        .with_description("A viral Twitter thread format with hook, content, and CTA")
        .with_style(WritingStyle::Conversational)
        .add_section(
            TemplateSection::new(
                "Hook Tweet",
                "Write a compelling hook that makes people want to read the thread. Use curiosity, controversy, or value promise.",
            ).with_word_limit(280),
        )
        .add_section(
            TemplateSection::new(
                "Context Tweet",
                "Provide context or background for the main content.",
            ).with_word_limit(280),
        )
        .add_section(
            TemplateSection::new(
                "Main Points (5 tweets)",
                "Break down the main content into 5 digestible tweets. Each should stand alone but flow together.",
            ).with_word_limit(1400),
        )
        .add_section(
            TemplateSection::new(
                "Summary Tweet",
                "Summarize the key takeaways in one tweet.",
            ).with_word_limit(280),
        )
        .add_section(
            TemplateSection::new(
                "CTA Tweet",
                "End with a call to action - follow, retweet, or link to more content.",
            ).with_word_limit(280),
        )
        .builtin();
    tp
}

/// Long-form WeChat official account article.
fn wechat_article_template() -> (tp: ArticleTemplate)
    ensures
        is_builtin_template(tp, 3),
{
    let tp = ArticleTemplate::new("微信公众号文章", Platform::WeChat)
        .with_description("适合微信公众号的长文格式")
        .with_style(WritingStyle::Storytelling)
        .add_section(
            TemplateSection::new(
                "标题",
                "写一个吸引人的标题，控制在20字以内",
            ).with_word_limit(20),
        )
        .add_section(
            TemplateSection::new(
                "引子",
                "用一个故事、问题或现象引入话题，吸引读者继续阅读",
            ).with_word_limit(200),
        )
        .add_section(
            TemplateSection::new(
                "正文",
                "展开主要内容，可以分小节，每节有小标题",
            ).with_word_limit(1500),
        )
        .add_section(
            TemplateSection::new(
                "金句/观点",
                "提炼一两句可以被转发的金句或核心观点",
            ).with_word_limit(100),
        )
        .add_section(
            TemplateSection::new(
                "结尾互动",
                "以问题或互动结尾，引导读者留言或转发",
            ).with_word_limit(100),
        )
        .builtin();
    tp
}

/// Professional LinkedIn article.
fn linkedin_article_template() -> (tp: ArticleTemplate)
    ensures
        is_builtin_template(tp, 4),
{
    let tp = ArticleTemplate::new("LinkedIn Article", Platform::LinkedIn)
        .with_description("Professional article format for LinkedIn")
        .with_style(WritingStyle::Professional)
        .add_section(
            TemplateSection::new(
                "Headline",
                "Write a professional headline that promises value to the reader.",
            ).with_word_limit(100),
        )
        .add_section(
            TemplateSection::new(
                "Personal Hook",
                "Start with a personal story or observation that relates to your professional experience.",
            ).with_word_limit(150),
        )
        .add_section(
            TemplateSection::new(
                "Key Insights",
                "Share 3-5 key insights or lessons learned, each with a brief explanation.",
            ).with_word_limit(600),
        )
        .add_section(
            TemplateSection::new(
                "Actionable Advice",
                "Provide concrete, actionable advice readers can apply immediately.",
            ).with_word_limit(200),
        )
        .add_section(
            TemplateSection::new(
                "Call to Discussion",
                "End with a question or call for others to share their experiences.",
            ).with_word_limit(100),
        )
        .builtin();
    tp
}

/// Get all built-in templates
pub fn get_builtin_templates() -> (ts: Vec<ArticleTemplate>)
    ensures
        ts@.len() == 5,
        forall|t: int| 0 <= t < 5 ==> is_builtin_template(#[trigger] ts@[t], t),
{
    let ts = vec![
        tech_blog_template(),
        xiaohongshu_template(),
        twitter_thread_template(),
        wechat_article_template(),
        linkedin_article_template(),
    ];
    ts
}

/// Editor content state
#[derive(Clone, Debug)]
pub struct EditorContent {
    pub title: String,
    pub sections: Vec<EditorSection>,
    pub template_id: Option<String>,
    pub platform: Platform,
    pub style: WritingStyle,
}

/// A section in the editor
#[derive(Clone, Debug)]
pub struct EditorSection {
    pub id: String,
    pub title: String,
    pub content: String,
    pub is_generated: bool,
    pub is_expanded: bool,
}

impl EditorSection {
    pub fn new(title: &str) -> (s: Self)
        ensures
            s.title@ == title@,
            s.content@.len() == 0,
            !s.is_generated,
            s.is_expanded,
    {
        EditorSection {
            id: new_id(),
            title: owned(title),
            content: String::new(),
            is_generated: false,
            is_expanded: true,
        }
    }

    pub fn with_content(self, content: &str) -> (s: Self)
        ensures
            s.content@ == content@,
            s.id == self.id,
            s.title == self.title,
            s.is_generated == self.is_generated,
            s.is_expanded == self.is_expanded,
    {
        let mut s = self;
        s.content = owned(content);
        s
    }
}

impl Default for EditorContent {
    fn default() -> (c: Self)
        ensures
            c.title@.len() == 0,
            c.sections@.len() == 0,
            c.template_id is None,
            c.platform == Platform::Blog,
            c.style == WritingStyle::Professional,
    {
        EditorContent {
            title: String::new(),
            sections: Vec::new(),
            template_id: None,
            platform: Platform::Blog,
            style: WritingStyle::Professional,
        }
    }
}

/// Markdown of the editor sections: an H2 heading, a blank line, the
/// content and a blank line for each section.
pub open spec fn editor_sections_markdown(sections: Seq<EditorSection>) -> Seq<char>
    decreases sections.len(),
{
    if sections.len() == 0 {
        Seq::empty()
    } else {
        let s = sections.last();
        editor_sections_markdown(sections.drop_last()) + seq!['#', '#', ' '] + s.title@ + seq![
            '\n',
            '\n',
        ] + s.content@ + seq!['\n', '\n']
    }
}

/// Markdown of the editor content: an H1 title, a blank line, then the sections.
pub open spec fn editor_markdown(title: Seq<char>, sections: Seq<EditorSection>) -> Seq<char> {
    seq!['#', ' '] + title + seq!['\n', '\n'] + editor_sections_markdown(sections)
}

/// Total number of words in the contents of `sections`.
pub open spec fn editor_words(sections: Seq<EditorSection>) -> nat
    decreases sections.len(),
{
    if sections.len() == 0 {
        0
    } else {
        editor_words(sections.drop_last()) + words(sections.last().content@)
    }
}

impl EditorContent {
    pub fn new() -> (c: Self)
        ensures
            c.title@.len() == 0,
            c.sections@.len() == 0,
            c.template_id is None,
            c.platform == Platform::Blog,
            c.style == WritingStyle::Professional,
    {
        Self::default()
    }

    pub fn from_template(template: &ArticleTemplate) -> (c: Self)
        ensures
            c.title@.len() == 0,
            c.sections@.len() == template.sections@.len(),
            forall|i: int|
                0 <= i < c.sections@.len() ==> {
                    &&& (#[trigger] c.sections@[i]).title@ == template.sections@[i].title@
                    &&& c.sections@[i].content@.len() == 0
                    &&& !c.sections@[i].is_generated
                    &&& c.sections@[i].is_expanded
                },
            c.template_id == Some(template.id),
            c.platform == template.platform,
            c.style == template.style,
    {
        let mut sections: Vec<EditorSection> = Vec::new();
        let mut i: usize = 0;
        while i < template.sections.len()
            invariant
                i <= template.sections@.len(),
                sections@.len() == i,
                forall|j: int|
                    0 <= j < i ==> {
                        &&& (#[trigger] sections@[j]).title@ == template.sections@[j].title@
                        &&& sections@[j].content@.len() == 0
                        &&& !sections@[j].is_generated
                        &&& sections@[j].is_expanded
                    },
            decreases template.sections@.len() - i,
        {
            let s = EditorSection::new(template.sections[i].title.as_str());
            sections.push(s);
            i += 1;
        }
        EditorContent {
            title: String::new(),
            sections,
            template_id: Some(template.id.clone()),
            platform: template.platform,
            style: template.style,
        }
    }

    pub fn to_markdown(&self) -> (md: String)
        ensures
            md@ == editor_markdown(self.title@, self.sections@),
    {
        let mut md = String::new();
        push_char(&mut md, '#');
        push_char(&mut md, ' ');
        push_all(&mut md, self.title.as_str());
        push_char(&mut md, '\n');
        push_char(&mut md, '\n');
        let ghost head = md@;
        let mut i: usize = 0;
        while i < self.sections.len()
            invariant
                i <= self.sections@.len(),
                head == seq!['#', ' '] + self.title@ + seq!['\n', '\n'],
                md@ == head + editor_sections_markdown(self.sections@.take(i as int)),
            decreases self.sections@.len() - i,
        {
            push_char(&mut md, '#');
            push_char(&mut md, '#');
            push_char(&mut md, ' ');
            push_all(&mut md, self.sections[i].title.as_str());
            push_char(&mut md, '\n');
            push_char(&mut md, '\n');
            push_all(&mut md, self.sections[i].content.as_str());
            push_char(&mut md, '\n');
            push_char(&mut md, '\n');
            assert(self.sections@.take(i + 1).drop_last() == self.sections@.take(i as int));
            i += 1;
        }
        assert(self.sections@.take(self.sections@.len() as int) == self.sections@);
        md
    }

    pub fn to_html(&self) -> (html: String)
        ensures
            html@ == markdown_html(editor_markdown(self.title@, self.sections@)),
    {
        let md = self.to_markdown();
        markdown_to_html(md.as_str())
    }

    pub fn word_count(&self) -> (n: usize)
        requires
            editor_words(self.sections@) <= usize::MAX,
        ensures
            n == editor_words(self.sections@),
    {
        let mut total: usize = 0;
        let mut i: usize = 0;
        while i < self.sections.len()
            invariant
                i <= self.sections@.len(),
                editor_words(self.sections@) <= usize::MAX,
                total == editor_words(self.sections@.take(i as int)),
            decreases self.sections@.len() - i,
        {
            assert(self.sections@.take(i + 1).drop_last() == self.sections@.take(i as int));
            proof {
                lemma_editor_words_prefix(self.sections@, i as int + 1);
            }
            total = total + count_words_in(self.sections[i].content.as_str());
            i += 1;
        }
        assert(self.sections@.take(self.sections@.len() as int) == self.sections@);
        total
    }
}

/// The words of a prefix of the sections are at most the words of all.
proof fn lemma_editor_words_prefix(s: Seq<EditorSection>, n: int)
    requires
        0 <= n <= s.len(),
    ensures
        editor_words(s.take(n)) <= editor_words(s),
    decreases s.len() - n,
{
    if n < s.len() {
        lemma_editor_words_prefix(s, n + 1);
        assert(s.take(n + 1).drop_last() == s.take(n));
    } else {
        assert(s.take(n) == s);
    }
}

/// The editor's word count is made of the sections' contents alone: it is
/// additive over sections, a section adds the words of its content, and
/// sections with the same contents count alike whatever their titles.
pub proof fn lemma_editor_words_from_contents(a: Seq<EditorSection>, b: Seq<EditorSection>, x: EditorSection)
    ensures
        editor_words(a.push(x)) == editor_words(a) + words(x.content@),
        (a.len() == b.len() && forall|i: int| 0 <= i < a.len() ==> #[trigger] a[i].content@ == b[i].content@)
            ==> editor_words(a) == editor_words(b),
    decreases a.len(),
{
    assert(a.push(x).drop_last() =~= a);
    if a.len() == b.len() && forall|i: int| 0 <= i < a.len() ==> #[trigger] a[i].content@ == b[i].content@ {
        if a.len() > 0 {
            assert forall|i: int| 0 <= i < a.drop_last().len() implies #[trigger] a.drop_last()[i].content@
                == b.drop_last()[i].content@ by {
                assert(a.drop_last()[i] == a[i] && b.drop_last()[i] == b[i]);
            }
            lemma_editor_words_from_contents(a.drop_last(), b.drop_last(), x);
            assert(a.last().content@ == b.last().content@);
        }
    }
}

} // verus!
