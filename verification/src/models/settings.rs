//! Application settings model: response language, theme and font size.
use vstd::prelude::*;
use crate::text::owned;

verus! {

/// Response language options
#[derive(Clone, Copy, Debug, PartialEq, Eq, Structural)]
pub enum ResponseLanguage {
    Chinese,
    English,
    Thai,
    Spanish,
    French,
    German,
}

impl Default for ResponseLanguage {
    fn default() -> (d: Self)
        ensures
            d == ResponseLanguage::Chinese,
    {
        ResponseLanguage::Chinese
    }
}

/// Name of a response language.
pub open spec fn language_name(x: ResponseLanguage) -> Seq<char> {
    match x {
        ResponseLanguage::Chinese => "Chinese"@,
        ResponseLanguage::English => "English"@,
        ResponseLanguage::Thai => "Thai"@,
        ResponseLanguage::Spanish => "Spanish"@,
        ResponseLanguage::French => "French"@,
        ResponseLanguage::German => "German"@,
    }
}

/// Instruction added to prompts for a response language.
pub open spec fn language_instruction(x: ResponseLanguage) -> Seq<char> {
    match x {
        ResponseLanguage::Chinese => "请用中文回答。"@,
        ResponseLanguage::English => "Please respond in English."@,
        ResponseLanguage::Thai => "กรุณาตอบเป็นภาษาไทย"@,
        ResponseLanguage::Spanish => "Por favor, responde en español."@,
        ResponseLanguage::French => "Veuillez répondre en français."@,
        ResponseLanguage::German => "Bitte antworte auf Deutsch."@,
    }
}

impl ResponseLanguage {
    /// Name of the language.
    pub fn as_str(&self) -> (r: &'static str)
        ensures
            r@ == language_name(*self),
    {
        match self {
            ResponseLanguage::Chinese => "Chinese",
            ResponseLanguage::English => "English",
            ResponseLanguage::Thai => "Thai",
            ResponseLanguage::Spanish => "Spanish",
            ResponseLanguage::French => "French",
            ResponseLanguage::German => "German",
        }
    }

    /// Instruction asking the model to answer in this language.
    pub fn prompt_instruction(&self) -> (r: &'static str)
        ensures
            r@ == language_instruction(*self),
    {
        match self {
            ResponseLanguage::Chinese => "请用中文回答。",
            ResponseLanguage::English => "Please respond in English.",
            ResponseLanguage::Thai => "กรุณาตอบเป็นภาษาไทย",
            ResponseLanguage::Spanish => "Por favor, responde en español.",
            ResponseLanguage::French => "Veuillez répondre en français.",
            ResponseLanguage::German => "Bitte antworte auf Deutsch.",
        }
    }
}

/// Theme options
#[derive(Clone, Copy, Debug, PartialEq, Eq, Structural)]
pub enum Theme {
    Dark,
    Light,
    Blue,
    Purple,
}

impl Default for Theme {
    fn default() -> (d: Self)
        ensures
            d == Theme::Dark,
    {
        Theme::Dark
    }
}

/// Name of a theme.
pub open spec fn theme_name(x: Theme) -> Seq<char> {
    match x {
        Theme::Dark => "Dark"@,
        Theme::Light => "Light"@,
        Theme::Blue => "Blue"@,
        Theme::Purple => "Purple"@,
    }
}

/// Background class of a theme.
pub open spec fn theme_bg(x: Theme) -> Seq<char> {
    match x {
        Theme::Dark => "bg-gray-900"@,
        Theme::Light => "bg-gray-100"@,
        Theme::Blue => "bg-slate-900"@,
        Theme::Purple => "bg-purple-950"@,
    }
}

/// Sidebar background class of a theme.
pub open spec fn theme_sidebar(x: Theme) -> Seq<char> {
    match x {
        Theme::Dark => "bg-gray-800"@,
        Theme::Light => "bg-white"@,
        Theme::Blue => "bg-slate-800"@,
        Theme::Purple => "bg-purple-900"@,
    }
}

/// Text colour class of a theme: dark text on the light theme, white otherwise.
pub open spec fn theme_text(x: Theme) -> Seq<char> {
    match x {
        Theme::Dark => "text-white"@,
        Theme::Light => "text-gray-900"@,
        Theme::Blue => "text-white"@,
        Theme::Purple => "text-white"@,
    }
}

impl Theme {
    /// Name of the theme.
    pub fn as_str(&self) -> (r: &'static str)
        ensures
            r@ == theme_name(*self),
    {
        match self {
            Theme::Dark => "Dark",
            Theme::Light => "Light",
            Theme::Blue => "Blue",
            Theme::Purple => "Purple",
        }
    }

    /// CSS class of the page background.
    pub fn bg_class(&self) -> (r: &'static str)
        ensures
            r@ == theme_bg(*self),
    {
        match self {
            Theme::Dark => "bg-gray-900",
            Theme::Light => "bg-gray-100",
            Theme::Blue => "bg-slate-900",
            Theme::Purple => "bg-purple-950",
        }
    }

    /// CSS class of the sidebar background.
    pub fn sidebar_bg(&self) -> (r: &'static str)
        ensures
            r@ == theme_sidebar(*self),
    {
        match self {
            Theme::Dark => "bg-gray-800",
            Theme::Light => "bg-white",
            Theme::Blue => "bg-slate-800",
            Theme::Purple => "bg-purple-900",
        }
    }

    /// CSS class of the text colour.
    pub fn text_class(&self) -> (r: &'static str)
        ensures
            r@ == theme_text(*self),
    {
        match self {
            Theme::Dark => "text-white",
            Theme::Light => "text-gray-900",
            Theme::Blue => "text-white",
            Theme::Purple => "text-white",
        }
    }
}

/// Font size options
#[derive(Clone, Copy, Debug, PartialEq, Eq, Structural)]
pub enum FontSize {
    Small,
    Medium,
    Large,
    ExtraLarge,
}

impl Default for FontSize {
    fn default() -> (d: Self)
        ensures
            d == FontSize::Medium,
    {
        FontSize::Medium
    }
}

/// Name of a font size.
pub open spec fn font_name(x: FontSize) -> Seq<char> {
    match x {
        FontSize::Small => "Small"@,
        FontSize::Medium => "Medium"@,
        FontSize::Large => "Large"@,
        FontSize::ExtraLarge => "Extra Large"@,
    }
}

/// Prose class of a font size.
pub open spec fn font_prose(x: FontSize) -> Seq<char> {
    match x {
        FontSize::Small => "prose-sm"@,
        FontSize::Medium => "prose-base"@,
        FontSize::Large => "prose-lg"@,
        FontSize::ExtraLarge => "prose-xl"@,
    }
}

/// Inline CSS of a font size.
pub open spec fn font_css(x: FontSize) -> Seq<char> {
    match x {
        FontSize::Small => "font-size: 0.875rem; line-height: 1.25rem;"@,
        FontSize::Medium => "font-size: 1rem; line-height: 1.5rem;"@,
        FontSize::Large => "font-size: 1.125rem; line-height: 1.75rem;"@,
        FontSize::ExtraLarge => "font-size: 1.25rem; line-height: 1.75rem;"@,
    }
}

impl FontSize {
    /// Name of the font size.
    pub fn as_str(&self) -> (r: &'static str)
        ensures
            r@ == font_name(*self),
    {
        match self {
            FontSize::Small => "Small",
            FontSize::Medium => "Medium",
            FontSize::Large => "Large",
            FontSize::ExtraLarge => "Extra Large",
        }
    }

    /// CSS prose class of the font size.
    pub fn prose_class(&self) -> (r: &'static str)
        ensures
            r@ == font_prose(*self),
    {
        match self {
            FontSize::Small => "prose-sm",
            FontSize::Medium => "prose-base",
            FontSize::Large => "prose-lg",
            FontSize::ExtraLarge => "prose-xl",
        }
    }

    /// Inline CSS style for the font size (fallback when Tailwind classes are purged).
    pub fn font_style(&self) -> (r: &'static str)
        ensures
            r@ == font_css(*self),
    {
        match self {
            FontSize::Small => "font-size: 0.875rem; line-height: 1.25rem;",
            FontSize::Medium => "font-size: 1rem; line-height: 1.5rem;",
            FontSize::Large => "font-size: 1.125rem; line-height: 1.75rem;",
            FontSize::ExtraLarge => "font-size: 1.25rem; line-height: 1.75rem;",
        }
    }
}

/// Application settings
#[derive(Clone, Debug)]
pub struct AppSettings {
    pub language: ResponseLanguage,
    pub theme: Theme,
    pub font_size: FontSize,
    pub model_name: String,
}

impl Default for AppSettings {
    fn default() -> (s: Self)
        ensures
            s.language == ResponseLanguage::Chinese,
            s.theme == Theme::Dark,
            s.font_size == FontSize::Medium,
            s.model_name@ == "Qwen 2.5 7B"@,
    {
        AppSettings {
            language: ResponseLanguage::Chinese,
            theme: Theme::Dark,
            font_size: FontSize::Medium,
            model_name: owned("Qwen 2.5 7B"),
        }
    }
}

} // verus!
