use local_ai_assistant::engine::content_generator::{PackageRun, RunStep, StageOutcome};
use local_ai_assistant::models::{ImageAsset, SeoMetadata, VideoClip};
use local_ai_assistant::content::workflow::{
    extension_of, is_context_file, sort_context_files,
    answer_text, check_blog_topic, check_context_filename, context_file_name, context_preview, expand_section_prompt,
    export_to_html, export_to_markdown, image_prompt_prompt, outline_or_default, outline_request_prompt,
    parse_outline_response, seo_titles, seo_titles_prompt, ContextFile,
};
use local_ai_assistant::engine::content_generator::{
    article_outline_prompt, assemble_article, clip_platforms, conclusion_prompt, export_content_package,
    export_to_html as export_package_html, export_to_markdown as export_package_markdown, intro_prompt, keywords_prompt,
    meta_description_prompt, next_stage, outline_headings, progress_for, schema_markup_at, section_prompt,
    sections_to_illustrate, seo_metadata_from, ContentGenerator,
};
use local_ai_assistant::engine::rag::{augment_prompt, document_title, format_references};
use local_ai_assistant::models::{Article, ContentPackage, ExportFormat, GenerationStage, SocialPlatform};

fn s(v: &[&str]) -> Vec<String> {
    v.iter().map(|x| x.to_string()).collect()
}

#[test]
fn test_parse_outline_response() {
    let response = r#"## Introduction
This section introduces the topic.

## Main Content
This section covers the main points.

## Conclusion
This section wraps up."#;

    let sections = parse_outline_response(response);
    assert_eq!(sections.len(), 3);
    assert_eq!(sections[0].0, "Introduction");
    assert_eq!(sections[1].0, "Main Content");
    assert_eq!(sections[2].0, "Conclusion");
}

#[test]
fn outline_response_joins_lines_and_skips_preamble() {
    let response = "Here is the outline\n##  Intro  \n first line \nsecond line\n\n## Empty\n## Last\ntext";
    let sections = parse_outline_response(response);
    assert_eq!(
        sections,
        vec![
            ("Intro".to_string(), "first line second line".to_string()),
            ("Empty".to_string(), String::new()),
            ("Last".to_string(), "text".to_string()),
        ]
    );
    assert!(parse_outline_response("no headings").is_empty());
}

#[test]
fn default_outline_when_none_found() {
    let d = outline_or_default(vec![]);
    assert_eq!(d.len(), 4);
    assert_eq!(d[0], ("Introduction".to_string(), "Write an engaging introduction".to_string()));
    assert_eq!(d[3], ("Conclusion".to_string(), "Summarize key points".to_string()));
    let kept = outline_or_default(vec![("A".to_string(), "b".to_string())]);
    assert_eq!(kept, vec![("A".to_string(), "b".to_string())]);
}

#[test]
fn workflow_prompts() {
    let p = outline_request_prompt("Rust", "Tech Blog");
    assert!(p.starts_with("Generate an article outline for: \"Rust\"\n\nTemplate style: Tech Blog\n\nCreate 4-6 sections"));
    assert!(p.ends_with("no introduction or conclusion about the outline itself."));
    let e = expand_section_prompt("Intro", "Rust");
    assert!(e.starts_with("Write content for the section \"Intro\" in an article titled \"Rust\".\n\nRequirements:\n"));
    let long: String = "x".repeat(600);
    let i = image_prompt_prompt(&long);
    assert_eq!(i.matches('x').count(), 500);
    assert_eq!(answer_text("  done \n"), "done");
}

#[test]
fn workflow_exports() {
    let secs = vec![("A".to_string(), "one".to_string()), ("B".to_string(), "two".to_string())];
    assert_eq!(export_to_markdown("T", &secs), "# T\n\n## A\n\none\n\n## B\n\ntwo\n\n");
    let html = export_to_html("T", &secs);
    assert!(html.contains("<h1>T</h1>"));
    assert!(html.contains("<h2>A</h2>"));
    assert!(html.contains("<p>two</p>"));
}

#[test]
fn context_files() {
    assert_eq!(context_file_name("My notes: v2"), "My_notes__v2.md");
    assert_eq!(context_file_name("a-b_c"), "a-b_c.md");
    assert_eq!(context_file_name("report.md"), "report_md.md");
    assert_eq!(check_context_filename("../etc"), Err("Invalid filename".to_string()));
    assert_eq!(check_context_filename("a/b"), Err("Invalid filename".to_string()));
    assert_eq!(check_context_filename("notes.md"), Ok(()));
    assert_eq!(context_preview("short"), "short");
    let long = "y".repeat(120);
    assert_eq!(context_preview(&long), format!("{}...", "y".repeat(100)));
    let f = ContextFile::from_file("n.md".to_string(), 120, &long);
    assert_eq!(f.size, 120);
    assert!(f.preview.ends_with("..."));
}

#[test]
fn blog_topic_and_titles() {
    assert_eq!(check_blog_topic("   "), Err("Topic cannot be empty".to_string()));
    assert_eq!(check_blog_topic(" AI "), Ok(()));
    assert!(seo_titles_prompt("AI", 3).starts_with("Generate 3 catchy, SEO-optimized blog post titles for the topic: \"AI\""));
    assert_eq!(seo_titles("\n one \n\ntwo\nthree\n", 2), Ok(s(&["one", "two"])));
    assert_eq!(seo_titles("  \n", 5), Err("No titles generated".to_string()));
}

#[test]
fn generator_prompts() {
    let g = ContentGenerator::new("llm".to_string(), "img".to_string(), "vid".to_string());
    assert_eq!(g.image_provider, "img");
    let p = article_outline_prompt("Bees");
    assert!(p.starts_with("Create a detailed article outline for the topic: 'Bees'\n\nGenerate a list of 5-7"));
    let outline = s(&["A", "B", "C"]);
    let i = intro_prompt("Bees", &outline);
    assert!(i.contains("The article will cover these sections:\nA\n- B\n- C\n\nMake it compelling"));
    let sp = section_prompt("Bees", &outline, 2);
    assert!(sp.starts_with("Write a detailed section (200-300 words) for the heading: 'C'\n\nThis is section 3 of 3 in an article about: 'Bees'"));
    assert!(sp.contains("Previous sections covered:\nA\n- B\n\n"));
    let c = conclusion_prompt("Bees", &outline);
    assert!(c.ends_with("Summarize the key takeaways and provide a call to action or final thought."));
    assert_eq!(outline_headings("  One \n\n Two\n"), s(&["One", "Two"]));
}

#[test]
fn article_assembly_uses_placeholders() {
    let outline = s(&["A", "B"]);
    let a = assemble_article("Topic".to_string(), &outline, "hello".to_string(), vec![Some("aa".to_string()), None], None);
    let pairs: Vec<(String, String, u32)> = a.sections.iter().map(|x| (x.heading.clone(), x.content.clone(), x.order)).collect();
    assert_eq!(
        pairs,
        vec![
            ("Introduction".to_string(), "hello".to_string(), 0),
            ("A".to_string(), "aa".to_string(), 1),
            ("B".to_string(), "Content for B".to_string(), 2),
            ("Conclusion".to_string(), "Conclusion content".to_string(), 3),
        ]
    );
    assert_eq!(a.title, "Topic");
}

#[test]
fn generator_assets() {
    let g = ContentGenerator::new("llm".to_string(), "img".to_string(), "vid".to_string());
    let h = g.header_image_asset("Bees");
    assert_eq!(h.alt_text, "Header image for: Bees");
    assert_eq!(h.provider, "img");
    assert!(h.url.is_none());
    let si = g.section_image_asset("Hives", "Bees");
    assert_eq!(si.alt_text, "Illustration for section: Hives");
    let clip = g.social_clip(SocialPlatform::Instagram, "honey bees", "Bees");
    assert!(clip.prompt.starts_with("A short, engaging instagram promotional video about: 'honey bees'."));
    assert_eq!(clip.caption.as_deref(), Some("Check out our latest article: Bees! #content #honeybees"));
    assert_eq!(clip_platforms(), vec![SocialPlatform::Twitter, SocialPlatform::Instagram]);
}

#[test]
fn illustrated_sections_skip_intro_and_conclusion() {
    let outline = s(&["A", "B", "C", "D", "E"]);
    let answers = vec![None; 5];
    let a = assemble_article("T".to_string(), &outline, "i".to_string(), answers, None);
    assert_eq!(sections_to_illustrate(&a), s(&["A", "B", "C", "D"]));
}

#[test]
fn seo_metadata_from_answers() {
    let mut a = Article::new("Title".to_string());
    a.add_section("Intro".to_string(), "first".to_string());
    let m = seo_metadata_from(&a, None, Some(" rust, ,verus , proofs".to_string()), "{}".to_string());
    assert_eq!(m.meta_description, "Title");
    assert_eq!(m.keywords, s(&["rust", "verus", "proofs"]));
    assert_eq!(m.focus_keyword.as_deref(), Some("rust"));
    assert_eq!(m.schema_markup.as_deref(), Some("{}"));
    let long = "z".repeat(200);
    let m = seo_metadata_from(&a, Some(long), None, String::new());
    assert_eq!(m.meta_description.len(), 160);
    assert!(m.keywords.is_empty());
    assert_eq!(m.focus_keyword, None);
    assert!(meta_description_prompt(&a).contains("First section content:\nfirst\n\n"));
    assert!(keywords_prompt(&a).contains("Article covers:\nIntro\n\n"));
}

#[test]
fn schema_markup_text() {
    let mut a = Article::new("T".to_string());
    a.word_count = 42;
    let sm = schema_markup_at(&a, "2024-01-01T00:00:00+00:00");
    assert!(sm.contains("\"headline\": \"T\""));
    assert!(sm.contains("\"wordCount\": 42"));
    assert!(sm.contains("\"name\": \"iDoris AI Assistant\""));
}

#[test]
fn progress_reports() {
    let p = progress_for(GenerationStage::GeneratingSeoMetadata).unwrap();
    assert_eq!((p.progress_percent, p.current_task.as_str()), (85, "Generating SEO metadata..."));
    assert_eq!(progress_for(GenerationStage::Complete).unwrap().progress_percent, 100);
    assert!(progress_for(GenerationStage::Failed).is_none());
    let mut stage = GenerationStage::Initializing;
    let mut last = 0u8;
    while let Some(n) = next_stage(stage.clone()) {
        let pct = progress_for(n.clone()).unwrap().progress_percent;
        assert!(pct > last);
        last = pct;
        stage = n;
    }
    assert_eq!(stage, GenerationStage::Complete);
}

#[test]
fn package_exports() {
    let mut p = ContentPackage::new("topic".to_string());
    p.article.title = "Title".to_string();
    p.article.subtitle = Some("Sub".to_string());
    p.article.reading_time_minutes = 3;
    p.article.add_section("H".to_string(), "body".to_string());
    p.seo_metadata.keywords = s(&["a", "b"]);
    p.seo_metadata.meta_description = "desc".to_string();
    let md = export_package_markdown(&p);
    assert_eq!(md, "# Title\n\n## Sub\n\n*Reading time: 3 min*\n\n---\n\n## H\n\nbody\n\n---\n\n**Keywords**: a, b\n");
    let html = export_package_html(&p);
    assert_eq!(
        html,
        "<!DOCTYPE html>\n<html>\n<head>\n  <title>Title</title>\n  <meta name=\"description\" content=\"desc\">\n  <meta name=\"keywords\" content=\"a, b\">\n</head>\n<body>\n  <h1>Title</h1>\n  <h2>H</h2>\n  <p>body</p>\n</body>\n</html>"
    );
    assert_eq!(export_content_package(&p, ExportFormat::Medium), Some(md));
    assert_eq!(export_content_package(&p, ExportFormat::WordPress), Some(html));
    assert_eq!(export_content_package(&p, ExportFormat::Json), None);
}

#[test]
fn augmented_prompts() {
    assert_eq!(augment_prompt("why?", &vec![]), "why?");
    let docs = vec![("D1".to_string(), "b1".to_string()), ("D2".to_string(), "b2".to_string())];
    assert_eq!(
        augment_prompt("why?", &docs),
        "Use the following context to answer the question:\n\n### D1\nb1\n\n### D2\nb2\n\n---\n\nQuestion: why?"
    );
}

#[test]
fn numbered_references() {
    assert_eq!(format_references(&vec![]), "");
    let docs = vec![
        ("87".to_string(), "Rust".to_string(), "Ownership.".to_string()),
        ("42".to_string(), "Verus".to_string(), "Proofs.".to_string()),
    ];
    assert_eq!(
        format_references(&docs),
        "[Reference 1] (Relevance: 87%)\nTitle: Rust\nOwnership.\n\n---\n[Reference 2] (Relevance: 42%)\nTitle: Verus\nProofs.\n"
    );
}

#[test]
fn schema_markup_is_dated_now() {
    let mut a = Article::new("T".to_string());
    a.author = Some("Ann".to_string());
    let sm = local_ai_assistant::engine::content_generator::generate_schema_markup(&a);
    assert!(sm.contains("\"datePublished\": \""));
    assert!(sm.contains("\"name\": \"Ann\""));
    assert!(!sm.contains("\"datePublished\": \"\""));
}

#[test]
fn file_name_extensions() {
    assert_eq!(extension_of("voice.pt"), Some("pt".to_string()));
    assert_eq!(extension_of("a.tar.gz"), Some("gz".to_string()));
    assert_eq!(extension_of("notes."), Some(String::new()));
    assert_eq!(extension_of(".bashrc"), None);
    assert_eq!(extension_of("README"), None);
    assert_eq!(extension_of(".."), None);
    assert_eq!(extension_of("..md"), Some("md".to_string()));
}

#[test]
fn context_files_by_extension() {
    assert!(is_context_file("notes.md"));
    assert!(is_context_file("data.v2.json"));
    assert!(is_context_file("..txt"));
    assert!(is_context_file("a.txt"));
    assert!(!is_context_file(".md"));
    assert!(!is_context_file("md"));
    assert!(!is_context_file("notes.MD"));
    assert!(!is_context_file("image.png"));
    assert!(!is_context_file("archive.md.gz"));
    assert!(!is_context_file(".."));
    assert!(!is_context_file("notes."));
}

#[test]
fn context_files_sorted_stably() {
    let f = |name: &str, size: u64| ContextFile { name: name.to_string(), size, preview: String::new() };
    let sorted = sort_context_files(vec![f("b.md", 1), f("a.md", 2), f("B.md", 3), f("a.md", 4), f("ab.md", 5)]);
    let got: Vec<(String, u64)> = sorted.into_iter().map(|c| (c.name, c.size)).collect();
    let want: Vec<(String, u64)> = vec![("B.md", 3), ("a.md", 2), ("a.md", 4), ("ab.md", 5), ("b.md", 1)]
        .into_iter()
        .map(|(n, s)| (n.to_string(), s))
        .collect();
    assert_eq!(got, want);
    assert!(sort_context_files(vec![]).is_empty());
}

#[test]
fn document_titles_are_first_lines() {
    assert_eq!(document_title("# Sample Document\n\nThis is a sample."), "# Sample Document");
    assert_eq!(document_title("one line"), "one line");
    assert_eq!(document_title("first\r\nsecond"), "first");
    assert_eq!(document_title("\nafter a blank line"), "");
    assert_eq!(document_title(""), "Unknown");
}

#[test]
fn package_run_goes_stage_by_stage() {
    let (mut run, first) = PackageRun::start("Bees".to_string());
    assert_eq!((first.stage, first.progress_percent), (GenerationStage::GeneratingOutline, 10));
    let mut pcts = vec![first.progress_percent];
    let mut article = Article::new("Bees".to_string());
    article.add_section("Hives".to_string(), "Bees live in hives.".to_string());
    let img = |p: &str| ImageAsset::new(p.to_string(), "local".to_string(), "alt".to_string());
    let outcomes = vec![
        StageOutcome::Outline(Ok(vec!["Hives".to_string()])),
        StageOutcome::Article(Ok(article)),
        StageOutcome::HeaderImage(Err("no image model".to_string())),
        StageOutcome::SectionImages(Ok(vec![img("hive")])),
        StageOutcome::SocialClips(Ok(vec![VideoClip::new("clip".to_string(), "v".to_string(), SocialPlatform::Twitter)])),
        StageOutcome::SeoMetadata(Ok(SeoMetadata {
            meta_title: "Bees".to_string(),
            meta_description: "All about bees".to_string(),
            keywords: vec![],
            canonical_url: None,
            og_image: None,
            schema_markup: None,
            focus_keyword: None,
        })),
    ];
    for o in outcomes {
        match run.advance(o) {
            RunStep::Work(g) => pcts.push(g.progress_percent),
            _ => panic!("unexpected step"),
        }
    }
    let t = run.package.created_at;
    match run.advance(StageOutcome::Finalized(t)) {
        RunStep::Complete(g) => pcts.push(g.progress_percent),
        _ => panic!("not complete"),
    }
    assert_eq!(pcts, vec![10, 20, 40, 55, 70, 85, 95, 100]);
    assert_eq!(run.stage, GenerationStage::Complete);
    assert!(run.package.header_image.is_none());
    assert_eq!(run.package.section_images.len(), 1);
    assert_eq!(run.package.social_clips.len(), 1);
    assert_eq!(run.package.article.word_count, 4);
    assert_eq!(run.outline, vec!["Hives".to_string()]);
    assert_eq!(run.package.seo_metadata.meta_title, "Bees");

    let (mut failing, _) = PackageRun::start("X".to_string());
    match failing.advance(StageOutcome::Outline(Err("Failed to generate article outline".to_string()))) {
        RunStep::Failed(e) => assert_eq!(e, "Failed to generate article outline"),
        _ => panic!("should fail"),
    }
    assert_eq!(failing.stage, GenerationStage::Failed);
}
