use local_ai_assistant::content::outline::parse_outline;
use local_ai_assistant::models::{BlogPost, BlogSection, HeadingLevel};

#[test]
fn test_heading_level_markdown() {
    assert_eq!(HeadingLevel::H1.to_markdown_prefix(), "#");
    assert_eq!(HeadingLevel::H2.to_markdown_prefix(), "##");
    assert_eq!(HeadingLevel::H3.to_markdown_prefix(), "###");
}

#[test]
fn test_parse_heading() {
    let (level, text) = HeadingLevel::from_markdown_line("## Introduction").unwrap();
    assert_eq!(level, HeadingLevel::H2);
    assert_eq!(text, "Introduction");
}

#[test]
fn test_blog_section() {
    let mut section = BlogSection::new("Introduction".to_string(), HeadingLevel::H2);
    section.set_content("This is a test section with multiple words.".to_string());

    assert_eq!(section.word_count, 8);
    assert!(section.to_markdown().contains("## Introduction"));
}

#[test]
fn test_blog_post_generation() {
    let mut post = BlogPost::new("Test Article".to_string());

    let mut section1 = BlogSection::new("Introduction".to_string(), HeadingLevel::H2);
    section1.set_content("First section content.".to_string());

    let mut section2 = BlogSection::new("Conclusion".to_string(), HeadingLevel::H2);
    section2.set_content("Final section content.".to_string());

    post.outline = vec![section1, section2];
    post.generate_content();

    assert!(post.content.contains("# Test Article"));
    assert!(post.content.contains("## Introduction"));
    assert!(post.content.contains("## Conclusion"));
    assert!(post.word_count > 0);
}

#[test]
fn test_parse_valid_outline() {
    let markdown = r#"
# The Future of AI
## Introduction
### What is AI
### Why It Matters
## Current State
## Future Trends
### Healthcare
### Education
## Conclusion
"#;

    let result = parse_outline(markdown);
    assert!(result.is_ok());

    let sections = result.unwrap();
    assert_eq!(sections.len(), 8);

    assert!(matches!(sections[0].level, HeadingLevel::H1));
    assert_eq!(sections[0].heading, "The Future of AI");

    let h2_count = sections.iter().filter(|s| matches!(s.level, HeadingLevel::H2)).count();
    assert_eq!(h2_count, 4);
}

#[test]
fn test_parse_no_h1() {
    let markdown = r#"
## Section 1
## Section 2
"#;

    let result = parse_outline(markdown);
    assert!(result.is_err());
    assert!(result.unwrap_err().contains("H1 title"));
}

#[test]
fn test_parse_too_few_sections() {
    let markdown = r#"
# Title
## Section 1
## Section 2
"#;

    let result = parse_outline(markdown);
    assert!(result.is_err());
    assert!(result.unwrap_err().contains("at least 3 main sections"));
}

#[test]
fn test_heading_level_parsing() {
    let (level, text) = HeadingLevel::from_markdown_line("## Test Heading").unwrap();
    assert!(matches!(level, HeadingLevel::H2));
    assert_eq!(text, "Test Heading");
}

#[test]
fn saving_a_post_gives_its_id() {
    let post = BlogPost::new("Saved".to_string());
    let id = post.id.clone();
    assert_eq!(local_ai_assistant::content::workflow::save_blog_post(post), id);
}

#[test]
fn outline_keeps_three_subsections() {
    let markdown = "# T\n## A\n### a1\n### a2\n## B\n### b1\n### b2\n## C\n";
    let sections = parse_outline(markdown).unwrap();
    let headings: Vec<&str> = sections.iter().map(|s| s.heading.as_str()).collect();
    assert_eq!(headings, vec!["T", "A", "a1", "a2", "B", "b1", "C"]);
}
