use local_ai_assistant::engine::seo::{
    analyze_heading_structure, count_sentences, count_syllables, count_words, estimate_syllables,
    generate_article_schema, generate_recommendations, identify_seo_issues, keyword_occurrences, keywords_from,
    keywords_prompt, meta_description_from, meta_description_prompt, normalize_keyword, readability_grade, HeadingStructure, SeoFacts,
    SeoIssueSeverity,
};

fn facts(h1: usize, h2: usize, h3: usize, desc: &str, words: usize) -> SeoFacts {
    SeoFacts {
        heading_structure: HeadingStructure {
            h1_count: h1,
            h2_count: h2,
            h3_count: h3,
            has_proper_hierarchy: h1 == 1,
            headings: vec![],
        },
        meta_description: desc.to_string(),
        word_count: words,
        suggested_keywords: vec![],
        schema_markup: None,
        difficult_readability: None,
        long_sentences: false,
    }
}

#[test]
fn counting() {
    assert_eq!(count_words("  one two\tthree\n"), 3);
    assert_eq!(count_sentences("No marks"), 1);
    assert_eq!(count_sentences("One. Two! Three?"), 3);
    assert_eq!(estimate_syllables("Hello"), 2);
    assert_eq!(estimate_syllables("make"), 1);
    assert_eq!(estimate_syllables("rhythm"), 1);
    assert_eq!(estimate_syllables("queue"), 1);
    assert_eq!(count_syllables("Hello make banana"), 6);
}

#[test]
fn heading_structure() {
    let hs = analyze_heading_structure("# Title\ntext\n## Part\n### Sub\n## Part 2");
    assert_eq!((hs.h1_count, hs.h2_count, hs.h3_count), (1, 2, 1));
    assert!(hs.has_proper_hierarchy);
    assert_eq!(hs.headings.len(), 4);
    assert_eq!(hs.headings[1].text, "Part");
    assert_eq!(hs.headings[1].position, 13);
    assert_eq!(hs.headings[0].position, 0);
    let none = analyze_heading_structure("plain");
    assert!(!none.has_proper_hierarchy);
}

#[test]
fn issues_for_missing_title_and_headings() {
    let f = facts(0, 0, 0, "short", 10);
    let issues = identify_seo_issues(&f, None);
    let titles: Vec<&str> = issues.iter().map(|i| i.title.as_str()).collect();
    assert_eq!(titles, vec!["Missing Title", "No H1 Heading", "Short Meta Description", "Low Word Count"]);
    assert!(matches!(issues[0].severity, SeoIssueSeverity::Critical));
    assert_eq!(issues[2].description, "Meta description is 5 characters. Recommended: 150-160");
    assert_eq!(issues[3].description, "Content has 10 words. Recommended: 300+ for better SEO");
}

#[test]
fn issues_for_many_h1_and_long_description() {
    let mut f = facts(2, 3, 0, &"d".repeat(170), 400);
    f.difficult_readability = Some("42.5".to_string());
    let issues = identify_seo_issues(&f, Some("T"));
    let titles: Vec<&str> = issues.iter().map(|i| i.title.as_str()).collect();
    assert_eq!(titles, vec!["Multiple H1 Headings", "Long Meta Description", "Difficult Readability"]);
    assert_eq!(issues[0].description, "Found 2 H1 headings. Best practice is to have exactly one.");
    assert_eq!(issues[2].description, "Readability score is 42.5. Content may be too complex for general audience.");
    let clean = identify_seo_issues(&facts(1, 3, 0, &"d".repeat(150), 400), Some("T"));
    assert!(clean.is_empty());
}

#[test]
fn recommendations() {
    let mut f = facts(1, 0, 1, "", 600);
    f.long_sentences = true;
    let recs = generate_recommendations(&f);
    assert_eq!(
        recs,
        vec![
            "Add H2 subheadings to break up content and improve readability",
            "Add more subheadings for better content structure",
            "Consider shortening some sentences for better readability",
            "Include more relevant keywords naturally in the content",
            "Add Schema.org markup to enhance search engine understanding",
        ]
    );
    let mut g = facts(1, 3, 0, "", 600);
    g.suggested_keywords = vec!["a".into(), "b".into(), "c".into(), "d".into(), "e".into()];
    g.schema_markup = Some("{}".into());
    assert!(generate_recommendations(&g).is_empty());
}

#[test]
fn article_schema() {
    let mut f = facts(1, 0, 0, "desc", 12);
    f.suggested_keywords = vec!["x".into(), "y".into()];
    assert_eq!(
        generate_article_schema("T", &f),
        "{\n  \"@context\": \"https://schema.org\",\n  \"@type\": \"Article\",\n  \"headline\": \"T\",\n  \"description\": \"desc\",\n  \"wordCount\": 12,\n  \"keywords\": \"x, y\"\n}"
    );
}

#[test]
fn keywords_are_grouped() {
    assert_eq!(normalize_keyword("(Hello!)"), "hello");
    let gs = keyword_occurrences("Rust rust, is fast. RUST again");
    assert_eq!(gs, vec![("rust".to_string(), vec![0, 5, 20]), ("fast".to_string(), vec![14]), ("again".to_string(), vec![25])]);
}

#[test]
fn meta_and_keyword_prompts() {
    let p = meta_description_prompt("body", Some("T"));
    assert!(p.starts_with("Title: T\n\nWrite a compelling SEO meta description (150-160 characters) for this content:\n\nbody\n\nRequirements:"));
    assert!(meta_description_prompt("body", None).starts_with("Write a compelling"));
    assert_eq!(meta_description_from(&format!("  {}  ", "m".repeat(170))), "m".repeat(160));
    assert!(keywords_prompt("c", None).starts_with("Analyze this content and suggest 7-10 SEO keywords:\n\nc\n\n"));
    let many: Vec<String> = (0..12).map(|i| format!("k{}", i)).collect();
    let ks = keywords_from(&many.join(", "));
    assert_eq!(ks.len(), 10);
    assert_eq!(ks[9], "k9");
}

#[test]
fn reading_grades_by_band() {
    assert_eq!(readability_grade(100), "Very Easy (5th grade)");
    assert_eq!(readability_grade(90), "Very Easy (5th grade)");
    assert_eq!(readability_grade(89), "Easy (6th grade)");
    assert_eq!(readability_grade(75), "Fairly Easy (7th grade)");
    assert_eq!(readability_grade(60), "Standard (8th-9th grade)");
    assert_eq!(readability_grade(59), "Fairly Difficult (10th-12th grade)");
    assert_eq!(readability_grade(30), "Difficult (College)");
    assert_eq!(readability_grade(29), "Very Difficult (College graduate)");
    assert_eq!(readability_grade(0), "Very Difficult (College graduate)");
}
