use local_ai_assistant::models::content_template::{get_builtin_templates, EditorContent, EditorSection};

#[test]
fn test_builtin_templates() {
    let templates = get_builtin_templates();
    assert!(!templates.is_empty());
    assert!(templates.iter().all(|t| t.is_builtin));
}

#[test]
fn test_editor_content_from_template() {
    let templates = get_builtin_templates();
    let template = &templates[0];

    let content = EditorContent::from_template(template);
    assert_eq!(content.sections.len(), template.sections.len());
}

#[test]
fn test_to_markdown() {
    let mut content = EditorContent::new();
    content.title = "Test Article".to_string();
    content.sections.push(EditorSection::new("Introduction").with_content("Hello world!"));

    let md = content.to_markdown();
    assert!(md.contains("# Test Article"));
    assert!(md.contains("## Introduction"));
    assert!(md.contains("Hello world!"));
}
