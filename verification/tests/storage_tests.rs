use local_ai_assistant::models::blog_post::BlogPost;
use local_ai_assistant::models::model_info::model_type_badge;
use local_ai_assistant::models::{ChatRole, ModelType};
use local_ai_assistant::models::session::{create_session, get_session};
use local_ai_assistant::storage::database::{
    is_initialized, message_from_row, DatabaseState, messages_from_rows, role_from_text, role_text, session_from_row, sessions_from_rows,
};
use local_ai_assistant::config::settings::{DatabaseSettings, EmbeddingSettings, RagSettings, ServerSettings};

fn row(id: &str, sid: &str, role: &str, content: &str, at: &str) -> (String, String, String, String, String) {
    (id.to_string(), sid.to_string(), role.to_string(), content.to_string(), at.to_string())
}

const ID: &str = "67e55044-10b1-426f-9247-bb680e5fe0c8";
const SID: &str = "a1a2a3a4-b1b2-c1c2-d1d2-d3d4d5d6d7d8";

#[test]
fn roles_round_trip() {
    for r in [ChatRole::User, ChatRole::Assistant, ChatRole::System] {
        assert_eq!(role_from_text(role_text(r)), Some(r));
    }
    assert_eq!(role_from_text("admin"), None);
}

#[test]
fn database_opens_on_first_successful_init() {
    let mut st = DatabaseState::new();
    assert!(!is_initialized(&st));
    st.record_init(false);
    assert!(!is_initialized(&st));
    st.record_init(true);
    assert!(is_initialized(&st));
    st.record_init(false);
    assert!(is_initialized(&st));
}

#[test]
fn rows_read_back() {
    let m = message_from_row(row(ID, SID, "assistant", "hi", "2024-01-02T03:04:05+01:00")).unwrap();
    assert_eq!(m.id.to_string(), ID);
    assert_eq!(m.session_id.to_string(), SID);
    assert_eq!(m.role, ChatRole::Assistant);
    assert_eq!(m.created_at.secs, 1704161045);
    assert!(message_from_row(row("nope", SID, "user", "", "2024-01-02T03:04:05Z")).is_none());
    assert!(message_from_row(row(ID, SID, "user", "", "yesterday")).is_none());
    let ms = messages_from_rows(vec![
        row(ID, SID, "user", "a", "2024-01-02T03:04:05Z"),
        row(ID, SID, "robot", "b", "2024-01-02T03:04:05Z"),
        row(ID, SID, "system", "c", "2024-01-02T03:04:06Z"),
    ]);
    let contents: Vec<&str> = ms.iter().map(|m| m.content.as_str()).collect();
    assert_eq!(contents, vec!["a", "c"]);
}

#[test]
fn blog_summary() {
    let mut p = BlogPost::new("T".to_string());
    p.content = "# T\nfirst\n## H\nsecond".to_string();
    assert_eq!(p.summary(), "first second");
    p.content = "x".repeat(250);
    assert_eq!(p.summary(), format!("{}...", "x".repeat(200)));
    p.content = "é".repeat(150);
    assert_eq!(p.summary(), "é".repeat(150));
    p.content = format!("a{}", "é".repeat(250));
    assert_eq!(p.summary(), format!("a{}...", "é".repeat(199)));
}

#[test]
fn settings_defaults() {
    let s = ServerSettings::default();
    assert_eq!((s.host.as_str(), s.port), ("127.0.0.1", 8080));
    assert_eq!(EmbeddingSettings::default().model_name, "BAAI/bge-small-en-v1.5");
    let r = RagSettings::default();
    assert_eq!((r.knowledge_dir.as_str(), r.chunk_size, r.chunk_overlap, r.top_k), ("./context", 512, 50, 5));
    assert_eq!(DatabaseSettings::default().path, "./data/assistant.db");
}

#[test]
fn model_badges() {
    assert_eq!(model_type_badge(ModelType::Language), ("badge badge-primary", "LLM"));
    assert_eq!(model_type_badge(ModelType::Multimodal), ("badge badge-secondary", "Multimodal"));
}

#[test]
fn language_models_only() {
    let ls = local_ai_assistant::models::model_info::language_models(local_ai_assistant::models::get_available_models());
    let ids: Vec<&str> = ls.iter().map(|m| m.id.as_str()).collect();
    assert_eq!(
        ids,
        vec!["Qwen/Qwen2.5-1.5B-Instruct", "Qwen/Qwen2.5-3B-Instruct", "Qwen/Qwen2.5-7B-Instruct", "meta-llama/Llama-3.2-3B-Instruct"]
    );
}

#[test]
fn session_rows_read_back() {
    let good = (
        "67e55044-10b1-426f-9247-bb680e5fe0c8".to_string(),
        "Chat".to_string(),
        "2024-01-02T03:04:05+00:00".to_string(),
        "2024-01-02T03:04:06+00:00".to_string(),
    );
    let s = session_from_row(good.clone()).unwrap();
    assert_eq!(s.title, "Chat");
    assert_eq!(s.id.to_string(), "67e55044-10b1-426f-9247-bb680e5fe0c8");
    assert_eq!(s.created_at.secs, 1704164645);
    assert_eq!(s.updated_at.secs, 1704164646);
    let bad_id = ("nope".to_string(), "x".to_string(), good.2.clone(), good.3.clone());
    let bad_time = (good.0.clone(), "x".to_string(), "yesterday".to_string(), good.3.clone());
    assert!(session_from_row(bad_id.clone()).is_none());
    assert!(session_from_row(bad_time.clone()).is_none());
    let all = sessions_from_rows(vec![bad_id, good, bad_time]);
    assert_eq!(all.len(), 1);
    assert_eq!(all[0].title, "Chat");
}

#[test]
fn new_sessions_are_titled() {
    let s = create_session(None);
    assert_eq!(s.title, "New Chat");
    assert_eq!(s.created_at, s.updated_at);
    let t = create_session(Some("Plans".to_string()));
    assert_eq!(t.title, "Plans");
    assert_ne!(s.id, t.id);
}

#[test]
fn sessions_found_by_id() {
    let a = create_session(Some("A".to_string()));
    let b = create_session(Some("B".to_string()));
    let id_b = b.id.to_string();
    let found = get_session(&id_b, vec![a.clone(), b.clone()]).unwrap();
    assert_eq!(found.title, "B");
    assert!(get_session("not-a-uuid", vec![a.clone(), b.clone()]).is_none());
    assert!(get_session(&id_b, vec![a]).is_none());
}
