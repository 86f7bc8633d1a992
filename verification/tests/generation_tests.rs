use local_ai_assistant::engine::embedding::{embedding_dimensions, init_model, is_initialized as embedding_ready, EmbeddingConfig, EmbeddingEngine};
use local_ai_assistant::engine::image_gen::{
    finish_generation, get_generation_status, get_image_gen_status, image_file_name, image_from_decoded,
    init_image_model, is_generating, is_initialized, mflux_command_args, mflux_model_from_choice,
    settings_from_request, start_generation, GeneratedImage, ImageGenSettings, ImageResult, MfluxModel,
    MfluxOutcome,
};
use local_ai_assistant::engine::llm::{
    current_model_info, get_model_source, is_model_switching_supported, LlamaSourceId, LlmState, LoadPlan,
    SwitchPlan,
};
use local_ai_assistant::engine::model_manager::{model_cache_dir_name, DownloadRun, ModelManager};
use local_ai_assistant::engine::status::GenerationStatus;
use local_ai_assistant::engine::tts::{
    engine_display_names, engine_from_choice, finish_speech, get_available_engines, get_tts_status,
    is_vibevoice_available, preferred_engine, python_quoted_text, start_speech, vibevoice_model_path,
    GeneratedAudio, SpeechBackend, TtsEngine,
};
use local_ai_assistant::models::{ModelInfo, ModelStatus};

fn png(width: u32, height: u32) -> Vec<u8> {
    let img = image::RgbImage::new(width, height);
    let mut out = std::io::Cursor::new(Vec::new());
    img.write_to(&mut out, image::ImageFormat::Png).unwrap();
    out.into_inner()
}

#[test]
fn mflux_model_tables() {
    assert_eq!(MfluxModel::Schnell.name(), "schnell");
    assert_eq!(MfluxModel::ZImageTurbo.name(), "mlx-community/Z-Image-Turbo");
    assert_eq!(MfluxModel::ZImageTurbo.base_model(), Some("schnell"));
    assert_eq!(MfluxModel::Dev.base_model(), None);
    assert_eq!(MfluxModel::Dev.default_steps(), 20);
    assert_eq!(MfluxModel::ZImageTurbo.default_steps(), 9);
    assert_eq!(MfluxModel::Schnell.display_name(), "FLUX.1 Schnell (Fast)");
    assert_eq!(MfluxModel::default(), MfluxModel::Schnell);
}

#[test]
fn image_settings_defaults_and_builders() {
    let s = ImageGenSettings::new("a cat");
    assert_eq!(s.prompt, "a cat");
    assert_eq!((s.width, s.height), (1024, 1024));
    assert_eq!(s.quantize, Some(8));
    assert_eq!(s.num_steps, None);
    let s = s.with_size(640, 480).with_steps(7).with_model(MfluxModel::Dev).with_quantize(4).with_seed(42).with_negative_prompt("blur");
    assert_eq!((s.width, s.height, s.num_steps, s.quantize, s.seed), (640, 480, Some(7), Some(4), Some(42)));
    assert_eq!(s.model, MfluxModel::Dev);
    assert_eq!(s.negative_prompt.as_deref(), Some("blur"));
}

#[test]
fn mflux_arguments_for_custom_model() {
    let s = ImageGenSettings::new("dog").with_model(MfluxModel::ZImageTurbo).with_seed(7);
    let args = mflux_command_args(&s, "/tmp/out.png");
    let expected: Vec<&str> = vec![
        "--model", "mlx-community/Z-Image-Turbo", "--base-model", "schnell", "--prompt", "dog", "--output",
        "/tmp/out.png", "--width", "1024", "--height", "1024", "--steps", "9", "--quantize", "8", "--seed", "7",
    ];
    assert_eq!(args, expected);
}

#[test]
fn mflux_arguments_for_builtin_model() {
    let mut s = ImageGenSettings::new("x").with_steps(12);
    s.quantize = None;
    let args = mflux_command_args(&s, "o.png");
    let expected: Vec<&str> =
        vec!["--model", "schnell", "--prompt", "x", "--output", "o.png", "--width", "1024", "--height", "1024", "--steps", "12"];
    assert_eq!(args, expected);
}

#[test]
fn image_file_is_named_by_time() {
    assert_eq!(image_file_name(1700000000123), "image_1700000000123.png");
}

#[test]
fn image_base64_and_data_url() {
    let img = GeneratedImage { data: vec![1, 2, 3, 4], width: 1, height: 1, format: "png".to_string() };
    assert_eq!(img.to_base64(), "AQIDBA==");
    assert_eq!(img.to_data_url(), "data:image/png;base64,AQIDBA==");
    let r = ImageResult::from_image(&img);
    assert_eq!(r.data_url, "data:image/png;base64,AQIDBA==");
}

#[test]
fn image_status_bookkeeping() {
    let mut st = GenerationStatus::new();
    assert!(!is_generating(&st));
    assert!(init_image_model(&mut st, true).is_ok());
    assert_eq!(get_generation_status(&st), ("Ready (MFLUX)".to_string(), 0));
    let err = init_image_model(&mut st, false).unwrap_err();
    assert_eq!(err, "MFLUX not installed. Install with: uv tool install mflux");
    assert_eq!(get_generation_status(&st).0, "MFLUX not found");
    assert!(is_initialized(true));
    assert!(!is_initialized(false));
}

#[test]
fn generation_is_exclusive() {
    let mut st = GenerationStatus::new();
    let s = ImageGenSettings::new("p");
    let args = start_generation(&mut st, true, &s, "out.png").unwrap();
    assert_eq!(args[1], "schnell");
    let status = get_image_gen_status(&st);
    assert!(status.is_generating);
    assert_eq!(status.status, "Generating with FLUX.1 Schnell (Fast)...");
    assert_eq!(status.progress, 20);
    let second = start_generation(&mut st, true, &s, "out.png").unwrap_err();
    assert_eq!(second, "Image generation is already in progress");
    assert!(is_generating(&st));
    let done = finish_generation(&mut st, MfluxOutcome::Image(png(3, 2))).unwrap();
    assert_eq!((done.width, done.height), (3, 2));
    assert_eq!(done.format, "png");
    assert!(!is_generating(&st));
    assert_eq!(get_generation_status(&st), ("Ready".to_string(), 0));
}

#[test]
fn generation_without_tool_ends_the_job() {
    let mut st = GenerationStatus::new();
    let err = start_generation(&mut st, false, &ImageGenSettings::new("p"), "o").unwrap_err();
    assert_eq!(err, "MFLUX not installed. Install with: uv tool install mflux");
    assert!(!st.running());
    assert_eq!(st.message(), "Ready");
}

#[test]
fn generation_failures_are_reported() {
    let mut st = GenerationStatus::new();
    let e = finish_generation(&mut st, MfluxOutcome::SpawnError("no such file".to_string())).unwrap_err();
    assert_eq!(e, "Failed to run mflux-generate: no such file");
    let e = finish_generation(&mut st, MfluxOutcome::ExitFailure("boom".to_string())).unwrap_err();
    assert_eq!(e, "MFLUX generation failed: boom");
    let e = finish_generation(&mut st, MfluxOutcome::ReadError("gone".to_string())).unwrap_err();
    assert_eq!(e, "Failed to read generated image: gone");
    let e = finish_generation(&mut st, MfluxOutcome::Image(vec![1, 2, 3])).unwrap_err();
    assert!(e.starts_with("Failed to parse image: "));
    assert!(e.len() > "Failed to parse image: ".len());
}

#[test]
fn decoded_image_keeps_bytes() {
    let bytes = png(5, 4);
    let img = image_from_decoded(bytes.clone(), Ok((5, 4))).unwrap();
    assert_eq!(img.data, bytes);
    let e = image_from_decoded(vec![], Err("bad".to_string())).unwrap_err();
    assert_eq!(e, "Failed to parse image: bad");
}

#[test]
fn image_request_settings() {
    assert_eq!(mflux_model_from_choice("dev"), MfluxModel::Dev);
    assert_eq!(mflux_model_from_choice("z-image-turbo"), MfluxModel::ZImageTurbo);
    assert_eq!(mflux_model_from_choice("other"), MfluxModel::Schnell);
    let s = settings_from_request("p", Some("n".to_string()), Some(512), None, Some(3), Some("dev".to_string()), None);
    assert_eq!((s.width, s.height), (1024, 1024));
    assert_eq!(s.num_steps, Some(3));
    assert_eq!(s.model, MfluxModel::Dev);
    assert_eq!(s.quantize, Some(8));
    let s = settings_from_request("p", None, Some(512), Some(256), None, None, Some(4));
    assert_eq!((s.width, s.height, s.quantize), (512, 256, Some(4)));
}

#[test]
fn tts_engine_tables() {
    assert_eq!(TtsEngine::default(), TtsEngine::VibeVoice);
    assert_eq!(TtsEngine::Kokoro.display_name(), "Kokoro-82M");
    assert_eq!(TtsEngine::System.description(), "macOS built-in TTS (fallback)");
    assert_eq!(engine_from_choice("kokoro"), TtsEngine::Kokoro);
    assert_eq!(engine_from_choice("vibevoice"), TtsEngine::VibeVoice);
    assert_eq!(engine_from_choice("say"), TtsEngine::System);
}

#[test]
fn available_engines_in_order() {
    assert_eq!(get_available_engines(true, true), vec![TtsEngine::VibeVoice, TtsEngine::System, TtsEngine::Kokoro]);
    assert_eq!(get_available_engines(false, false), vec![TtsEngine::System]);
    assert_eq!(preferred_engine(&get_available_engines(false, true)), TtsEngine::System);
    assert_eq!(preferred_engine(&vec![]), TtsEngine::System);
    assert_eq!(preferred_engine(&get_available_engines(true, false)), TtsEngine::VibeVoice);
    assert_eq!(engine_display_names(&get_available_engines(true, false)), vec!["VibeVoice-Realtime-0.5B", "System TTS"]);
}

#[test]
fn vibevoice_location() {
    assert_eq!(vibevoice_model_path(Some("/home/u")), "/home/u/models/VibeVoice-Realtime-0.5B");
    assert_eq!(vibevoice_model_path(None), "./models/VibeVoice-Realtime-0.5B");
    assert!(is_vibevoice_available(true, true));
    assert!(!is_vibevoice_available(true, false));
}

#[test]
fn speech_job_routes() {
    let mut st = GenerationStatus::new();
    assert_eq!(start_speech(&mut st, TtsEngine::System, false), Ok(SpeechBackend::SystemSay));
    assert_eq!(get_tts_status(&st).status, "Starting TTS generation...");
    assert_eq!(start_speech(&mut st, TtsEngine::System, false).unwrap_err(), "TTS generation is already in progress");
    finish_speech(&mut st);
    assert!(!st.running());
    assert_eq!(start_speech(&mut st, TtsEngine::Kokoro, true).unwrap_err(), "Kokoro TTS not yet implemented");
    assert!(!st.running());
    assert_eq!(
        start_speech(&mut st, TtsEngine::VibeVoice, false).unwrap_err(),
        "VibeVoice model not downloaded. Please download from Settings."
    );
    assert_eq!(start_speech(&mut st, TtsEngine::VibeVoice, true), Ok(SpeechBackend::VibeVoice));
}

#[test]
fn python_text_is_escaped() {
    assert_eq!(python_quoted_text("it's\nok"), "it\\'s\\nok");
    assert_eq!(python_quoted_text("plain"), "plain");
}

#[test]
fn audio_data_url() {
    let a = GeneratedAudio { data: vec![1, 2, 3], sample_rate: 22050, format: "aiff".to_string(), duration_ms: 0 };
    assert_eq!(a.to_base64(), "AQID");
    assert_eq!(a.to_data_url(), "data:audio/aiff;base64,AQID");
}

#[test]
fn model_sources() {
    assert_eq!(get_model_source("qwen-2.5-7b"), Ok(LlamaSourceId::Qwen25_7bInstruct));
    assert_eq!(get_model_source("llama-3.2-3b"), Ok(LlamaSourceId::Llama32_3bChat));
    assert_eq!(get_model_source("gpt").unwrap_err(), "Unknown model ID: gpt");
    assert!(is_model_switching_supported());
}

#[test]
fn llm_initialization_plan() {
    let mut st = LlmState::new();
    assert_eq!(st.get_current_model_id_sync(), "qwen-2.5-1.5b");
    assert!(!st.is_initialized());
    assert_eq!(st.init_chat_model(), Ok(LoadPlan::Load(LlamaSourceId::Qwen25_1_5bInstruct)));
    st.record_loaded("qwen-2.5-1.5b");
    assert!(st.is_initialized());
    assert_eq!(st.init_chat_model(), Ok(LoadPlan::AlreadyLoaded));
    assert_eq!(st.init_chat_model_with_id("qwen-2.5-3b"), Ok(LoadPlan::Load(LlamaSourceId::Qwen25_3bInstruct)));
    assert_eq!(st.init_chat_model_with_id("nope").unwrap_err(), "Unknown model ID: nope");
}

#[test]
fn model_switching_rules() {
    let mut st = LlmState::new();
    assert_eq!(st.begin_switch("qwen-2.5-1.5b"), Ok(SwitchPlan::AlreadyLoaded));
    assert!(!st.is_model_switching());
    assert_eq!(st.begin_switch("bad").unwrap_err(), "Unknown model ID: bad");
    assert!(!st.is_model_switching());
    assert_eq!(st.begin_switch("qwen-2.5-7b"), Ok(SwitchPlan::FullLoad(LlamaSourceId::Qwen25_7bInstruct)));
    assert!(st.is_model_switching());
    assert_eq!(st.begin_switch("llama-3.2-3b").unwrap_err(), "Model switching is already in progress");
    assert_eq!(st.stream_precheck(), Err("Model switching in progress, please wait"));
    st.end_switch("qwen-2.5-7b", true);
    assert!(!st.is_model_switching());
    assert_eq!(st.get_current_model_id_sync(), "qwen-2.5-7b");
    assert_eq!(st.begin_switch("llama-3.2-3b"), Ok(SwitchPlan::Replace(LlamaSourceId::Llama32_3bChat)));
    st.end_switch("llama-3.2-3b", false);
    assert_eq!(st.get_current_model_id_sync(), "qwen-2.5-7b");
    assert_eq!(st.stream_precheck(), Ok(()));
}

#[test]
fn llm_prechecks() {
    let st = LlmState::new();
    assert_eq!(st.stream_precheck(), Err("Chat session not initialized"));
    assert_eq!(st.reset_precheck().unwrap_err(), "Model not initialized");
}

#[test]
fn current_model_lookup() {
    let d: ModelInfo = current_model_info("qwen-2.5-1.5b").unwrap();
    assert_eq!(d.id, "Qwen/Qwen2.5-1.5B-Instruct");
    assert_eq!(d.name, "Qwen 2.5 1.5B");
    assert_eq!(d.status, ModelStatus::Active);
    assert_eq!(current_model_info("llama-3.2-3b").unwrap().id, "meta-llama/Llama-3.2-3B-Instruct");
    assert_eq!(current_model_info("qwen-2.5-7b").unwrap().id, "Qwen/Qwen2.5-7B-Instruct");
    assert_eq!(current_model_info("gpt-9").unwrap_err(), "Current model not found in available models");
    let m: ModelInfo = current_model_info("BAAI/bge-large-zh-v1.5").unwrap();
    assert_eq!(m.name, "BGE Large Chinese");
    assert_eq!(m.status, ModelStatus::Active);
}

#[test]
fn embedding_slot() {
    assert_eq!(EmbeddingConfig::default().model_name, "BAAI/bge-small-en-v1.5");
    let mut slot: Option<EmbeddingEngine> = None;
    assert!(!embedding_ready(&slot));
    assert!(init_model(&mut slot).is_ok());
    assert!(embedding_ready(&slot));
    assert_eq!(embedding_dimensions(), 384);
}

#[test]
fn model_cache_layout() {
    assert_eq!(model_cache_dir_name("Qwen/Qwen2.5-1.5B-Instruct"), "models--Qwen--Qwen2.5-1.5B-Instruct");
    let m = ModelManager::with_home(Some("/home/u"));
    assert_eq!(m.cache_dir, "/home/u/.cache/huggingface/hub");
    assert_eq!(ModelManager::with_home(None).cache_dir, "~/.cache/huggingface/hub");
    assert!(ModelManager::new().cache_dir.ends_with(".cache/huggingface/hub"));
    assert!(ModelManager::init_hf_cache().is_ok());
}

#[test]
fn cache_status_and_info() {
    let m = ModelManager::with_home(Some("/h"));
    let mut models = local_ai_assistant::models::get_available_models();
    let mut cached = vec![false; models.len()];
    cached[0] = true;
    m.check_cached_status(&mut models, &cached);
    assert!(models[0].is_cached);
    assert_eq!(models[0].cache_path.as_deref(), Some("/h/.cache/huggingface/hub/models--Qwen--Qwen2.5-1.5B-Instruct"));
    assert!(!models[1].is_cached);
    assert_eq!(models[1].cache_path, None);
    let info = m.get_cache_info(Some((3 * 1048576 + 5, vec!["models--a".to_string(), "blobs".to_string(), "models--b".to_string()])));
    assert_eq!((info.total_size_mb, info.model_count), (3, 2));
    let none = m.get_cache_info(None);
    assert_eq!((none.total_size_mb, none.model_count), (0, 0));
    assert_eq!(none.path, "/h/.cache/huggingface/hub");
}

#[test]
fn download_outcomes() {
    assert_eq!(
        ModelManager::download_model("x", DownloadRun::HfMissing).unwrap_err(),
        "hf command not found. Please install huggingface_hub: pip install -U huggingface_hub"
    );
    assert_eq!(ModelManager::download_model("x", DownloadRun::SpawnError).unwrap_err(), "Failed to execute hf download");
    let failed = DownloadRun::Finished { success: false, stdout: String::new(), stderr: "denied".to_string() };
    assert_eq!(ModelManager::download_model("org/m", failed).unwrap_err(), "Failed to download model org/m: denied");
    let ok = DownloadRun::Finished { success: true, stdout: "/path".to_string(), stderr: String::new() };
    assert_eq!(ModelManager::download_model("org/m", ok), Ok("/path".to_string()));
}

#[test]
fn image_output_location() {
    assert_eq!(local_ai_assistant::engine::image_gen::image_output_dir(Some("/home/u")), "/home/u/.local_ai_assistant/images");
    assert_eq!(local_ai_assistant::engine::image_gen::image_output_dir(None), "./.local_ai_assistant/images");
}

#[test]
fn user_directories_end_in_their_names() {
    assert!(local_ai_assistant::engine::image_gen::user_image_output_dir().ends_with("/.local_ai_assistant/images"));
    assert!(local_ai_assistant::engine::tts::get_models_dir().ends_with("/models"));
    assert!(local_ai_assistant::engine::tts::vibevoice_model_dir().ends_with("/models/VibeVoice-Realtime-0.5B"));
}

#[test]
fn models_directory_of_home() {
    assert_eq!(local_ai_assistant::engine::tts::models_dir_of(Some("/home/u")), "/home/u/models");
    assert_eq!(local_ai_assistant::engine::tts::models_dir_of(None), "./models");
}

#[test]
fn status_progress_is_a_percentage() {
    let mut st = GenerationStatus::new();
    st.set_status("Complete!", 100);
    assert_eq!((st.message(), st.progress()), ("Complete!", 100));
    st.finish();
    assert_eq!((st.message(), st.progress(), st.running()), ("Ready", 0, false));
}
