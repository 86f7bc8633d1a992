//! Text to speech: the engines, which of them can run, the job's progress,
//! and the generated audio.
use vstd::prelude::*;

use crate::deps::{base64_encode, base64_standard, home_dir, joined_path, path_join};
use crate::engine::status::{after_finish, status_view, GenerationStatus};
use crate::text::{owned, push_all, push_char};

verus! {

/// TTS Engine type
#[derive(Clone, Copy, Debug, PartialEq, Eq, Structural)]
pub enum TtsEngine {
    VibeVoice,
    Kokoro,
    System,
}

impl Default for TtsEngine {
    fn default() -> (e: Self)
        ensures
            e == TtsEngine::VibeVoice,
    {
        TtsEngine::VibeVoice
    }
}

/// The name shown for an engine.
pub open spec fn engine_display_name(e: TtsEngine) -> Seq<char> {
    match e {
        TtsEngine::VibeVoice => "VibeVoice-Realtime-0.5B"@,
        TtsEngine::Kokoro => "Kokoro-82M"@,
        TtsEngine::System => "System TTS"@,
    }
}

/// The description shown for an engine.
pub open spec fn engine_description(e: TtsEngine) -> Seq<char> {
    match e {
        TtsEngine::VibeVoice => "Microsoft real-time TTS, ~300ms latency"@,
        TtsEngine::Kokoro => "MLX-Audio TTS, high quality"@,
        TtsEngine::System => "macOS built-in TTS (fallback)"@,
    }
}

impl TtsEngine {
    /// The name shown for this engine.
    pub fn display_name(&self) -> (s: &'static str)
        ensures
            s@ == engine_display_name(*self),
    {
        match self {
            TtsEngine::VibeVoice => "VibeVoice-Realtime-0.5B",
            TtsEngine::Kokoro => "Kokoro-82M",
            TtsEngine::System => "System TTS",
        }
    }

    /// The description shown for this engine.
    pub fn description(&self) -> (s: &'static str)
        ensures
            s@ == engine_description(*self),
    {
        match self {
            TtsEngine::VibeVoice => "Microsoft real-time TTS, ~300ms latency",
            TtsEngine::Kokoro => "MLX-Audio TTS, high quality",
            TtsEngine::System => "macOS built-in TTS (fallback)",
        }
    }
}

/// Generated audio result
#[derive(Clone, Debug)]
pub struct GeneratedAudio {
    pub data: Vec<u8>,
    pub sample_rate: u32,
    pub format: String,
    pub duration_ms: u32,
}

/// The data URL of audio: its format and its bytes in base64.
pub open spec fn audio_data_url(format: Seq<char>, data: Seq<u8>) -> Seq<char> {
    "data:audio/"@ + format + ";base64,"@ + base64_standard(data)
}

impl GeneratedAudio {
    /// The audio's bytes in standard base64.
    pub fn to_base64(&self) -> (s: String)
        requires
            4 * ((self.data@.len() + 2) / 3) <= usize::MAX,
        ensures
            s@ == base64_standard(self.data@),
    {
        base64_encode(self.data.as_slice())
    }

    /// The audio as a `data:` URL.
    pub fn to_data_url(&self) -> (s: String)
        requires
            4 * ((self.data@.len() + 2) / 3) <= usize::MAX,
        ensures
            s@ == audio_data_url(self.format@, self.data@),
    {
        let mut s = owned("data:audio/");
        push_all(&mut s, self.format.as_str());
        push_all(&mut s, ";base64,");
        let b = self.to_base64();
        push_all(&mut s, b.as_str());
        s
    }
}

/// Check if TTS is currently generating
pub fn is_generating(status: &GenerationStatus) -> (b: bool)
    ensures
        b == status_view(*status).0,
{
    status.running()
}

/// Get current generation status
pub fn get_generation_status(status: &GenerationStatus) -> (r: (String, u8))
    ensures
        r.0@ == status_view(*status).1,
        r.1 == status_view(*status).2,
        r.1 <= 100,
{
    (owned(status.message()), status.progress())
}

/// The directory models are kept in, under the home directory or, without
/// one, under the current directory.
pub open spec fn models_dir(home: Option<Seq<char>>) -> Seq<char> {
    joined_path(
        match home {
            Some(h) => h,
            None => "."@,
        },
        "models"@,
    )
}

/// The directory the VibeVoice model is downloaded to.
pub fn vibevoice_model_path(home: Option<&str>) -> (p: String)
    ensures
        p@ == joined_path(
            models_dir(
                match home {
                    Some(h) => Some(h@),
                    None => None,
                },
            ),
            "VibeVoice-Realtime-0.5B"@,
        ),
{
    let dir = models_dir_of(home);
    path_join(dir.as_str(), "VibeVoice-Realtime-0.5B")
}

/// The directory models are kept in, under `home` or, without one, under
/// the current directory.
pub fn models_dir_of(home: Option<&str>) -> (d: String)
    ensures
        d@ == models_dir(
            match home {
                Some(h) => Some(h@),
                None => None,
            },
        ),
{
    match home {
        Some(h) => path_join(h, "models"),
        None => path_join(".", "models"),
    }
}

/// The directory models are kept in, for the user's home directory as
/// `dirs::home_dir` finds it.
pub fn get_models_dir() -> (d: String)
    ensures
        exists|home: Option<Seq<char>>| d@ == models_dir(home),
{
    let home = home_dir();
    let d = match &home {
        Some(h) => models_dir_of(Some(h.as_str())),
        None => models_dir_of(None),
    };
    proof {
        let w = match home {
            Some(h) => Some(h@),
            None => None,
        };
        assert(d@ == models_dir(w));
    }
    d
}

/// The directory the VibeVoice model is downloaded to, under the user's
/// models directory.
pub fn vibevoice_model_dir() -> (p: String)
    ensures
        exists|home: Option<Seq<char>>| p@ == joined_path(models_dir(home), "VibeVoice-Realtime-0.5B"@),
{
    let d = get_models_dir();
    path_join(d.as_str(), "VibeVoice-Realtime-0.5B")
}

/// Check if VibeVoice model is downloaded: its directory exists and is a
/// directory (what the caller found at `vibevoice_model_path`).
pub fn is_vibevoice_available(path_exists: bool, path_is_dir: bool) -> (b: bool)
    ensures
        b == (path_exists && path_is_dir),
{
    path_exists && path_is_dir
}

/// The engines that can run, in order of preference.
pub open spec fn available_engines(vibevoice: bool, mlx_audio: bool) -> Seq<TtsEngine> {
    (if vibevoice {
        seq![TtsEngine::VibeVoice]
    } else {
        Seq::empty()
    }) + seq![TtsEngine::System] + (if mlx_audio {
        seq![TtsEngine::Kokoro]
    } else {
        Seq::empty()
    })
}

/// Get available TTS engines based on what's installed: VibeVoice first
/// when its model is downloaded, the system voice always, Kokoro last when
/// mlx-audio is installed.
pub fn get_available_engines(vibevoice_available: bool, mlx_audio_available: bool) -> (engines: Vec<TtsEngine>)
    ensures
        engines@ == available_engines(vibevoice_available, mlx_audio_available),
{
    let mut engines: Vec<TtsEngine> = Vec::new();
    if vibevoice_available {
        engines.push(TtsEngine::VibeVoice);
    }
    engines.push(TtsEngine::System);
    if mlx_audio_available {
        engines.push(TtsEngine::Kokoro);
    }
    assert(engines@ =~= available_engines(vibevoice_available, mlx_audio_available));
    engines
}

/// The engine quick speech uses: the first available one, else the system
/// voice.
pub fn preferred_engine(engines: &Vec<TtsEngine>) -> (e: TtsEngine)
    ensures
        e == (if engines@.len() > 0 {
            engines@[0]
        } else {
            TtsEngine::System
        }),
{
    if engines.len() > 0 {
        engines[0]
    } else {
        TtsEngine::System
    }
}

/// How speech is produced once a job has started.
#[derive(Clone, Copy, Debug, PartialEq, Eq, Structural)]
pub enum SpeechBackend {
    /// The VibeVoice model, run from Python.
    VibeVoice,
    /// The system's `say` command.
    SystemSay,
}

/// Why an engine cannot produce speech, if it cannot.
pub open spec fn engine_refusal(engine: TtsEngine, vibevoice_available: bool) -> Option<Seq<char>> {
    match engine {
        TtsEngine::VibeVoice => if vibevoice_available {
            None
        } else {
            Some("VibeVoice model not downloaded. Please download from Settings."@)
        },
        TtsEngine::Kokoro => Some("Kokoro TTS not yet implemented"@),
        TtsEngine::System => None,
    }
}

/// Start a speech job: refuse when one runs, then pick the back end for the
/// engine. A refused start leaves the state as it was; an engine that
/// cannot run ends the job; otherwise the job runs at 1%.
pub fn start_speech(status: &mut GenerationStatus, engine: TtsEngine, vibevoice_available: bool) -> (r: Result<SpeechBackend, String>)
    ensures
        status_view(*old(status)).0 ==> (r matches Err(e) && e@ == "TTS generation is already in progress"@
            && *final(status) == *old(status)),
        !status_view(*old(status)).0 ==> match engine_refusal(engine, vibevoice_available) {
            Some(m) => r matches Err(e) && e@ == m && status_view(*final(status)) == after_finish(),
            None => r matches Ok(b) && b == (if engine == TtsEngine::VibeVoice {
                SpeechBackend::VibeVoice
            } else {
                SpeechBackend::SystemSay
            }) && status_view(*final(status)) == (true, "Starting TTS generation..."@, 1u8),
        },
{
    let begun = status.try_begin("TTS generation is already in progress");
    match begun {
        Err(e) => {
            return Err(e);
        },
        Ok(()) => {},
    }
    status.set_status("Starting TTS generation...", 1);
    match engine {
        TtsEngine::VibeVoice => {
            if !vibevoice_available {
                status.finish();
                return Err(owned("VibeVoice model not downloaded. Please download from Settings."));
            }
            Ok(SpeechBackend::VibeVoice)
        },
        TtsEngine::Kokoro => {
            status.finish();
            Err(owned("Kokoro TTS not yet implemented"))
        },
        TtsEngine::System => Ok(SpeechBackend::SystemSay),
    }
}

/// Ends a speech job, however it went.
pub fn finish_speech(status: &mut GenerationStatus)
    ensures
        status_view(*final(status)) == after_finish(),
{
    status.finish();
}

/// A character as it is written inside a single-quoted Python string:
/// quotes and newlines are escaped with a backslash.
pub open spec fn python_escaped(c: char) -> Seq<char> {
    if c == '\'' {
        seq!['\\', '\'']
    } else if c == '\n' {
        seq!['\\', 'n']
    } else {
        seq![c]
    }
}

/// A text as it is written inside a single-quoted Python string.
pub open spec fn python_text(s: Seq<char>) -> Seq<char>
    decreases s.len(),
{
    if s.len() == 0 {
        Seq::empty()
    } else {
        python_text(s.drop_last()) + python_escaped(s.last())
    }
}

/// The text to speak, escaped for the Python script that runs VibeVoice.
pub fn python_quoted_text(text: &str) -> (r: String)
    ensures
        r@ == python_text(text@),
{
    let mut r = String::new();
    let mut i: usize = 0;
    let ghost v = text@;
    let chars = crate::text::chars_of(text);
    while i < chars.len()
        invariant
            i <= chars@.len(),
            chars@ == v,
            r@ == python_text(v.take(i as int)),
        decreases chars@.len() - i,
    {
        let c = chars[i];
        assert(v.take(i + 1).drop_last() == v.take(i as int));
        assert(v.take(i + 1).last() == c);
        if c == '\'' {
            push_char(&mut r, '\\');
            push_char(&mut r, '\'');
        } else if c == '\n' {
            push_char(&mut r, '\\');
            push_char(&mut r, 'n');
        } else {
            push_char(&mut r, c);
        }
        i += 1;
    }
    assert(v.take(v.len() as int) == v);
    r
}

/// The engine a request names: `vibevoice`, `kokoro`, or the system voice
/// for anything else.
pub open spec fn engine_of_choice(choice: Seq<char>) -> TtsEngine {
    if choice == "vibevoice"@ {
        TtsEngine::VibeVoice
    } else if choice == "kokoro"@ {
        TtsEngine::Kokoro
    } else {
        TtsEngine::System
    }
}

/// The engine a request names.
pub fn engine_from_choice(choice: &str) -> (e: TtsEngine)
    ensures
        e == engine_of_choice(choice@),
{
    let c = owned(choice);
    if c == owned("vibevoice") {
        TtsEngine::VibeVoice
    } else if c == owned("kokoro") {
        TtsEngine::Kokoro
    } else {
        TtsEngine::System
    }
}

/// The display names of engines, in order.
pub fn engine_display_names(engines: &Vec<TtsEngine>) -> (names: Vec<String>)
    ensures
        crate::text::string_views(names@) == engines@.map_values(|e: TtsEngine| engine_display_name(e)),
{
    let mut names: Vec<String> = Vec::new();
    let mut i: usize = 0;
    while i < engines.len()
        invariant
            i <= engines@.len(),
            crate::text::string_views(names@) == engines@.take(i as int).map_values(|e: TtsEngine| engine_display_name(e)),
        decreases engines@.len() - i,
    {
        let n = owned(engines[i].display_name());
        let ghost before = names@;
        names.push(n);
        assert(crate::text::string_views(names@) == crate::text::string_views(before).push(n@));
        assert(engines@.take(i + 1).map_values(|e: TtsEngine| engine_display_name(e)) =~= engines@.take(i as int).map_values(
            |e: TtsEngine| engine_display_name(e),
        ).push(engine_display_name(engines@[i as int])));
        i += 1;
    }
    assert(engines@.take(engines@.len() as int) == engines@);
    names
}

/// The speech job's state as reported to the interface.
#[derive(Clone, Debug)]
pub struct TtsGenStatus {
    pub is_generating: bool,
    pub status: String,
    pub progress: u8,
}

/// The speech job's state as reported to the interface.
pub fn get_tts_status(status: &GenerationStatus) -> (s: TtsGenStatus)
    ensures
        s.is_generating == status_view(*status).0,
        s.status@ == status_view(*status).1,
        s.progress == status_view(*status).2,
        s.progress <= 100,
{
    let (text, progress) = get_generation_status(status);
    TtsGenStatus { is_generating: is_generating(status), status: text, progress }
}

/// Text escaped for the Python script holds no raw line break, so it stays
/// on the one line of the string literal it is put in.
pub proof fn lemma_python_text_one_line(s: Seq<char>)
    ensures
        forall|i: int| 0 <= i < python_text(s).len() ==> python_text(s)[i] != '\n',
    decreases s.len(),
{
    if s.len() > 0 {
        lemma_python_text_one_line(s.drop_last());
        let d = python_text(s);
        let p = python_text(s.drop_last());
        assert forall|i: int| 0 <= i < d.len() implies d[i] != '\n' by {
            if i < p.len() {
                assert(d[i] == p[i]);
            }
        }
    }
}

} // verus!
