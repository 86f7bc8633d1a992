//! Image generation with the MFLUX command-line tool: models, settings, the
//! tool's arguments, the job's progress, and the generated image.
use vstd::prelude::*;

use crate::deps::{base64_encode, base64_standard, decode_dimensions, decoded_dimensions, home_dir, joined_path, path_join};
use crate::engine::status::{after_begin, after_finish, status_view, GenerationStatus};
use crate::text::{decimal, decimal_string, decimal_u64, owned, push_all};

verus! {

/// MFLUX model types
#[derive(Clone, Copy, Debug, PartialEq, Eq, Structural)]
pub enum MfluxModel {
    Schnell,
    Dev,
    ZImageTurbo,
}

impl Default for MfluxModel {
    fn default() -> (m: Self)
        ensures
            m == MfluxModel::Schnell,
    {
        MfluxModel::Schnell
    }
}

/// The name the tool takes for a model.
pub open spec fn model_name(m: MfluxModel) -> Seq<char> {
    match m {
        MfluxModel::Schnell => "schnell"@,
        MfluxModel::Dev => "dev"@,
        MfluxModel::ZImageTurbo => "mlx-community/Z-Image-Turbo"@,
    }
}

/// The base model a custom model is built on.
pub open spec fn model_base(m: MfluxModel) -> Option<Seq<char>> {
    match m {
        MfluxModel::ZImageTurbo => Some("schnell"@),
        _ => None,
    }
}

/// The number of steps a model runs when none is asked for.
pub open spec fn model_steps(m: MfluxModel) -> u32 {
    match m {
        MfluxModel::Schnell => 4,
        MfluxModel::Dev => 20,
        MfluxModel::ZImageTurbo => 9,
    }
}

/// The name shown to users.
pub open spec fn model_display_name(m: MfluxModel) -> Seq<char> {
    match m {
        MfluxModel::Schnell => "FLUX.1 Schnell (Fast)"@,
        MfluxModel::Dev => "FLUX.1 Dev (Quality)"@,
        MfluxModel::ZImageTurbo => "Z-Image Turbo (Very Fast)"@,
    }
}

impl MfluxModel {
    /// The name the tool takes for this model.
    pub fn name(&self) -> (s: &'static str)
        ensures
            s@ == model_name(*self),
    {
        match self {
            MfluxModel::Schnell => "schnell",
            MfluxModel::Dev => "dev",
            MfluxModel::ZImageTurbo => "mlx-community/Z-Image-Turbo",
        }
    }

    /// Returns the base model for custom models (needed for mflux --base-model parameter)
    pub fn base_model(&self) -> (s: Option<&'static str>)
        ensures
            match s {
                Some(b) => model_base(*self) == Some(b@),
                None => model_base(*self) is None,
            },
    {
        match self {
            MfluxModel::Schnell => None,
            MfluxModel::Dev => None,
            MfluxModel::ZImageTurbo => Some("schnell"),
        }
    }

    /// The number of steps this model runs by default.
    pub fn default_steps(&self) -> (n: u32)
        ensures
            n == model_steps(*self),
    {
        match self {
            MfluxModel::Schnell => 4,
            MfluxModel::Dev => 20,
            MfluxModel::ZImageTurbo => 9,
        }
    }

    /// The name shown to users.
    pub fn display_name(&self) -> (s: &'static str)
        ensures
            s@ == model_display_name(*self),
    {
        match self {
            MfluxModel::Schnell => "FLUX.1 Schnell (Fast)",
            MfluxModel::Dev => "FLUX.1 Dev (Quality)",
            MfluxModel::ZImageTurbo => "Z-Image Turbo (Very Fast)",
        }
    }
}

/// Image generation settings
#[derive(Clone, Debug)]
pub struct ImageGenSettings {
    pub prompt: String,
    pub negative_prompt: Option<String>,
    pub width: u32,
    pub height: u32,
    pub num_steps: Option<u32>,
    pub model: MfluxModel,
    pub quantize: Option<u8>,
    pub seed: Option<u64>,
}

/// The settings with everything but the prompt at its default: 1024 by
/// 1024, the model's own step count, Schnell, 8-bit quantization, no seed.
pub open spec fn default_settings(prompt: Seq<char>, s: ImageGenSettings) -> bool {
    &&& s.prompt@ == prompt
    &&& s.negative_prompt is None
    &&& s.width == 1024
    &&& s.height == 1024
    &&& s.num_steps is None
    &&& s.model == MfluxModel::Schnell
    &&& s.quantize == Some(8u8)
    &&& s.seed is None
}

impl Default for ImageGenSettings {
    fn default() -> (s: Self)
        ensures
            default_settings(Seq::empty(), s),
    {
        ImageGenSettings {
            prompt: String::new(),
            negative_prompt: None,
            width: 1024,
            height: 1024,
            num_steps: None,
            model: MfluxModel::Schnell,
            quantize: Some(8),
            seed: None,
        }
    }
}

impl ImageGenSettings {
    /// Default settings for a prompt.
    pub fn new(prompt: &str) -> (s: Self)
        ensures
            default_settings(prompt@, s),
    {
        ImageGenSettings { prompt: owned(prompt), ..Default::default() }
    }

    /// The same settings at another size.
    pub fn with_size(self, width: u32, height: u32) -> (s: Self)
        ensures
            s == (ImageGenSettings { width, height, ..self }),
    {
        ImageGenSettings { width, height, ..self }
    }

    /// The same settings with a negative prompt.
    pub fn with_negative_prompt(self, negative: &str) -> (s: Self)
        ensures
            s.negative_prompt matches Some(n) && n@ == negative@,
            s == (ImageGenSettings { negative_prompt: s.negative_prompt, ..self }),
    {
        ImageGenSettings { negative_prompt: Some(owned(negative)), ..self }
    }

    /// The same settings with a fixed step count.
    pub fn with_steps(self, steps: u32) -> (s: Self)
        ensures
            s == (ImageGenSettings { num_steps: Some(steps), ..self }),
    {
        ImageGenSettings { num_steps: Some(steps), ..self }
    }

    /// The same settings with another model.
    pub fn with_model(self, model: MfluxModel) -> (s: Self)
        ensures
            s == (ImageGenSettings { model, ..self }),
    {
        ImageGenSettings { model, ..self }
    }

    /// The same settings with another quantization.
    pub fn with_quantize(self, bits: u8) -> (s: Self)
        ensures
            s == (ImageGenSettings { quantize: Some(bits), ..self }),
    {
        ImageGenSettings { quantize: Some(bits), ..self }
    }

    /// The same settings with a seed.
    pub fn with_seed(self, seed: u64) -> (s: Self)
        ensures
            s == (ImageGenSettings { seed: Some(seed), ..self }),
    {
        ImageGenSettings { seed: Some(seed), ..self }
    }
}

/// Result of image generation
#[derive(Clone, Debug)]
pub struct GeneratedImage {
    pub data: Vec<u8>,
    pub width: u32,
    pub height: u32,
    pub format: String,
}

/// The data URL of an image: its format and its bytes in base64.
pub open spec fn image_data_url(format: Seq<char>, data: Seq<u8>) -> Seq<char> {
    "data:image/"@ + format + ";base64,"@ + base64_standard(data)
}

impl GeneratedImage {
    /// The image's bytes in standard base64.
    pub fn to_base64(&self) -> (s: String)
        requires
            4 * ((self.data@.len() + 2) / 3) <= usize::MAX,
        ensures
            s@ == base64_standard(self.data@),
    {
        base64_encode(self.data.as_slice())
    }

    /// The image as a `data:` URL.
    pub fn to_data_url(&self) -> (s: String)
        requires
            4 * ((self.data@.len() + 2) / 3) <= usize::MAX,
        ensures
            s@ == image_data_url(self.format@, self.data@),
    {
        let mut s = owned("data:image/");
        push_all(&mut s, self.format.as_str());
        push_all(&mut s, ";base64,");
        let b = self.to_base64();
        push_all(&mut s, b.as_str());
        s
    }
}

/// The arguments that `mflux-generate` is run with.
pub open spec fn mflux_args(s: ImageGenSettings, output: Seq<char>) -> Seq<Seq<char>> {
    let steps = match s.num_steps {
        Some(n) => n,
        None => model_steps(s.model),
    };
    seq!["--model"@, model_name(s.model)] + (match model_base(s.model) {
        Some(b) => seq!["--base-model"@, b],
        None => Seq::empty(),
    }) + seq![
        "--prompt"@,
        s.prompt@,
        "--output"@,
        output,
        "--width"@,
        decimal(s.width as nat),
        "--height"@,
        decimal(s.height as nat),
        "--steps"@,
        decimal(steps as nat),
    ] + (match s.quantize {
        Some(q) => seq!["--quantize"@, decimal(q as nat)],
        None => Seq::empty(),
    }) + (match s.seed {
        Some(n) => seq!["--seed"@, decimal(n as nat)],
        None => Seq::empty(),
    })
}

/// The views of a list of strings.
pub open spec fn arg_views(v: Seq<String>) -> Seq<Seq<char>> {
    v.map_values(|a: String| a@)
}

/// Build the `mflux-generate` arguments for the settings, writing the image
/// to `output`.
pub fn mflux_command_args(settings: &ImageGenSettings, output: &str) -> (args: Vec<String>)
    ensures
        arg_views(args@) == mflux_args(*settings, output@),
{
    let mut args: Vec<String> = Vec::new();
    args.push(owned("--model"));
    args.push(owned(settings.model.name()));
    let ghost a = arg_views(args@);
    match settings.model.base_model() {
        Some(base) => {
            args.push(owned("--base-model"));
            args.push(owned(base));
        },
        None => {},
    }
    let ghost b = arg_views(args@);
    assert(b =~= a + (match model_base(settings.model) {
        Some(b) => seq!["--base-model"@, b],
        None => Seq::<Seq<char>>::empty(),
    }));
    let steps = match settings.num_steps {
        Some(n) => n,
        None => settings.model.default_steps(),
    };
    args.push(owned("--prompt"));
    args.push(owned(settings.prompt.as_str()));
    args.push(owned("--output"));
    args.push(owned(output));
    args.push(owned("--width"));
    args.push(decimal_string(settings.width as usize));
    args.push(owned("--height"));
    args.push(decimal_string(settings.height as usize));
    args.push(owned("--steps"));
    args.push(decimal_string(steps as usize));
    let ghost c = arg_views(args@);
    match settings.quantize {
        Some(q) => {
            args.push(owned("--quantize"));
            args.push(decimal_string(q as usize));
        },
        None => {},
    }
    let ghost d = arg_views(args@);
    assert(d =~= c + (match settings.quantize {
        Some(q) => seq!["--quantize"@, decimal(q as nat)],
        None => Seq::<Seq<char>>::empty(),
    }));
    match settings.seed {
        Some(n) => {
            args.push(owned("--seed"));
            args.push(decimal_u64(n));
        },
        None => {},
    }
    let ghost e = arg_views(args@);
    assert(e =~= d + (match settings.seed {
        Some(n) => seq!["--seed"@, decimal(n as nat)],
        None => Seq::<Seq<char>>::empty(),
    }));
    assert(e =~= mflux_args(*settings, output@));
    args
}

/// The directory generated images are written to, under the home
/// directory or, without one, under the current directory.
pub fn image_output_dir(home: Option<&str>) -> (d: String)
    ensures
        d@ == joined_path(
            joined_path(
                match home {
                    Some(h) => h@,
                    None => "."@,
                },
                ".local_ai_assistant"@,
            ),
            "images"@,
        ),
{
    let base = match home {
        Some(h) => h,
        None => ".",
    };
    let app_dir = path_join(base, ".local_ai_assistant");
    path_join(app_dir.as_str(), "images")
}

/// The directory generated images are written to, under a home directory
/// or, without one, under the current directory.
pub open spec fn images_dir(home: Option<Seq<char>>) -> Seq<char> {
    joined_path(
        joined_path(
            match home {
                Some(h) => h,
                None => "."@,
            },
            ".local_ai_assistant"@,
        ),
        "images"@,
    )
}

/// The directory generated images are written to, for the user's home
/// directory as `dirs::home_dir` finds it.
pub fn user_image_output_dir() -> (d: String)
    ensures
        exists|home: Option<Seq<char>>| d@ == images_dir(home),
{
    let home = home_dir();
    let d = match &home {
        Some(h) => image_output_dir(Some(h.as_str())),
        None => image_output_dir(None),
    };
    proof {
        let w: Option<Seq<char>> = match home {
            Some(h) => Some(h@),
            None => None,
        };
        assert(d@ == images_dir(w));
    }
    d
}

/// The name of the file an image made at `millis` (since the epoch) goes to.
pub fn image_file_name(millis: u64) -> (s: String)
    ensures
        s@ == "image_"@ + decimal(millis as nat) + ".png"@,
{
    let mut s = owned("image_");
    let n = decimal_u64(millis);
    push_all(&mut s, n.as_str());
    push_all(&mut s, ".png");
    s
}

/// The error when the tool is not installed.
pub open spec fn not_installed_message() -> Seq<char> {
    "MFLUX not installed. Install with: uv tool install mflux"@
}

/// Check if MFLUX is available (no model state needed for CLI tool): the
/// back end is ready exactly when the tool answers, which the caller learns
/// by running it.
pub fn is_initialized(mflux_available: bool) -> (b: bool)
    ensures
        b == mflux_available,
{
    mflux_available
}

/// Check if generation is in progress
pub fn is_generating(status: &GenerationStatus) -> (b: bool)
    ensures
        b == status_view(*status).0,
{
    status.running()
}

/// Get current generation status
pub fn get_generation_status(status: &GenerationStatus) -> (r: (String, u8))
    ensures
        r.0@ == status_view(*status).1,
        r.1 == status_view(*status).2,
        r.1 <= 100,
{
    (owned(status.message()), status.progress())
}

/// Initialize MFLUX: check that the tool is available, recording progress.
pub fn init_image_model(status: &mut GenerationStatus, mflux_available: bool) -> (r: Result<(), String>)
    ensures
        mflux_available ==> r is Ok && status_view(*final(status)) == (status_view(*old(status)).0, "Ready (MFLUX)"@, 0u8),
        !mflux_available ==> (r matches Err(e) && e@ == not_installed_message()
            && status_view(*final(status)) == (status_view(*old(status)).0, "MFLUX not found"@, 0u8)),
{
    status.set_status("Checking MFLUX...", 10);
    if !mflux_available {
        status.set_status("MFLUX not found", 0);
        return Err(owned("MFLUX not installed. Install with: uv tool install mflux"));
    }
    status.set_status("Ready (MFLUX)", 0);
    Ok(())
}

/// The message shown while the tool runs.
pub open spec fn running_message(m: MfluxModel) -> Seq<char> {
    "Generating with "@ + model_display_name(m) + "..."@
}

/// Start a generation job: refuse when one runs, check that the tool is
/// installed, and give the arguments to run it with. On success the job is
/// marked running with the "Generating with ..." message at 20%; a refused
/// start leaves the state as it was, and a missing tool ends the job.
pub fn start_generation(
    status: &mut GenerationStatus,
    mflux_available: bool,
    settings: &ImageGenSettings,
    output: &str,
) -> (r: Result<Vec<String>, String>)
    ensures
        status_view(*old(status)).0 ==> (r matches Err(e) && e@ == "Image generation is already in progress"@
            && *final(status) == *old(status)),
        !status_view(*old(status)).0 && !mflux_available ==> (r matches Err(e) && e@ == not_installed_message()
            && status_view(*final(status)) == after_finish()),
        !status_view(*old(status)).0 && mflux_available ==> (r matches Ok(args)
            && arg_views(args@) == mflux_args(*settings, output@)
            && status_view(*final(status)) == (true, running_message(settings.model), 20u8)),
{
    let begun = status.try_begin("Image generation is already in progress");
    match begun {
        Err(e) => {
            return Err(e);
        },
        Ok(()) => {},
    }
    status.set_status("Starting generation...", 5);
    if !mflux_available {
        status.set_status("MFLUX not installed", 0);
        status.finish();
        return Err(owned("MFLUX not installed. Install with: uv tool install mflux"));
    }
    status.set_status("Preparing MFLUX...", 10);
    let args = mflux_command_args(settings, output);
    let mut msg = owned("Generating with ");
    push_all(&mut msg, settings.model.display_name());
    push_all(&mut msg, "...");
    status.set_status(msg.as_str(), 20);
    Ok(args)
}

/// How a run of the tool went, as the caller saw it.
pub enum MfluxOutcome {
    /// The tool could not be started; the text of the error.
    SpawnError(String),
    /// The tool exited with failure; what it wrote to standard error.
    ExitFailure(String),
    /// The tool succeeded but its image could not be read; the error.
    ReadError(String),
    /// The tool succeeded and wrote these bytes.
    Image(Vec<u8>),
}

/// The image made of PNG bytes and their decoding: the decoded size, or an
/// error naming the decoding failure.
pub fn image_from_decoded(png: Vec<u8>, decoded: Result<(u32, u32), String>) -> (r: Result<GeneratedImage, String>)
    ensures
        match decoded {
            Ok(d) => r matches Ok(img) && img.data@ == png@ && img.width == d.0 && img.height == d.1
                && img.format@ == "png"@,
            Err(e) => r matches Err(m) && m@ == "Failed to parse image: "@ + e@,
        },
{
    match decoded {
        Ok((width, height)) => Ok(GeneratedImage { data: png, width, height, format: owned("png") }),
        Err(e) => {
            let mut m = owned("Failed to parse image: ");
            push_all(&mut m, e.as_str());
            Err(m)
        },
    }
}

/// The result of a generation job, given how the tool's run went.
pub open spec fn generation_result(outcome: MfluxOutcome) -> Result<(Seq<u8>, u32, u32), Seq<char>> {
    match outcome {
        MfluxOutcome::SpawnError(e) => Err("Failed to run mflux-generate: "@ + e@),
        MfluxOutcome::ExitFailure(e) => Err("MFLUX generation failed: "@ + e@),
        MfluxOutcome::ReadError(e) => Err("Failed to read generated image: "@ + e@),
        MfluxOutcome::Image(png) => match decoded_dimensions(png@) {
            Ok(d) => Ok((png@, d.0, d.1)),
            Err(e) => Err("Failed to parse image: "@ + e),
        },
    }
}

/// Finish a generation job: decode the image the tool wrote, or report how
/// it failed; either way the job ends.
pub fn finish_generation(status: &mut GenerationStatus, outcome: MfluxOutcome) -> (r: Result<GeneratedImage, String>)
    ensures
        status_view(*final(status)) == after_finish(),
        match generation_result(outcome) {
            Ok(t) => r matches Ok(img) && img.data@ == t.0 && img.width == t.1 && img.height == t.2
                && img.format@ == "png"@,
            Err(e) => r matches Err(m) && m@ == e,
        },
{
    let r = match outcome {
        MfluxOutcome::SpawnError(e) => {
            let mut m = owned("Failed to run mflux-generate: ");
            push_all(&mut m, e.as_str());
            Err(m)
        },
        MfluxOutcome::ExitFailure(e) => {
            let mut m = owned("MFLUX generation failed: ");
            push_all(&mut m, e.as_str());
            Err(m)
        },
        MfluxOutcome::ReadError(e) => {
            let mut m = owned("Failed to read generated image: ");
            push_all(&mut m, e.as_str());
            Err(m)
        },
        MfluxOutcome::Image(png) => {
            status.set_status("Reading generated image...", 90);
            let decoded = decode_dimensions(png.as_slice());
            let img = image_from_decoded(png, decoded);
            if img.is_ok() {
                status.set_status("Complete!", 100);
            }
            img
        },
    };
    status.finish();
    r
}

/// The model a request names: `dev`, `z-image-turbo`, or Schnell for
/// anything else.
pub open spec fn model_of_choice(choice: Seq<char>) -> MfluxModel {
    if choice == "dev"@ {
        MfluxModel::Dev
    } else if choice == "z-image-turbo"@ {
        MfluxModel::ZImageTurbo
    } else {
        MfluxModel::Schnell
    }
}

/// The model a request names.
pub fn mflux_model_from_choice(choice: &str) -> (m: MfluxModel)
    ensures
        m == model_of_choice(choice@),
{
    let c = owned(choice);
    if c == owned("dev") {
        MfluxModel::Dev
    } else if c == owned("z-image-turbo") {
        MfluxModel::ZImageTurbo
    } else {
        MfluxModel::Schnell
    }
}

/// The settings an image request asks for: the prompt's defaults, with the
/// negative prompt, the size (only when both sides are given), the steps,
/// the model and the quantization that the request gives.
pub fn settings_from_request(
    prompt: &str,
    negative_prompt: Option<String>,
    width: Option<u32>,
    height: Option<u32>,
    steps: Option<u32>,
    model: Option<String>,
    quantize: Option<u8>,
) -> (s: ImageGenSettings)
    ensures
        s.prompt@ == prompt@,
        match negative_prompt {
            Some(n) => s.negative_prompt matches Some(m) && m@ == n@,
            None => s.negative_prompt is None,
        },
        (s.width, s.height) == (match (width, height) {
            (Some(w), Some(h)) => (w, h),
            _ => (1024u32, 1024u32),
        }),
        s.num_steps == steps,
        s.model == (match model {
            Some(m) => model_of_choice(m@),
            None => MfluxModel::Schnell,
        }),
        s.quantize == (match quantize {
            Some(q) => Some(q),
            None => Some(8u8),
        }),
        s.seed is None,
{
    let mut settings = ImageGenSettings::new(prompt);
    match &negative_prompt {
        Some(n) => {
            settings = settings.with_negative_prompt(n.as_str());
        },
        None => {},
    }
    match (width, height) {
        (Some(w), Some(h)) => {
            settings = settings.with_size(w, h);
        },
        _ => {},
    }
    match steps {
        Some(n) => {
            settings = settings.with_steps(n);
        },
        None => {},
    }
    match &model {
        Some(m) => {
            settings = settings.with_model(mflux_model_from_choice(m.as_str()));
        },
        None => {},
    }
    match quantize {
        Some(q) => {
            settings = settings.with_quantize(q);
        },
        None => {},
    }
    settings
}

/// The image job's state as reported to the interface.
#[derive(Clone, Debug)]
pub struct ImageGenStatus {
    pub is_generating: bool,
    pub status: String,
    pub progress: u8,
}

/// The image job's state as reported to the interface.
pub fn get_image_gen_status(status: &GenerationStatus) -> (s: ImageGenStatus)
    ensures
        s.is_generating == status_view(*status).0,
        s.status@ == status_view(*status).1,
        s.progress == status_view(*status).2,
        s.progress <= 100,
{
    let (text, progress) = get_generation_status(status);
    ImageGenStatus { is_generating: is_generating(status), status: text, progress }
}

/// A generated image as handed to the interface.
#[derive(Clone, Debug)]
pub struct ImageResult {
    pub data_url: String,
    pub width: u32,
    pub height: u32,
}

impl ImageResult {
    /// The interface's view of a generated image: its data URL and size.
    pub fn from_image(image: &GeneratedImage) -> (r: Self)
        requires
            4 * ((image.data@.len() + 2) / 3) <= usize::MAX,
        ensures
            r.data_url@ == image_data_url(image.format@, image.data@),
            r.width == image.width,
            r.height == image.height,
    {
        ImageResult { data_url: image.to_data_url(), width: image.width, height: image.height }
    }
}

/// The image is made at the requested size: the argument after `--width`
/// is the requested width and the one after `--height` the requested
/// height, in decimal.
pub proof fn lemma_args_keep_size(s: ImageGenSettings, output: Seq<char>)
    ensures
        exists|i: int|
            0 <= i && i + 3 < mflux_args(s, output).len() && #[trigger] mflux_args(s, output)[i] == "--width"@
                && mflux_args(s, output)[i + 1] == decimal(s.width as nat) && mflux_args(s, output)[i + 2]
                == "--height"@ && mflux_args(s, output)[i + 3] == decimal(s.height as nat),
{
    let a = mflux_args(s, output);
    let k: int = match model_base(s.model) {
        Some(_) => 8,
        None => 6,
    };
    assert(a[k] == "--width"@);
}

} // verus!
