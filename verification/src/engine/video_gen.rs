//! Video generation: requests, provider configurations and the naming
//! rules of each provider's API.
use vstd::prelude::*;
use crate::models::video_gen::{cost_millis, VideoConfig, VideoModel, VideoProvider, VideoQuality};
use crate::engine::config::{env_lookup, env_or_empty, env_var, first_set, or_empty};
use crate::deps::{json_quote, json_quoted};
use crate::text::{decimal, decimal_string, owned, push_all};

verus! {

/// Video generation request
#[derive(Clone, Debug)]
pub struct VideoRequest {
    pub prompt: String,
    pub config: VideoConfig,
    pub model: VideoModel,
    pub provider: VideoProvider,
    pub negative_prompt: Option<String>,
    pub seed: Option<u32>,
}

/// State of a generation job
#[derive(Clone, Debug)]
pub enum VideoStatus {
    Pending,
    Processing,
    Completed,
    Failed(String),
}

/// Provider-specific configuration; `timeout_secs` is the request timeout
/// in seconds.
#[derive(Clone, Debug)]
pub struct ProviderConfig {
    pub api_key: String,
    pub access_key_id: String,
    pub secret_access_key: String,
    pub base_url: String,
    pub timeout_secs: u64,
}

impl VideoRequest {
    pub fn new(prompt: String) -> (r: Self)
        ensures
            r.prompt == prompt,
            r.config.width == 1024,
            r.config.height == 576,
            r.config.duration_seconds == 5,
            r.config.fps == 24,
            r.config.quality == VideoQuality::HD,
            r.config.style is None,
            r.model == VideoModel::Pika2,
            r.provider == VideoProvider::ByteDance,
            r.negative_prompt is None,
            r.seed is None,
    {
        VideoRequest {
            prompt,
            config: VideoConfig::default(),
            model: VideoModel::Pika2,
            provider: VideoProvider::ByteDance,
            negative_prompt: None,
            seed: None,
        }
    }

    pub fn with_model(self, model: VideoModel) -> (r: Self)
        ensures
            r.model == model,
            r.prompt == self.prompt,
            r.config == self.config,
            r.provider == self.provider,
            r.negative_prompt == self.negative_prompt,
            r.seed == self.seed,
    {
        let mut r = self;
        r.model = model;
        r
    }

    pub fn with_provider(self, provider: VideoProvider) -> (r: Self)
        ensures
            r.provider == provider,
            r.prompt == self.prompt,
            r.config == self.config,
            r.model == self.model,
            r.negative_prompt == self.negative_prompt,
            r.seed == self.seed,
    {
        let mut r = self;
        r.provider = provider;
        r
    }

    pub fn with_config(self, config: VideoConfig) -> (r: Self)
        ensures
            r.config == config,
            r.prompt == self.prompt,
            r.model == self.model,
            r.provider == self.provider,
            r.negative_prompt == self.negative_prompt,
            r.seed == self.seed,
    {
        let mut r = self;
        r.config = config;
        r
    }

    pub fn with_duration(self, seconds: u32) -> (r: Self)
        ensures
            r.config.duration_seconds == seconds,
            r.config.width == self.config.width,
            r.config.height == self.config.height,
            r.config.fps == self.config.fps,
            r.config.quality == self.config.quality,
            r.config.style == self.config.style,
            r.prompt == self.prompt,
            r.model == self.model,
            r.provider == self.provider,
            r.negative_prompt == self.negative_prompt,
            r.seed == self.seed,
    {
        let mut r = self;
        r.config.duration_seconds = seconds;
        r
    }

    pub fn with_quality(self, quality: VideoQuality) -> (r: Self)
        ensures
            r.config.quality == quality,
            r.config.width == self.config.width,
            r.config.height == self.config.height,
            r.config.duration_seconds == self.config.duration_seconds,
            r.config.fps == self.config.fps,
            r.config.style == self.config.style,
            r.prompt == self.prompt,
            r.model == self.model,
            r.provider == self.provider,
            r.negative_prompt == self.negative_prompt,
            r.seed == self.seed,
    {
        let mut r = self;
        r.config.quality = quality;
        r
    }
}

/// Variable naming the API key, base URL and timeout in seconds of the
/// default configuration of each provider.
pub open spec fn provider_defaults(p: VideoProvider) -> (Seq<char>, Seq<char>, u64) {
    match p {
        VideoProvider::OpenRouter => ("OPENROUTER_API_KEY"@, "https://openrouter.ai/api/v1"@, 300),
        VideoProvider::Together => ("TOGETHER_API_KEY"@, "https://api.together.xyz/v1"@, 240),
        VideoProvider::Replicate => ("REPLICATE_API_TOKEN"@, "https://api.replicate.com/v1"@, 360),
        VideoProvider::ByteDance => ("BYTEDANCE_API_KEY"@, "https://ark.cn-beijing.volces.com/api/v3"@, 180),
        VideoProvider::Alibaba => ("DASHSCOPE_API_KEY"@, "https://dashscope.aliyuncs.com/api/v1"@, 240),
        VideoProvider::Baidu => ("BAIDU_API_KEY"@, "https://aip.baidubce.com/rpc/2.0/ai_custom/v1"@, 200),
        VideoProvider::Tencent => ("TENCENT_SECRET_ID"@, "https://hunyuan.tencentcloudapi.com"@, 300),
        VideoProvider::HuggingFace => ("HF_TOKEN"@, "https://api-inference.huggingface.co/models"@, 300),
    }
}

/// The default configuration of provider `p` under the environment `env`:
/// the API key from the provider's variable, and for ByteDance the access
/// key pair from the first variable of each list that is set.
pub open spec fn default_config(env: Seq<(String, String)>, p: VideoProvider, c: ProviderConfig) -> bool {
    let d = provider_defaults(p);
    &&& c.api_key@ == or_empty(env_lookup(env, d.0))
    &&& c.base_url@ == d.1
    &&& c.timeout_secs == d.2
    &&& if p == VideoProvider::ByteDance {
        &&& c.access_key_id@ == first_set(env, "Access_Key_ID"@, "JIMENG_ACCESS_KEY"@, "VOLC_ACCESS_KEY"@)
        &&& c.secret_access_key@ == first_set(env, "Secret_Access_Key"@, "JIMENG_SECRET_KEY"@, "VOLC_SECRET_KEY"@)
    } else {
        &&& c.access_key_id@.len() == 0
        &&& c.secret_access_key@.len() == 0
    }
}

/// Generator holding one configuration per provider.
pub struct VideoGenerator {
    pub configs: Vec<(VideoProvider, ProviderConfig)>,
}

impl VideoGenerator {
    /// No provider has two configurations.
    pub open spec fn wf(&self) -> bool {
        forall|i: int, j: int|
            0 <= i < j < self.configs@.len() ==> #[trigger] self.configs@[i].0 != #[trigger] self.configs@[j].0
    }

    /// The configurations as a map from provider to configuration.
    pub open spec fn config_map(&self) -> Map<VideoProvider, ProviderConfig> {
        Map::new(
            |p: VideoProvider| exists|i: int| 0 <= i < self.configs@.len() && self.configs@[i].0 == p,
            |p: VideoProvider|
                self.configs@[choose|i: int| 0 <= i < self.configs@.len() && self.configs@[i].0 == p].1,
        )
    }

    /// A generator with the default configuration of every provider, its
    /// keys read from the variables in `env`.
    pub fn new(env: &Vec<(String, String)>) -> (g: Self)
        ensures
            g.wf(),
            g.configs@.len() == 8,
            forall|p: VideoProvider| #[trigger] g.config_map().dom().contains(p),
            forall|p: VideoProvider| default_config(env@, p, #[trigger] g.config_map()[p]),
    {
        let mut configs: Vec<(VideoProvider, ProviderConfig)> = Vec::new();
        configs.push((VideoProvider::OpenRouter, Self::simple_config(env, "OPENROUTER_API_KEY", "https://openrouter.ai/api/v1", 300)));
        configs.push((VideoProvider::Together, Self::simple_config(env, "TOGETHER_API_KEY", "https://api.together.xyz/v1", 240)));
        configs.push((VideoProvider::Replicate, Self::simple_config(env, "REPLICATE_API_TOKEN", "https://api.replicate.com/v1", 360)));
        let access = match env_var(env, "Access_Key_ID") {
            Some(v) => v,
            None => match env_var(env, "JIMENG_ACCESS_KEY") {
                Some(v) => v,
                None => env_or_empty(env, "VOLC_ACCESS_KEY"),
            },
        };
        let secret = match env_var(env, "Secret_Access_Key") {
            Some(v) => v,
            None => match env_var(env, "JIMENG_SECRET_KEY") {
                Some(v) => v,
                None => env_or_empty(env, "VOLC_SECRET_KEY"),
            },
        };
        configs.push((VideoProvider::ByteDance, ProviderConfig {
            api_key: env_or_empty(env, "BYTEDANCE_API_KEY"),
            access_key_id: access,
            secret_access_key: secret,
            base_url: owned("https://ark.cn-beijing.volces.com/api/v3"),
            timeout_secs: 180,
        }));
        configs.push((VideoProvider::Alibaba, Self::simple_config(env, "DASHSCOPE_API_KEY", "https://dashscope.aliyuncs.com/api/v1", 240)));
        configs.push((VideoProvider::Baidu, Self::simple_config(env, "BAIDU_API_KEY", "https://aip.baidubce.com/rpc/2.0/ai_custom/v1", 200)));
        configs.push((VideoProvider::Tencent, Self::simple_config(env, "TENCENT_SECRET_ID", "https://hunyuan.tencentcloudapi.com", 300)));
        configs.push((VideoProvider::HuggingFace, Self::simple_config(env, "HF_TOKEN", "https://api-inference.huggingface.co/models", 300)));
        let g = VideoGenerator { configs };
        proof {
            let s = g.configs@;
            assert(s[0].0 == VideoProvider::OpenRouter);
            assert(s[1].0 == VideoProvider::Together);
            assert(s[2].0 == VideoProvider::Replicate);
            assert(s[3].0 == VideoProvider::ByteDance);
            assert(s[4].0 == VideoProvider::Alibaba);
            assert(s[5].0 == VideoProvider::Baidu);
            assert(s[6].0 == VideoProvider::Tencent);
            assert(s[7].0 == VideoProvider::HuggingFace);
            assert forall|p: VideoProvider| g.config_map().dom().contains(p) && default_config(env@, p, #[trigger] g.config_map()[p]) by {
                let k: int = match p {
                    VideoProvider::OpenRouter => 0,
                    VideoProvider::Together => 1,
                    VideoProvider::Replicate => 2,
                    VideoProvider::ByteDance => 3,
                    VideoProvider::Alibaba => 4,
                    VideoProvider::Baidu => 5,
                    VideoProvider::Tencent => 6,
                    VideoProvider::HuggingFace => 7,
                };
                assert(s[k].0 == p);
                let c = choose|i: int| 0 <= i < s.len() && s[i].0 == p;
                assert(c == k);
            }
        }
        g
    }

    /// A configuration with an API key from `var`, no access key pair, the
    /// given base URL and timeout.
    fn simple_config(env: &Vec<(String, String)>, var: &str, base_url: &str, timeout_secs: u64) -> (c: ProviderConfig)
        ensures
            c.api_key@ == or_empty(env_lookup(env@, var@)),
            c.access_key_id@.len() == 0,
            c.secret_access_key@.len() == 0,
            c.base_url@ == base_url@,
            c.timeout_secs == timeout_secs,
    {
        ProviderConfig {
            api_key: env_or_empty(env, var),
            access_key_id: String::new(),
            secret_access_key: String::new(),
            base_url: owned(base_url),
            timeout_secs,
        }
    }

    /// Sets the configuration of `provider`, replacing any earlier one.
    pub fn add_provider_config(&mut self, provider: VideoProvider, config: ProviderConfig)
        requires
            old(self).wf(),
        ensures
            final(self).wf(),
            final(self).config_map() == old(self).config_map().insert(provider, config),
    {
        let ghost pre = self.configs@;
        let mut i: usize = 0;
        while i < self.configs.len()
            invariant
                i <= self.configs@.len(),
                self.configs@ == pre,
                old(self).configs@ == pre,
                old(self).wf(),
                forall|j: int| 0 <= j < i ==> self.configs@[j].0 != provider,
            decreases self.configs@.len() - i,
        {
            if self.configs[i].0 == provider {
                self.configs.set(i, (provider, config));
                proof {
                    let post = self.configs@;
                    assert(post == pre.update(i as int, (provider, config)));
                    assert(forall|x: int| 0 <= x < post.len() ==> #[trigger] post[x].0 == pre[x].0);
                    assert(self.wf());
                    assert forall|p: VideoProvider| #![auto] self.config_map().dom().contains(p) == old(self).config_map().insert(provider, config).dom().contains(p) by {
                        if p != provider {
                            if exists|k: int| 0 <= k < pre.len() && pre[k].0 == p {
                                let k = choose|k: int| 0 <= k < pre.len() && pre[k].0 == p;
                                assert(post[k].0 == p);
                            }
                            if exists|k: int| 0 <= k < post.len() && post[k].0 == p {
                                let k = choose|k: int| 0 <= k < post.len() && post[k].0 == p;
                                assert(pre[k].0 == p);
                            }
                        } else {
                            assert(post[i as int].0 == p);
                        }
                    }
                    assert(self.config_map().dom() =~= old(self).config_map().insert(provider, config).dom());
                    assert forall|p: VideoProvider| #![auto] self.config_map().dom().contains(p) implies self.config_map()[p] == old(self).config_map().insert(provider, config)[p] by {
                        let k = choose|k: int| 0 <= k < post.len() && post[k].0 == p;
                        if p == provider {
                            assert(k == i);
                        } else {
                            let k2 = choose|k2: int| 0 <= k2 < pre.len() && pre[k2].0 == p;
                            assert(k2 == k);
                        }
                    }
                    assert(self.config_map() =~= old(self).config_map().insert(provider, config));
                }
                return;
            }
            i += 1;
        }
        self.configs.push((provider, config));
        proof {
            let post = self.configs@;
            let n = pre.len() as int;
            assert(post == pre.push((provider, config)));
            assert(forall|x: int| 0 <= x < pre.len() ==> #[trigger] post[x] == pre[x]);
            assert(self.wf());
            assert forall|p: VideoProvider| #![auto] self.config_map().dom().contains(p) == old(self).config_map().insert(provider, config).dom().contains(p) by {
                if p != provider {
                    if exists|k: int| 0 <= k < pre.len() && pre[k].0 == p {
                        let k = choose|k: int| 0 <= k < pre.len() && pre[k].0 == p;
                        assert(post[k].0 == p);
                    }
                } else {
                    assert(post[n].0 == p);
                }
            }
            assert(self.config_map().dom() =~= old(self).config_map().insert(provider, config).dom());
            assert forall|p: VideoProvider| #![auto] self.config_map().dom().contains(p) implies self.config_map()[p] == old(self).config_map().insert(provider, config)[p] by {
                let k = choose|k: int| 0 <= k < post.len() && post[k].0 == p;
                if p == provider {
                    assert(k == n);
                } else {
                    let k2 = choose|k2: int| 0 <= k2 < pre.len() && pre[k2].0 == p;
                    assert(k2 == k);
                }
            }
            assert(self.config_map() =~= old(self).config_map().insert(provider, config));
        }
    }

    /// The configuration of `provider`, if there is one.
    pub fn config_for(&self, provider: VideoProvider) -> (r: Option<&ProviderConfig>)
        requires
            self.wf(),
        ensures
            match r {
                Some(c) => self.config_map().dom().contains(provider) && *c == self.config_map()[provider],
                None => !self.config_map().dom().contains(provider),
            },
    {
        let mut i: usize = 0;
        while i < self.configs.len()
            invariant
                i <= self.configs@.len(),
                self.wf(),
                forall|j: int| 0 <= j < i ==> self.configs@[j].0 != provider,
            decreases self.configs@.len() - i,
        {
            if self.configs[i].0 == provider {
                proof {
                    let k = choose|k: int| 0 <= k < self.configs@.len() && self.configs@[k].0 == provider;
                    assert(k == i);
                }
                return Some(&self.configs[i].1);
            }
            i += 1;
        }
        None
    }

    pub fn get_openrouter_model_name(&self, model: &VideoModel) -> (r: &'static str)
        ensures
            r@ == match *model {
                VideoModel::Gen2 => "runway/gen-2"@,
                VideoModel::StableVideoDiffusion => "stability-ai/stable-video-diffusion"@,
                VideoModel::OpenRouterPro => "openrouter/video-pro"@,
                _ => "pika/pika-2.0"@,
            },
    {
        match model {
            VideoModel::Pika2 => "pika/pika-2.0",
            VideoModel::Gen2 => "runway/gen-2",
            VideoModel::StableVideoDiffusion => "stability-ai/stable-video-diffusion",
            VideoModel::OpenRouterPro => "openrouter/video-pro",
            _ => "pika/pika-2.0",
        }
    }

    pub fn get_bytedance_model_name(&self, model: &VideoModel) -> (r: &'static str)
        ensures
            r@ == match *model {
                VideoModel::JimengV1 => "jimeng-1.0"@,
                VideoModel::DoubaoVideo => "doubao-video-gen"@,
                _ => "jimeng-2.0"@,
            },
    {
        match model {
            VideoModel::JimengV1 => "jimeng-1.0",
            VideoModel::JimengV2 => "jimeng-2.0",
            VideoModel::DoubaoVideo => "doubao-video-gen",
            _ => "jimeng-2.0",
        }
    }

    pub fn get_alibaba_model_name(&self, model: &VideoModel) -> (r: &'static str)
        ensures
            r@ == match *model {
                VideoModel::AliVGen => "ali-v-gen"@,
                _ => "wanx-v1"@,
            },
    {
        match model {
            VideoModel::TongyiWanxiang => "wanx-v1",
            VideoModel::AliVGen => "ali-v-gen",
            _ => "wanx-v1",
        }
    }

    pub fn get_quality_string(&self, quality: &VideoQuality) -> (r: &'static str)
        ensures
            r@ == match *quality {
                VideoQuality::Standard => "480p"@,
                VideoQuality::HD => "720p"@,
                VideoQuality::Premium => "1080p"@,
            },
    {
        match quality {
            VideoQuality::Standard => "480p",
            VideoQuality::HD => "720p",
            VideoQuality::Premium => "1080p",
        }
    }

    /// The estimated cost of a request, in thousandths of a US dollar: its
    /// model's price per second at its quality times its length.
    pub fn estimate_cost(&self, request: &VideoRequest) -> (c: u64)
        ensures
            c == cost_millis(request.model, request.config.quality) * request.config.duration_seconds,
    {
        let per_second = request.model.get_cost_per_second(&request.config.quality);
        assert(per_second * request.config.duration_seconds <= u32::MAX * u32::MAX) by (nonlinear_arith)
            requires
                per_second <= u32::MAX,
                request.config.duration_seconds <= u32::MAX,
        ;
        (per_second as u64) * (request.config.duration_seconds as u64)
    }
}

/// Setting a provider's configuration and then reading it gives back what
/// was set, and leaves the other providers' configurations as they were:
/// `after` is a generator as `add_provider_config` leaves `before`.
pub proof fn lemma_config_read_after_write(
    before: VideoGenerator,
    after: VideoGenerator,
    provider: VideoProvider,
    config: ProviderConfig,
    other: VideoProvider,
)
    requires
        after.config_map() == before.config_map().insert(provider, config),
        other != provider,
    ensures
        after.config_map().dom().contains(provider),
        after.config_map()[provider] == config,
        after.config_map().dom().contains(other) == before.config_map().dom().contains(other),
        before.config_map().dom().contains(other) ==> after.config_map()[other] == before.config_map()[other],
{
}

/// The back end a request goes to.
#[derive(Clone, Copy, Debug, PartialEq, Eq, Structural)]
pub enum VideoBackend {
    OpenRouter,
    ByteDance,
    Alibaba,
    Baidu,
}

/// The providers whose generation is implemented.
pub open spec fn implemented(p: VideoProvider) -> bool {
    p == VideoProvider::OpenRouter || p == VideoProvider::ByteDance || p == VideoProvider::Alibaba
        || p == VideoProvider::Baidu
}

/// Whether a provider's generation is implemented.
pub fn implemented_provider(p: VideoProvider) -> (b: bool)
    ensures
        b == implemented(p),
{
    match p {
        VideoProvider::OpenRouter | VideoProvider::ByteDance | VideoProvider::Alibaba | VideoProvider::Baidu => true,
        _ => false,
    }
}

/// The back end that generates a request's video. Together, Replicate,
/// Tencent and Hugging Face are not implemented (generation panics there),
/// so they are not accepted.
pub fn backend_for(provider: VideoProvider) -> (b: VideoBackend)
    requires
        implemented(provider),
    ensures
        provider == VideoProvider::OpenRouter ==> b == VideoBackend::OpenRouter,
        provider == VideoProvider::ByteDance ==> b == VideoBackend::ByteDance,
        provider == VideoProvider::Alibaba ==> b == VideoBackend::Alibaba,
        provider == VideoProvider::Baidu ==> b == VideoBackend::Baidu,
{
    match provider {
        VideoProvider::OpenRouter => VideoBackend::OpenRouter,
        VideoProvider::ByteDance => VideoBackend::ByteDance,
        VideoProvider::Alibaba => VideoBackend::Alibaba,
        _ => VideoBackend::Baidu,
    }
}

/// The provider a back end stands for.
pub open spec fn backend_provider(b: VideoBackend) -> VideoProvider {
    match b {
        VideoBackend::OpenRouter => VideoProvider::OpenRouter,
        VideoBackend::ByteDance => VideoProvider::ByteDance,
        VideoBackend::Alibaba => VideoProvider::Alibaba,
        VideoBackend::Baidu => VideoProvider::Baidu,
    }
}

/// The name a back end's messages use.
pub open spec fn backend_name(b: VideoBackend) -> Seq<char> {
    match b {
        VideoBackend::OpenRouter => "OpenRouter"@,
        VideoBackend::ByteDance => "ByteDance"@,
        VideoBackend::Alibaba => "Alibaba"@,
        VideoBackend::Baidu => "Baidu"@,
    }
}

impl VideoGenerator {
    /// The configuration a back end uses, or the error when it has none.
    pub fn backend_config(&self, backend: VideoBackend) -> (r: Result<&ProviderConfig, String>)
        requires
            self.wf(),
        ensures
            match r {
                Ok(c) => self.config_map().dom().contains(backend_provider(backend))
                    && *c == self.config_map()[backend_provider(backend)],
                Err(e) => !self.config_map().dom().contains(backend_provider(backend))
                    && e@ == backend_name(backend) + " config not found"@,
            },
    {
        let provider = match backend {
            VideoBackend::OpenRouter => VideoProvider::OpenRouter,
            VideoBackend::ByteDance => VideoProvider::ByteDance,
            VideoBackend::Alibaba => VideoProvider::Alibaba,
            VideoBackend::Baidu => VideoProvider::Baidu,
        };
        match self.config_for(provider) {
            Some(c) => Ok(c),
            None => {
                let mut e = owned(match backend {
                    VideoBackend::OpenRouter => "OpenRouter",
                    VideoBackend::ByteDance => "ByteDance",
                    VideoBackend::Alibaba => "Alibaba",
                    VideoBackend::Baidu => "Baidu",
                });
                push_all(&mut e, " config not found");
                Err(e)
            },
        }
    }
}

/// The error when a back end's API key is missing.
pub open spec fn missing_api_key_message(b: VideoBackend) -> Seq<char> {
    match b {
        VideoBackend::OpenRouter => "OpenRouter API key not configured"@,
        VideoBackend::Alibaba => "Alibaba DashScope API key not configured"@,
        _ => "Baidu API key not configured"@,
    }
}

/// The back end's API key is set.
pub fn api_key_check(backend: VideoBackend, config: &ProviderConfig) -> (r: Result<(), String>)
    requires
        backend != VideoBackend::ByteDance,
    ensures
        config.api_key@.len() == 0 ==> (r matches Err(e) && e@ == missing_api_key_message(backend)),
        config.api_key@.len() > 0 ==> r is Ok,
{
    let empty = String::new();
    assert(config.api_key@.len() == 0 ==> config.api_key@ =~= empty@);
    if config.api_key == empty {
        return Err(owned(match backend {
            VideoBackend::OpenRouter => "OpenRouter API key not configured",
            VideoBackend::Alibaba => "Alibaba DashScope API key not configured",
            _ => "Baidu API key not configured",
        }));
    }
    Ok(())
}

/// The `Authorization` header of a key-based request.
pub fn bearer(api_key: &str) -> (h: String)
    ensures
        h@ == "Bearer "@ + api_key@,
{
    let mut h = owned("Bearer ");
    push_all(&mut h, api_key);
    h
}

/// `base` followed by `suffix`.
pub fn endpoint(base: &str, suffix: &str) -> (u: String)
    ensures
        u@ == base@ + suffix@,
{
    let mut u = owned(base);
    push_all(&mut u, suffix);
    u
}

/// The OpenRouter body: its fields in the order `serde_json` writes them,
/// the negative prompt and the seed only when given.
pub open spec fn openrouter_body(r: VideoRequest, model: Seq<char>, quality: Seq<char>) -> Seq<char> {
    "{\"duration_seconds\":"@ + decimal(r.config.duration_seconds as nat) + ",\"height\":"@ + decimal(
        r.config.height as nat,
    ) + ",\"model\":"@ + json_quoted(model) + (match r.negative_prompt {
        Some(n) => ",\"negative_prompt\":"@ + json_quoted(n@),
        None => Seq::empty(),
    }) + ",\"prompt\":"@ + json_quoted(r.prompt@) + ",\"quality\":"@ + json_quoted(quality) + (match r.seed {
        Some(n) => ",\"seed\":"@ + decimal(n as nat),
        None => Seq::empty(),
    }) + ",\"width\":"@ + decimal(r.config.width as nat) + "}"@
}

/// The OpenRouter request body for `request`.
pub fn openrouter_payload(generator: &VideoGenerator, request: &VideoRequest) -> (b: String)
    ensures
        b@ == openrouter_body(
            *request,
            match request.model {
                VideoModel::Gen2 => "runway/gen-2"@,
                VideoModel::StableVideoDiffusion => "stability-ai/stable-video-diffusion"@,
                VideoModel::OpenRouterPro => "openrouter/video-pro"@,
                _ => "pika/pika-2.0"@,
            },
            match request.config.quality {
                VideoQuality::Standard => "480p"@,
                VideoQuality::HD => "720p"@,
                VideoQuality::Premium => "1080p"@,
            },
        ),
{
    let mut b = owned("{\"duration_seconds\":");
    push_all(&mut b, decimal_string(request.config.duration_seconds as usize).as_str());
    push_all(&mut b, ",\"height\":");
    push_all(&mut b, decimal_string(request.config.height as usize).as_str());
    push_all(&mut b, ",\"model\":");
    push_all(&mut b, json_quote(generator.get_openrouter_model_name(&request.model)).as_str());
    match &request.negative_prompt {
        Some(n) => {
            push_all(&mut b, ",\"negative_prompt\":");
            push_all(&mut b, json_quote(n.as_str()).as_str());
        },
        None => {},
    }
    push_all(&mut b, ",\"prompt\":");
    push_all(&mut b, json_quote(request.prompt.as_str()).as_str());
    push_all(&mut b, ",\"quality\":");
    push_all(&mut b, json_quote(generator.get_quality_string(&request.config.quality)).as_str());
    match request.seed {
        Some(n) => {
            push_all(&mut b, ",\"seed\":");
            push_all(&mut b, decimal_string(n as usize).as_str());
        },
        None => {},
    }
    push_all(&mut b, ",\"width\":");
    push_all(&mut b, decimal_string(request.config.width as usize).as_str());
    push_all(&mut b, "}");
    b
}

/// The Alibaba (Tongyi Wanxiang) body: the model, and the prompt, the
/// resolution as `WxH` and the length in seconds.
pub open spec fn alibaba_body(r: VideoRequest, model: Seq<char>) -> Seq<char> {
    "{\"input\":{\"prompt\":"@ + json_quoted(r.prompt@) + ",\"resolution\":"@ + json_quoted(
        decimal(r.config.width as nat) + "x"@ + decimal(r.config.height as nat),
    ) + ",\"video_length\":"@ + decimal(r.config.duration_seconds as nat) + "},\"model\":"@ + json_quoted(model)
        + "}"@
}

/// The Alibaba request body for `request`.
pub fn alibaba_payload(generator: &VideoGenerator, request: &VideoRequest) -> (b: String)
    ensures
        b@ == alibaba_body(
            *request,
            match request.model {
                VideoModel::AliVGen => "ali-v-gen"@,
                _ => "wanx-v1"@,
            },
        ),
{
    let mut res = decimal_string(request.config.width as usize);
    push_all(&mut res, "x");
    push_all(&mut res, decimal_string(request.config.height as usize).as_str());
    let mut b = owned("{\"input\":{\"prompt\":");
    push_all(&mut b, json_quote(request.prompt.as_str()).as_str());
    push_all(&mut b, ",\"resolution\":");
    push_all(&mut b, json_quote(res.as_str()).as_str());
    push_all(&mut b, ",\"video_length\":");
    push_all(&mut b, decimal_string(request.config.duration_seconds as usize).as_str());
    push_all(&mut b, "},\"model\":");
    push_all(&mut b, json_quote(generator.get_alibaba_model_name(&request.model)).as_str());
    push_all(&mut b, "}");
    b
}

/// The Baidu body: prompt, length, height and width.
pub open spec fn baidu_body(r: VideoRequest) -> Seq<char> {
    "{\"prompt\":"@ + json_quoted(r.prompt@) + ",\"video_duration\":"@ + decimal(r.config.duration_seconds as nat)
        + ",\"video_height\":"@ + decimal(r.config.height as nat) + ",\"video_width\":"@ + decimal(
        r.config.width as nat,
    ) + "}"@
}

/// The Baidu request body for `request`.
pub fn baidu_payload(request: &VideoRequest) -> (b: String)
    ensures
        b@ == baidu_body(*request),
{
    let mut b = owned("{\"prompt\":");
    push_all(&mut b, json_quote(request.prompt.as_str()).as_str());
    push_all(&mut b, ",\"video_duration\":");
    push_all(&mut b, decimal_string(request.config.duration_seconds as usize).as_str());
    push_all(&mut b, ",\"video_height\":");
    push_all(&mut b, decimal_string(request.config.height as usize).as_str());
    push_all(&mut b, ",\"video_width\":");
    push_all(&mut b, decimal_string(request.config.width as usize).as_str());
    push_all(&mut b, "}");
    b
}

/// The URL that gives a Baidu access token for an API key.
pub fn baidu_token_url(api_key: &str) -> (u: String)
    ensures
        u@ == "https://aip.baidubce.com/oauth/2.0/token?grant_type=client_credentials&client_id="@ + api_key@,
{
    endpoint("https://aip.baidubce.com/oauth/2.0/token?grant_type=client_credentials&client_id=", api_key)
}

/// The URL of Baidu's generation endpoint with an access token, or the
/// error when the token answer had none.
pub fn baidu_generation_url(base_url: &str, access_token: Option<String>) -> (r: Result<String, String>)
    ensures
        match access_token {
            Some(t) => r matches Ok(u) && u@ == base_url@ + "/wenxinworkshop/video/generation/v1?access_token="@ + t@,
            None => r matches Err(e) && e@ == "Failed to get access token"@,
        },
{
    match access_token {
        Some(t) => {
            let mut u = endpoint(base_url, "/wenxinworkshop/video/generation/v1?access_token=");
            push_all(&mut u, t.as_str());
            Ok(u)
        },
        None => Err(owned("Failed to get access token")),
    }
}

/// The error reported for an HTTP error answer of a back end.
pub fn api_error(backend: VideoBackend, body: &str) -> (e: String)
    requires
        backend != VideoBackend::ByteDance,
    ensures
        e@ == backend_name(backend) + " API error: "@ + body@,
{
    let mut e = owned(match backend {
        VideoBackend::OpenRouter => "OpenRouter",
        VideoBackend::Alibaba => "Alibaba",
        _ => "Baidu",
    });
    push_all(&mut e, " API error: ");
    push_all(&mut e, body);
    e
}

/// The video generation form a user submits.
#[derive(Clone, Debug)]
pub struct VideoGenForm {
    pub prompt: String,
    pub negative_prompt: Option<String>,
    pub duration_seconds: u32,
    pub width: u32,
    pub height: u32,
    pub quality: VideoQuality,
    pub fps: u8,
    pub provider: VideoProvider,
    pub model: VideoModel,
    pub seed: Option<u32>,
}

impl Default for VideoGenForm {
    /// Five seconds at 1024 by 576, HD, 24 frames a second, Jimeng V2 on
    /// ByteDance (the best value).
    fn default() -> (f: Self)
        ensures
            f.prompt@.len() == 0,
            f.negative_prompt is None,
            f.duration_seconds == 5,
            f.width == 1024,
            f.height == 576,
            f.quality == VideoQuality::HD,
            f.fps == 24,
            f.provider == VideoProvider::ByteDance,
            f.model == VideoModel::JimengV2,
            f.seed is None,
    {
        VideoGenForm {
            prompt: String::new(),
            negative_prompt: None,
            duration_seconds: 5,
            width: 1024,
            height: 576,
            quality: VideoQuality::HD,
            fps: 24,
            provider: VideoProvider::ByteDance,
            model: VideoModel::JimengV2,
            seed: None,
        }
    }
}

/// The request a form asks for: its prompt, model and provider, its size,
/// length, frame rate and quality (no style), and its negative prompt and
/// seed.
pub fn request_from_form(form: VideoGenForm) -> (r: VideoRequest)
    ensures
        r.prompt == form.prompt,
        r.model == form.model,
        r.provider == form.provider,
        r.config == (VideoConfig {
            width: form.width,
            height: form.height,
            duration_seconds: form.duration_seconds,
            fps: form.fps,
            quality: form.quality,
            style: None,
        }),
        r.negative_prompt == form.negative_prompt,
        r.seed == form.seed,
{
    let config = VideoConfig {
        width: form.width,
        height: form.height,
        duration_seconds: form.duration_seconds,
        fps: form.fps,
        quality: form.quality,
        style: None,
    };
    let mut r = VideoRequest::new(form.prompt).with_model(form.model).with_provider(form.provider).with_config(config);
    r.negative_prompt = form.negative_prompt;
    r.seed = form.seed;
    r
}

/// The text a job's status is reported as.
pub open spec fn status_label(s: VideoStatus) -> Seq<char> {
    match s {
        VideoStatus::Completed => "completed"@,
        VideoStatus::Pending => "pending"@,
        VideoStatus::Processing => "processing"@,
        VideoStatus::Failed(m) => "failed: "@ + m@,
    }
}

/// The text a job's status is reported as.
pub fn status_text(status: VideoStatus) -> (t: String)
    ensures
        t@ == status_label(status),
{
    match status {
        VideoStatus::Completed => owned("completed"),
        VideoStatus::Pending => owned("pending"),
        VideoStatus::Processing => owned("processing"),
        VideoStatus::Failed(m) => {
            let mut t = owned("failed: ");
            push_all(&mut t, m.as_str());
            t
        },
    }
}

/// A provider offered to users, with its models.
#[derive(Clone, Debug)]
pub struct VideoProviderInfo {
    pub provider: VideoProvider,
    pub name: String,
    pub models: Vec<(String, VideoModel)>,
    pub description: String,
}

/// The models of an offer, as plain values.
pub open spec fn model_views(ms: Seq<(String, VideoModel)>) -> Seq<(Seq<char>, VideoModel)> {
    ms.map_values(|m: (String, VideoModel)| (m.0@, m.1))
}

/// An offer as plain values.
pub open spec fn info_view(i: VideoProviderInfo) -> (VideoProvider, Seq<char>, Seq<(Seq<char>, VideoModel)>, Seq<char>) {
    (i.provider, i.name@, model_views(i.models@), i.description@)
}

/// The providers offered, in order.
pub open spec fn offered_providers() -> Seq<(VideoProvider, Seq<char>, Seq<(Seq<char>, VideoModel)>, Seq<char>)> {
    seq![
        (VideoProvider::ByteDance, "字节跳动"@, seq![("即梦V2"@, VideoModel::JimengV2), ("即梦V1"@, VideoModel::JimengV1), ("豆包视频"@, VideoModel::DoubaoVideo)], "性价比最高的选择，特别适合中文内容"@),
        (VideoProvider::Alibaba, "阿里巴巴"@, seq![("通义万象"@, VideoModel::TongyiWanxiang), ("阿里VGen"@, VideoModel::AliVGen)], "稳定可靠，企业级服务"@),
        (VideoProvider::OpenRouter, "OpenRouter"@, seq![("Pika 2.0"@, VideoModel::Pika2), ("Stable Video"@, VideoModel::StableVideoDiffusion), ("Gen-2"@, VideoModel::Gen2)], "国际主流模型，英文效果更好"@),
        (VideoProvider::Baidu, "百度"@, seq![("文心视频"@, VideoModel::ErnieVideo), ("飞桨视频"@, VideoModel::PaddlePaddleVideo)], "国内老牌AI厂商，技术成熟"@),
    ]
}

/// One offer.
fn offer(provider: VideoProvider, name: &str, models: Vec<(String, VideoModel)>, description: &str) -> (i: VideoProviderInfo)
    ensures
        info_view(i) == (provider, name@, model_views(models@), description@),
{
    VideoProviderInfo { provider, name: owned(name), models, description: owned(description) }
}

/// A named model.
fn named(name: &str, model: VideoModel) -> (m: (String, VideoModel))
    ensures
        m.0@ == name@,
        m.1 == model,
{
    (owned(name), model)
}

/// The providers offered to users, with their models.
pub fn get_available_video_providers() -> (ps: Vec<VideoProviderInfo>)
    ensures
        ps@.map_values(|i: VideoProviderInfo| info_view(i)) == offered_providers(),
{
    let b = vec![named("即梦V2", VideoModel::JimengV2), named("即梦V1", VideoModel::JimengV1), named("豆包视频", VideoModel::DoubaoVideo)];
    assert(model_views(b@) =~= seq![("即梦V2"@, VideoModel::JimengV2), ("即梦V1"@, VideoModel::JimengV1), ("豆包视频"@, VideoModel::DoubaoVideo)]);
    let a = vec![named("通义万象", VideoModel::TongyiWanxiang), named("阿里VGen", VideoModel::AliVGen)];
    assert(model_views(a@) =~= seq![("通义万象"@, VideoModel::TongyiWanxiang), ("阿里VGen"@, VideoModel::AliVGen)]);
    let o = vec![named("Pika 2.0", VideoModel::Pika2), named("Stable Video", VideoModel::StableVideoDiffusion), named("Gen-2", VideoModel::Gen2)];
    assert(model_views(o@) =~= seq![("Pika 2.0"@, VideoModel::Pika2), ("Stable Video"@, VideoModel::StableVideoDiffusion), ("Gen-2"@, VideoModel::Gen2)]);
    let d = vec![named("文心视频", VideoModel::ErnieVideo), named("飞桨视频", VideoModel::PaddlePaddleVideo)];
    assert(model_views(d@) =~= seq![("文心视频"@, VideoModel::ErnieVideo), ("飞桨视频"@, VideoModel::PaddlePaddleVideo)]);
    let ps = vec![
        offer(VideoProvider::ByteDance, "字节跳动", b, "性价比最高的选择，特别适合中文内容"),
        offer(VideoProvider::Alibaba, "阿里巴巴", a, "稳定可靠，企业级服务"),
        offer(VideoProvider::OpenRouter, "OpenRouter", o, "国际主流模型，英文效果更好"),
        offer(VideoProvider::Baidu, "百度", d, "国内老牌AI厂商，技术成熟"),
    ];
    assert(ps@.map_values(|i: VideoProviderInfo| info_view(i)) =~= offered_providers());
    ps
}

/// Whether a provider's key variable is set.
#[derive(Clone, Debug)]
pub struct ProviderConfigStatus {
    pub provider: VideoProvider,
    pub name: String,
    pub is_configured: bool,
    pub env_key: String,
}

/// The providers whose key is checked: provider, variable, display name.
pub open spec fn checked_providers() -> Seq<(VideoProvider, Seq<char>, Seq<char>)> {
    seq![
        (VideoProvider::ByteDance, "BYTEDANCE_API_KEY"@, "字节跳动"@),
        (VideoProvider::Alibaba, "DASHSCOPE_API_KEY"@, "阿里巴巴"@),
        (VideoProvider::OpenRouter, "OPENROUTER_API_KEY"@, "OpenRouter"@),
        (VideoProvider::Baidu, "BAIDU_API_KEY"@, "百度"@),
        (VideoProvider::Tencent, "TENCENT_SECRET_ID"@, "腾讯"@),
    ]
}

/// Whether each provider's key variable is set in `env`.
pub fn check_video_api_configs(env: &Vec<(String, String)>) -> (ss: Vec<ProviderConfigStatus>)
    ensures
        ss@.len() == 5,
        forall|i: int|
            0 <= i < 5 ==> {
                let c = checked_providers()[i];
                &&& (#[trigger] ss@[i]).provider == c.0
                &&& ss@[i].env_key@ == c.1
                &&& ss@[i].name@ == c.2
                &&& ss@[i].is_configured == (env_lookup(env@, c.1) is Some)
            },
{
    let ss = vec![
        config_status(env, VideoProvider::ByteDance, "BYTEDANCE_API_KEY", "字节跳动"),
        config_status(env, VideoProvider::Alibaba, "DASHSCOPE_API_KEY", "阿里巴巴"),
        config_status(env, VideoProvider::OpenRouter, "OPENROUTER_API_KEY", "OpenRouter"),
        config_status(env, VideoProvider::Baidu, "BAIDU_API_KEY", "百度"),
        config_status(env, VideoProvider::Tencent, "TENCENT_SECRET_ID", "腾讯"),
    ];
    ss
}

/// Whether one provider's key variable is set.
fn config_status(env: &Vec<(String, String)>, provider: VideoProvider, env_key: &str, name: &str) -> (s: ProviderConfigStatus)
    ensures
        s.provider == provider,
        s.env_key@ == env_key@,
        s.name@ == name@,
        s.is_configured == (env_lookup(env@, env_key@) is Some),
{
    let is_configured = env_var(env, env_key).is_some();
    ProviderConfigStatus { provider, name: owned(name), is_configured, env_key: owned(env_key) }
}

/// The state of a video task.
#[derive(Clone, Debug)]
pub struct VideoTaskStatus {
    pub task_id: String,
    pub status: String,
    pub progress: u8,
    pub video_url: Option<String>,
    pub error: Option<String>,
}

/// The status of a generation task: generation finishes within the request
/// that starts it, so every task is reported completed.
pub fn get_video_generation_status(task_id: String) -> (s: VideoTaskStatus)
    ensures
        s.task_id == task_id,
        s.status@ == "completed"@,
        s.progress == 100,
        s.video_url is None,
        s.error is None,
{
    VideoTaskStatus { task_id, status: owned("completed"), progress: 100, video_url: None, error: None }
}

} // verus!
