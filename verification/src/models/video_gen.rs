//! Video generation options shared by the request builder and the form.
use vstd::prelude::*;

verus! {

/// Video generation providers
#[derive(Clone, Copy, Debug, PartialEq, Eq, Hash, Structural)]
pub enum VideoProvider {
    OpenRouter,
    Together,
    Replicate,
    HuggingFace,
    ByteDance,
    Alibaba,
    Baidu,
    Tencent,
}

/// Video generation models
#[derive(Clone, Copy, Debug, PartialEq, Eq, Hash, Structural)]
pub enum VideoModel {
    Pika2,
    Gen2,
    StableVideoDiffusion,
    OpenRouterPro,
    StableVideo,
    OpenSora,
    Zeroscope,
    StableVideoTurbo,
    JimengV1,
    JimengV2,
    DoubaoVideo,
    TongyiWanxiang,
    AliVGen,
    ErnieVideo,
    PaddlePaddleVideo,
    HunyuanVideo,
}

/// The price of a second of video made by `model` at `quality`, in
/// thousandths of a US dollar.
pub open spec fn cost_millis(model: VideoModel, quality: VideoQuality) -> u32 {
    match (model, quality) {
        (VideoModel::StableVideoDiffusion, VideoQuality::Standard) => 10,
        (VideoModel::StableVideoDiffusion, VideoQuality::HD) => 20,
        (VideoModel::StableVideoDiffusion, VideoQuality::Premium) => 30,
        (VideoModel::Pika2, VideoQuality::Standard) => 20,
        (VideoModel::Pika2, VideoQuality::HD) => 30,
        (VideoModel::Pika2, VideoQuality::Premium) => 50,
        (VideoModel::Gen2, VideoQuality::Standard) => 30,
        (VideoModel::Gen2, VideoQuality::HD) => 40,
        (VideoModel::Gen2, VideoQuality::Premium) => 60,
        (VideoModel::OpenRouterPro, VideoQuality::Standard) => 30,
        (VideoModel::OpenRouterPro, VideoQuality::HD) => 40,
        (VideoModel::OpenRouterPro, VideoQuality::Premium) => 50,
        (VideoModel::StableVideo, _) => 15,
        (VideoModel::OpenSora, _) => 20,
        (VideoModel::Zeroscope, _) => 25,
        (VideoModel::StableVideoTurbo, _) => 10,
        (VideoModel::JimengV1, VideoQuality::Standard) => 7,
        (VideoModel::JimengV1, VideoQuality::HD) => 14,
        (VideoModel::JimengV1, VideoQuality::Premium) => 28,
        (VideoModel::JimengV2, VideoQuality::Standard) => 10,
        (VideoModel::JimengV2, VideoQuality::HD) => 21,
        (VideoModel::JimengV2, VideoQuality::Premium) => 35,
        (VideoModel::DoubaoVideo, _) => 17,
        (VideoModel::TongyiWanxiang, VideoQuality::Standard) => 8,
        (VideoModel::TongyiWanxiang, VideoQuality::HD) => 14,
        (VideoModel::TongyiWanxiang, VideoQuality::Premium) => 21,
        (VideoModel::AliVGen, VideoQuality::Premium) => 30,
        (VideoModel::AliVGen, _) => 20,
        (VideoModel::ErnieVideo, VideoQuality::Standard) => 9,
        (VideoModel::ErnieVideo, VideoQuality::HD) => 15,
        (VideoModel::ErnieVideo, VideoQuality::Premium) => 22,
        (VideoModel::PaddlePaddleVideo, _) => 5,
        (VideoModel::HunyuanVideo, VideoQuality::Standard) => 12,
        (VideoModel::HunyuanVideo, VideoQuality::HD) => 19,
        (VideoModel::HunyuanVideo, VideoQuality::Premium) => 25,
    }
}

impl VideoModel {
    /// The cost per second of video at a quality, in thousandths of a US
    /// dollar: 10 is one cent a second.
    pub fn get_cost_per_second(&self, quality: &VideoQuality) -> (c: u32)
        ensures
            c == cost_millis(*self, *quality),
    {
        match (*self, *quality) {
            (VideoModel::StableVideoDiffusion, VideoQuality::Standard) => 10,
            (VideoModel::StableVideoDiffusion, VideoQuality::HD) => 20,
            (VideoModel::StableVideoDiffusion, VideoQuality::Premium) => 30,
            (VideoModel::Pika2, VideoQuality::Standard) => 20,
            (VideoModel::Pika2, VideoQuality::HD) => 30,
            (VideoModel::Pika2, VideoQuality::Premium) => 50,
            (VideoModel::Gen2, VideoQuality::Standard) => 30,
            (VideoModel::Gen2, VideoQuality::HD) => 40,
            (VideoModel::Gen2, VideoQuality::Premium) => 60,
            (VideoModel::OpenRouterPro, VideoQuality::Standard) => 30,
            (VideoModel::OpenRouterPro, VideoQuality::HD) => 40,
            (VideoModel::OpenRouterPro, VideoQuality::Premium) => 50,
            (VideoModel::StableVideo, _) => 15,
            (VideoModel::OpenSora, _) => 20,
            (VideoModel::Zeroscope, _) => 25,
            (VideoModel::StableVideoTurbo, _) => 10,
            (VideoModel::JimengV1, VideoQuality::Standard) => 7,
            (VideoModel::JimengV1, VideoQuality::HD) => 14,
            (VideoModel::JimengV1, VideoQuality::Premium) => 28,
            (VideoModel::JimengV2, VideoQuality::Standard) => 10,
            (VideoModel::JimengV2, VideoQuality::HD) => 21,
            (VideoModel::JimengV2, VideoQuality::Premium) => 35,
            (VideoModel::DoubaoVideo, _) => 17,
            (VideoModel::TongyiWanxiang, VideoQuality::Standard) => 8,
            (VideoModel::TongyiWanxiang, VideoQuality::HD) => 14,
            (VideoModel::TongyiWanxiang, VideoQuality::Premium) => 21,
            (VideoModel::AliVGen, VideoQuality::Premium) => 30,
            (VideoModel::AliVGen, _) => 20,
            (VideoModel::ErnieVideo, VideoQuality::Standard) => 9,
            (VideoModel::ErnieVideo, VideoQuality::HD) => 15,
            (VideoModel::ErnieVideo, VideoQuality::Premium) => 22,
            (VideoModel::PaddlePaddleVideo, _) => 5,
            (VideoModel::HunyuanVideo, VideoQuality::Standard) => 12,
            (VideoModel::HunyuanVideo, VideoQuality::HD) => 19,
            (VideoModel::HunyuanVideo, VideoQuality::Premium) => 25,
        }
    }
}

/// Video quality settings
#[derive(Clone, Copy, Debug, PartialEq, Eq, Hash, Structural)]
pub enum VideoQuality {
    /// 480p
    Standard,
    /// 720p
    HD,
    /// 1080p and above
    Premium,
}

impl Default for VideoQuality {
    fn default() -> (q: Self)
        ensures
            q == VideoQuality::HD,
    {
        VideoQuality::HD
    }
}

/// Size, length, frame rate, quality and style of a video.
#[derive(Clone, Debug)]
pub struct VideoConfig {
    pub width: u32,
    pub height: u32,
    pub duration_seconds: u32,
    pub fps: u8,
    pub quality: VideoQuality,
    pub style: Option<String>,
}

impl Default for VideoConfig {
    fn default() -> (c: Self)
        ensures
            c.width == 1024,
            c.height == 576,
            c.duration_seconds == 5,
            c.fps == 24,
            c.quality == VideoQuality::HD,
            c.style is None,
    {
        VideoConfig {
            width: 1024,
            height: 576,
            duration_seconds: 5,
            fps: 24,
            quality: VideoQuality::HD,
            style: None,
        }
    }
}

} // verus!
