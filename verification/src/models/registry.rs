//! The catalogue of speech-to-text models the application can download and
//! run, and the language-based recommendations drawn from it.
use vstd::prelude::*;
use crate::text::{str_eq, string_views};

verus! {

/// The engine that runs a model.
#[derive(Debug, Clone, Copy, PartialEq, Eq, Structural)]
pub enum BackendKind {
    Whisper,
    SenseVoice,
    Paraformer,
    Moonshine,
    FireRedAsr,
    ZipformerCtc,
}

/// One file of a model: where it goes, where it comes from, and its expected size.
#[derive(Debug, Clone)]
pub struct ModelFile {
    pub relative_path: String,
    pub url: String,
    pub size_bytes: u64,
    pub sha1: Option<String>,
}

/// A model of the catalogue.
#[derive(Debug, Clone)]
pub struct ModelInfo {
    pub id: String,
    pub display_name: String,
    pub description: String,
    pub backend: BackendKind,
    pub total_size_bytes: u64,
    pub size_display: String,
    pub files: Vec<ModelFile>,
    pub best_for_languages: Vec<String>,
    pub recommendation_reason: String,
}

/// A model file as plain values.
#[verifier::ext_equal]
pub struct FileView {
    pub relative_path: Seq<char>,
    pub url: Seq<char>,
    pub size_bytes: u64,
    pub sha1: Option<Seq<char>>,
}

/// A model as plain values.
#[verifier::ext_equal]
pub struct ModelView {
    pub id: Seq<char>,
    pub display_name: Seq<char>,
    pub description: Seq<char>,
    pub backend: BackendKind,
    pub total_size_bytes: u64,
    pub size_display: Seq<char>,
    pub files: Seq<FileView>,
    pub best_for_languages: Seq<Seq<char>>,
    pub recommendation_reason: Seq<char>,
}

impl View for ModelFile {
    type V = FileView;

    open spec fn view(&self) -> FileView {
        FileView {
            relative_path: self.relative_path@,
            url: self.url@,
            size_bytes: self.size_bytes,
            sha1: match self.sha1 {
                Some(h) => Some(h@),
                None => None,
            },
        }
    }
}

impl View for ModelInfo {
    type V = ModelView;

    open spec fn view(&self) -> ModelView {
        ModelView {
            id: self.id@,
            display_name: self.display_name@,
            description: self.description@,
            backend: self.backend,
            total_size_bytes: self.total_size_bytes,
            size_display: self.size_display@,
            files: self.files@.map_values(|f: ModelFile| f@),
            best_for_languages: string_views(self.best_for_languages@),
            recommendation_reason: self.recommendation_reason@,
        }
    }
}

/// A file without checksum.
pub open spec fn file_view(relative_path: Seq<char>, url: Seq<char>, size_bytes: u64) -> FileView {
    FileView { relative_path, url, size_bytes, sha1: None }
}

/// Builds a file entry without checksum.
fn model_file(relative_path: &str, url: &str, size_bytes: u64) -> (r: ModelFile)
    ensures
        r@ == file_view(relative_path@, url@, size_bytes),
{
    ModelFile {
        relative_path: String::from_str(relative_path),
        url: String::from_str(url),
        size_bytes,
        sha1: None,
    }
}

/// The registry entry `whisper-base`.
pub open spec fn spec_whisper_base() -> ModelView {
    ModelView {
        id: "whisper-base"@,
        display_name: "Whisper Base"@,
        description: "优点：OpenAI Whisper 基础模型，多语言通用，体积小、下载快\n缺点：中文与专业术语识别精度一般"@,
        backend: BackendKind::Whisper,
        total_size_bytes: 147951465,
        size_display: "142 MB"@,
        files: seq![file_view("ggml-base.bin"@, "https://huggingface.co/ggerganov/whisper.cpp/resolve/main/ggml-base.bin"@, 147951465)],
        best_for_languages: Seq::empty(),
        recommendation_reason: ""@,
    }
}

/// Builds the registry entry `whisper-base`.
fn whisper_base() -> (r: ModelInfo)
    ensures
        r@ == spec_whisper_base(),
{
    let mut files: Vec<ModelFile> = Vec::new();
    files.push(model_file("ggml-base.bin", "https://huggingface.co/ggerganov/whisper.cpp/resolve/main/ggml-base.bin", 147951465));
    let mut langs: Vec<String> = Vec::new();
    let r = ModelInfo {
        id: String::from_str("whisper-base"),
        display_name: String::from_str("Whisper Base"),
        description: String::from_str("优点：OpenAI Whisper 基础模型，多语言通用，体积小、下载快\n缺点：中文与专业术语识别精度一般"),
        backend: BackendKind::Whisper,
        total_size_bytes: 147951465,
        size_display: String::from_str("142 MB"),
        files,
        best_for_languages: langs,
        recommendation_reason: String::from_str(""),
    };
    assert(r@ =~= spec_whisper_base());
    r
}

/// The registry entry `whisper-large-v3-turbo`.
pub open spec fn spec_whisper_large_v3_turbo() -> ModelView {
    ModelView {
        id: "whisper-large-v3-turbo"@,
        display_name: "Whisper Large v3 Turbo"@,
        description: "优点：Whisper large-v3 的精简解码器版本，英文精度高且推理较快\n缺点：体积 1.5 GB，首次下载耗时长"@,
        backend: BackendKind::Whisper,
        total_size_bytes: 1624555275,
        size_display: "1.5 GB"@,
        files: seq![file_view("ggml-large-v3-turbo.bin"@, "https://huggingface.co/ggerganov/whisper.cpp/resolve/main/ggml-large-v3-turbo.bin"@, 1624555275)],
        best_for_languages: seq!["en"@],
        recommendation_reason: "英文识别精度高，兼顾速度"@,
    }
}

/// Builds the registry entry `whisper-large-v3-turbo`.
fn whisper_large_v3_turbo() -> (r: ModelInfo)
    ensures
        r@ == spec_whisper_large_v3_turbo(),
{
    let mut files: Vec<ModelFile> = Vec::new();
    files.push(model_file("ggml-large-v3-turbo.bin", "https://huggingface.co/ggerganov/whisper.cpp/resolve/main/ggml-large-v3-turbo.bin", 1624555275));
    let mut langs: Vec<String> = Vec::new();
    langs.push(String::from_str("en"));
    let r = ModelInfo {
        id: String::from_str("whisper-large-v3-turbo"),
        display_name: String::from_str("Whisper Large v3 Turbo"),
        description: String::from_str("优点：Whisper large-v3 的精简解码器版本，英文精度高且推理较快\n缺点：体积 1.5 GB，首次下载耗时长"),
        backend: BackendKind::Whisper,
        total_size_bytes: 1624555275,
        size_display: String::from_str("1.5 GB"),
        files,
        best_for_languages: langs,
        recommendation_reason: String::from_str("英文识别精度高，兼顾速度"),
    };
    assert(r@ =~= spec_whisper_large_v3_turbo());
    r
}

/// The registry entry `sensevoice-small`.
pub open spec fn spec_sensevoice_small() -> ModelView {
    ModelView {
        id: "sensevoice-small"@,
        display_name: "SenseVoice Small"@,
        description: "优点：阿里出品，中文识别精度高，推理极快，支持中英日韩粤\n缺点：不支持 initial prompt 引导，输出默认偏简体"@,
        backend: BackendKind::SenseVoice,
        total_size_bytes: 239549735,
        size_display: "228 MB"@,
        files: seq![file_view("model.int8.onnx"@, "https://huggingface.co/csukuangfj/sherpa-onnx-sense-voice-zh-en-ja-ko-yue-2024-07-17/resolve/main/model.int8.onnx"@, 239233841), file_view("tokens.txt"@, "https://huggingface.co/csukuangfj/sherpa-onnx-sense-voice-zh-en-ja-ko-yue-2024-07-17/resolve/main/tokens.txt"@, 315894)],
        best_for_languages: seq!["zh"@],
        recommendation_reason: "中文识别精度高，速度快"@,
    }
}

/// Builds the registry entry `sensevoice-small`.
fn sensevoice_small() -> (r: ModelInfo)
    ensures
        r@ == spec_sensevoice_small(),
{
    let mut files: Vec<ModelFile> = Vec::new();
    files.push(model_file("model.int8.onnx", "https://huggingface.co/csukuangfj/sherpa-onnx-sense-voice-zh-en-ja-ko-yue-2024-07-17/resolve/main/model.int8.onnx", 239233841));
    files.push(model_file("tokens.txt", "https://huggingface.co/csukuangfj/sherpa-onnx-sense-voice-zh-en-ja-ko-yue-2024-07-17/resolve/main/tokens.txt", 315894));
    let mut langs: Vec<String> = Vec::new();
    langs.push(String::from_str("zh"));
    let r = ModelInfo {
        id: String::from_str("sensevoice-small"),
        display_name: String::from_str("SenseVoice Small"),
        description: String::from_str("优点：阿里出品，中文识别精度高，推理极快，支持中英日韩粤\n缺点：不支持 initial prompt 引导，输出默认偏简体"),
        backend: BackendKind::SenseVoice,
        total_size_bytes: 239549735,
        size_display: String::from_str("228 MB"),
        files,
        best_for_languages: langs,
        recommendation_reason: String::from_str("中文识别精度高，速度快"),
    };
    assert(r@ =~= spec_sensevoice_small());
    r
}

/// The registry entry `paraformer-zh`.
pub open spec fn spec_paraformer_zh() -> ModelView {
    ModelView {
        id: "paraformer-zh"@,
        display_name: "Paraformer 中文"@,
        description: "优点：阿里出品的非自回归中文模型，推理快，中文精度高\n缺点：仅支持中文，英文术语识别较弱"@,
        backend: BackendKind::Paraformer,
        total_size_bytes: 217075000,
        size_display: "207 MB"@,
        files: seq![file_view("model.int8.onnx"@, "https://huggingface.co/csukuangfj/sherpa-onnx-paraformer-zh-2024-03-09/resolve/main/model.int8.onnx"@, 217000000), file_view("tokens.txt"@, "https://huggingface.co/csukuangfj/sherpa-onnx-paraformer-zh-2024-03-09/resolve/main/tokens.txt"@, 75000)],
        best_for_languages: seq!["zh"@],
        recommendation_reason: "中文专用，推理快"@,
    }
}

/// Builds the registry entry `paraformer-zh`.
fn paraformer_zh() -> (r: ModelInfo)
    ensures
        r@ == spec_paraformer_zh(),
{
    let mut files: Vec<ModelFile> = Vec::new();
    files.push(model_file("model.int8.onnx", "https://huggingface.co/csukuangfj/sherpa-onnx-paraformer-zh-2024-03-09/resolve/main/model.int8.onnx", 217000000));
    files.push(model_file("tokens.txt", "https://huggingface.co/csukuangfj/sherpa-onnx-paraformer-zh-2024-03-09/resolve/main/tokens.txt", 75000));
    let mut langs: Vec<String> = Vec::new();
    langs.push(String::from_str("zh"));
    let r = ModelInfo {
        id: String::from_str("paraformer-zh"),
        display_name: String::from_str("Paraformer 中文"),
        description: String::from_str("优点：阿里出品的非自回归中文模型，推理快，中文精度高\n缺点：仅支持中文，英文术语识别较弱"),
        backend: BackendKind::Paraformer,
        total_size_bytes: 217075000,
        size_display: String::from_str("207 MB"),
        files,
        best_for_languages: langs,
        recommendation_reason: String::from_str("中文专用，推理快"),
    };
    assert(r@ =~= spec_paraformer_zh());
    r
}

/// The registry entry `paraformer-trilingual`.
pub open spec fn spec_paraformer_trilingual() -> ModelView {
    ModelView {
        id: "paraformer-trilingual"@,
        display_name: "Paraformer 中英粤"@,
        description: "优点：支持中英粤 3 语言，中英代码切换无障碍，阿里出品，推理快\n缺点：体积比 Paraformer 中文版大 15%，纯中文场景精度与其接近，无优势"@,
        backend: BackendKind::Paraformer,
        total_size_bytes: 245119000,
        size_display: "234 MB"@,
        files: seq![file_view("model.int8.onnx"@, "https://huggingface.co/csukuangfj/sherpa-onnx-paraformer-trilingual-zh-cantonese-en/resolve/main/model.int8.onnx"@, 245000000), file_view("tokens.txt"@, "https://huggingface.co/csukuangfj/sherpa-onnx-paraformer-trilingual-zh-cantonese-en/resolve/main/tokens.txt"@, 119000)],
        best_for_languages: seq!["yue"@],
        recommendation_reason: "粤语识别唯一可用模型，同时支持中英混合"@,
    }
}

/// Builds the registry entry `paraformer-trilingual`.
fn paraformer_trilingual() -> (r: ModelInfo)
    ensures
        r@ == spec_paraformer_trilingual(),
{
    let mut files: Vec<ModelFile> = Vec::new();
    files.push(model_file("model.int8.onnx", "https://huggingface.co/csukuangfj/sherpa-onnx-paraformer-trilingual-zh-cantonese-en/resolve/main/model.int8.onnx", 245000000));
    files.push(model_file("tokens.txt", "https://huggingface.co/csukuangfj/sherpa-onnx-paraformer-trilingual-zh-cantonese-en/resolve/main/tokens.txt", 119000));
    let mut langs: Vec<String> = Vec::new();
    langs.push(String::from_str("yue"));
    let r = ModelInfo {
        id: String::from_str("paraformer-trilingual"),
        display_name: String::from_str("Paraformer 中英粤"),
        description: String::from_str("优点：支持中英粤 3 语言，中英代码切换无障碍，阿里出品，推理快\n缺点：体积比 Paraformer 中文版大 15%，纯中文场景精度与其接近，无优势"),
        backend: BackendKind::Paraformer,
        total_size_bytes: 245119000,
        size_display: String::from_str("234 MB"),
        files,
        best_for_languages: langs,
        recommendation_reason: String::from_str("粤语识别唯一可用模型，同时支持中英混合"),
    };
    assert(r@ =~= spec_paraformer_trilingual());
    r
}

/// The registry entry `fire-red-asr-v1`.
pub open spec fn spec_fire_red_asr_v1() -> ModelView {
    ModelView {
        id: "fire-red-asr-v1"@,
        display_name: "FireRedASR Large v1"@,
        description: "优点：小红书开源的中文 ASR SOTA，AED 架构精度极高，中文 CER 逼近 2%\n缺点：体积 1.74 GB 极大，首次下载耗时长，推理速度不如非自回归模型"@,
        backend: BackendKind::FireRedAsr,
        total_size_bytes: 1735071400,
        size_display: "1.74 GB"@,
        files: seq![file_view("encoder.int8.onnx"@, "https://huggingface.co/csukuangfj/sherpa-onnx-fire-red-asr-large-zh_en-2025-02-16/resolve/main/encoder.int8.onnx"@, 1290000000), file_view("decoder.int8.onnx"@, "https://huggingface.co/csukuangfj/sherpa-onnx-fire-red-asr-large-zh_en-2025-02-16/resolve/main/decoder.int8.onnx"@, 445000000), file_view("tokens.txt"@, "https://huggingface.co/csukuangfj/sherpa-onnx-fire-red-asr-large-zh_en-2025-02-16/resolve/main/tokens.txt"@, 71400)],
        best_for_languages: Seq::empty(),
        recommendation_reason: ""@,
    }
}

/// Builds the registry entry `fire-red-asr-v1`.
fn fire_red_asr_v1() -> (r: ModelInfo)
    ensures
        r@ == spec_fire_red_asr_v1(),
{
    let mut files: Vec<ModelFile> = Vec::new();
    files.push(model_file("encoder.int8.onnx", "https://huggingface.co/csukuangfj/sherpa-onnx-fire-red-asr-large-zh_en-2025-02-16/resolve/main/encoder.int8.onnx", 1290000000));
    files.push(model_file("decoder.int8.onnx", "https://huggingface.co/csukuangfj/sherpa-onnx-fire-red-asr-large-zh_en-2025-02-16/resolve/main/decoder.int8.onnx", 445000000));
    files.push(model_file("tokens.txt", "https://huggingface.co/csukuangfj/sherpa-onnx-fire-red-asr-large-zh_en-2025-02-16/resolve/main/tokens.txt", 71400));
    let mut langs: Vec<String> = Vec::new();
    let r = ModelInfo {
        id: String::from_str("fire-red-asr-v1"),
        display_name: String::from_str("FireRedASR Large v1"),
        description: String::from_str("优点：小红书开源的中文 ASR SOTA，AED 架构精度极高，中文 CER 逼近 2%\n缺点：体积 1.74 GB 极大，首次下载耗时长，推理速度不如非自回归模型"),
        backend: BackendKind::FireRedAsr,
        total_size_bytes: 1735071400,
        size_display: String::from_str("1.74 GB"),
        files,
        best_for_languages: langs,
        recommendation_reason: String::from_str(""),
    };
    assert(r@ =~= spec_fire_red_asr_v1());
    r
}

/// The registry entry `moonshine-base-en`.
pub open spec fn spec_moonshine_base_en() -> ModelView {
    ModelView {
        id: "moonshine-base-en"@,
        display_name: "Moonshine Base (English)"@,
        description: "优点：专为英文实时转写设计，体积小、延迟低\n缺点：仅支持英文"@,
        backend: BackendKind::Moonshine,
        total_size_bytes: 286915644,
        size_display: "274 MB"@,
        files: seq![file_view("preprocess.onnx"@, "https://huggingface.co/csukuangfj/sherpa-onnx-moonshine-base-en-int8/resolve/main/preprocess.onnx"@, 14077290), file_view("encode.int8.onnx"@, "https://huggingface.co/csukuangfj/sherpa-onnx-moonshine-base-en-int8/resolve/main/encode.int8.onnx"@, 50281354), file_view("uncached_decode.int8.onnx"@, "https://huggingface.co/csukuangfj/sherpa-onnx-moonshine-base-en-int8/resolve/main/uncached_decode.int8.onnx"@, 122120000), file_view("cached_decode.int8.onnx"@, "https://huggingface.co/csukuangfj/sherpa-onnx-moonshine-base-en-int8/resolve/main/cached_decode.int8.onnx"@, 100001000), file_view("tokens.txt"@, "https://huggingface.co/csukuangfj/sherpa-onnx-moonshine-base-en-int8/resolve/main/tokens.txt"@, 436000)],
        best_for_languages: seq!["en"@],
        recommendation_reason: "英文专用，体积小、延迟低"@,
    }
}

/// Builds the registry entry `moonshine-base-en`.
fn moonshine_base_en() -> (r: ModelInfo)
    ensures
        r@ == spec_moonshine_base_en(),
{
    let mut files: Vec<ModelFile> = Vec::new();
    files.push(model_file("preprocess.onnx", "https://huggingface.co/csukuangfj/sherpa-onnx-moonshine-base-en-int8/resolve/main/preprocess.onnx", 14077290));
    files.push(model_file("encode.int8.onnx", "https://huggingface.co/csukuangfj/sherpa-onnx-moonshine-base-en-int8/resolve/main/encode.int8.onnx", 50281354));
    files.push(model_file("uncached_decode.int8.onnx", "https://huggingface.co/csukuangfj/sherpa-onnx-moonshine-base-en-int8/resolve/main/uncached_decode.int8.onnx", 122120000));
    files.push(model_file("cached_decode.int8.onnx", "https://huggingface.co/csukuangfj/sherpa-onnx-moonshine-base-en-int8/resolve/main/cached_decode.int8.onnx", 100001000));
    files.push(model_file("tokens.txt", "https://huggingface.co/csukuangfj/sherpa-onnx-moonshine-base-en-int8/resolve/main/tokens.txt", 436000));
    let mut langs: Vec<String> = Vec::new();
    langs.push(String::from_str("en"));
    let r = ModelInfo {
        id: String::from_str("moonshine-base-en"),
        display_name: String::from_str("Moonshine Base (English)"),
        description: String::from_str("优点：专为英文实时转写设计，体积小、延迟低\n缺点：仅支持英文"),
        backend: BackendKind::Moonshine,
        total_size_bytes: 286915644,
        size_display: String::from_str("274 MB"),
        files,
        best_for_languages: langs,
        recommendation_reason: String::from_str("英文专用，体积小、延迟低"),
    };
    assert(r@ =~= spec_moonshine_base_en());
    r
}

/// The registry entry `zipformer-ctc-zh`.
pub open spec fn spec_zipformer_ctc_zh() -> ModelView {
    ModelView {
        id: "zipformer-ctc-zh"@,
        display_name: "Zipformer 中文 CTC"@,
        description: "优点：新一代 Kaldi 架构，离线中文专用，体积适中且推理快\n缺点：仅支持中文，精度略低于 SenseVoice / FireRedASR，作为轻量备选"@,
        backend: BackendKind::ZipformerCtc,
        total_size_bytes: 367013400,
        size_display: "350 MB"@,
        files: seq![file_view("model.int8.onnx"@, "https://huggingface.co/csukuangfj/sherpa-onnx-zipformer-ctc-zh-int8-2025-07-03/resolve/main/model.int8.onnx"@, 367000000), file_view("tokens.txt"@, "https://huggingface.co/csukuangfj/sherpa-onnx-zipformer-ctc-zh-int8-2025-07-03/resolve/main/tokens.txt"@, 13400)],
        best_for_languages: Seq::empty(),
        recommendation_reason: ""@,
    }
}

/// Builds the registry entry `zipformer-ctc-zh`.
fn zipformer_ctc_zh() -> (r: ModelInfo)
    ensures
        r@ == spec_zipformer_ctc_zh(),
{
    let mut files: Vec<ModelFile> = Vec::new();
    files.push(model_file("model.int8.onnx", "https://huggingface.co/csukuangfj/sherpa-onnx-zipformer-ctc-zh-int8-2025-07-03/resolve/main/model.int8.onnx", 367000000));
    files.push(model_file("tokens.txt", "https://huggingface.co/csukuangfj/sherpa-onnx-zipformer-ctc-zh-int8-2025-07-03/resolve/main/tokens.txt", 13400));
    let mut langs: Vec<String> = Vec::new();
    let r = ModelInfo {
        id: String::from_str("zipformer-ctc-zh"),
        display_name: String::from_str("Zipformer 中文 CTC"),
        description: String::from_str("优点：新一代 Kaldi 架构，离线中文专用，体积适中且推理快\n缺点：仅支持中文，精度略低于 SenseVoice / FireRedASR，作为轻量备选"),
        backend: BackendKind::ZipformerCtc,
        total_size_bytes: 367013400,
        size_display: String::from_str("350 MB"),
        files,
        best_for_languages: langs,
        recommendation_reason: String::from_str(""),
    };
    assert(r@ =~= spec_zipformer_ctc_zh());
    r
}


/// The catalogue, in display order.
pub open spec fn registry() -> Seq<ModelView> {
    seq![
        spec_whisper_base(),
        spec_whisper_large_v3_turbo(),
        spec_sensevoice_small(),
        spec_paraformer_zh(),
        spec_paraformer_trilingual(),
        spec_fire_red_asr_v1(),
        spec_moonshine_base_en(),
        spec_zipformer_ctc_zh(),
    ]
}

/// The views of a list of models.
pub open spec fn model_views(v: Seq<ModelInfo>) -> Seq<ModelView> {
    v.map_values(|m: ModelInfo| m@)
}

/// Every model of the catalogue, in display order.
pub fn all_models() -> (r: Vec<ModelInfo>)
    ensures
        model_views(r@) == registry(),
{
    let mut v: Vec<ModelInfo> = Vec::new();
    v.push(whisper_base());
    v.push(whisper_large_v3_turbo());
    v.push(sensevoice_small());
    v.push(paraformer_zh());
    v.push(paraformer_trilingual());
    v.push(fire_red_asr_v1());
    v.push(moonshine_base_en());
    v.push(zipformer_ctc_zh());
    assert(model_views(v@) =~= registry());
    v
}

/// The first model of `models` whose id is `id`.
pub open spec fn find_model(models: Seq<ModelView>, id: Seq<char>) -> Option<ModelView>
    decreases models.len(),
{
    if models.len() == 0 {
        None
    } else if models[0].id == id {
        Some(models[0])
    } else {
        find_model(models.drop_first(), id)
    }
}

/// The view of an optional model.
pub open spec fn opt_model_view(m: Option<ModelInfo>) -> Option<ModelView> {
    match m {
        Some(x) => Some(x@),
        None => None,
    }
}

/// The catalogue entry with the given id, if there is one.
pub fn get_model(id: &str) -> (r: Option<ModelInfo>)
    ensures
        opt_model_view(r) == find_model(registry(), id@),
{
    let mut models = all_models();
    let ghost reg = registry();
    let mut k: usize = 0;
    assert(reg.subrange(0, reg.len() as int) =~= reg);
    while models.len() > 0
        invariant
            model_views(models@) == reg.subrange(k as int, reg.len() as int),
            reg == registry(),
            k <= reg.len(),
            find_model(reg, id@) == find_model(reg.subrange(k as int, reg.len() as int), id@),
        decreases models.len(),
    {
        let m = models.remove(0);
        let ghost rest = reg.subrange(k as int, reg.len() as int);
        assert(rest[0] == m@);
        assert(rest.drop_first() =~= reg.subrange(k + 1, reg.len() as int));
        assert(model_views(models@) =~= rest.drop_first());
        if str_eq(m.id.as_str(), id) {
            return Some(m);
        }
        k = k + 1;
    }
    assert(reg.subrange(k as int, reg.len() as int).len() == 0);
    None
}

/// Whether `m` is recommended for the language code `lang`.
pub open spec fn recommended_for(m: ModelView, lang: Seq<char>) -> bool {
    m.best_for_languages.contains(lang)
}

/// The models of `models` recommended for `lang`, in order.
pub open spec fn recommended(models: Seq<ModelView>, lang: Seq<char>) -> Seq<ModelView>
    decreases models.len(),
{
    if models.len() == 0 {
        Seq::empty()
    } else {
        recommended(models.drop_last(), lang) + (if recommended_for(models.last(), lang) {
            seq![models.last()]
        } else {
            Seq::empty()
        })
    }
}

/// The language code the catalogue is keyed by: both written variants of
/// Chinese count as `zh`.
pub open spec fn lookup_language(language: Seq<char>) -> Seq<char> {
    if language == "zh-CN"@ || language == "zh-TW"@ {
        "zh"@
    } else {
        language
    }
}

/// Whether `list` holds `item`.
fn list_contains(list: &Vec<String>, item: &str) -> (r: bool)
    ensures
        r == string_views(list@).contains(item@),
{
    let ghost views = string_views(list@);
    let mut i: usize = 0;
    while i < list.len()
        invariant
            views == string_views(list@),
            i <= list@.len(),
            forall|k: int| 0 <= k < i ==> views[k] != item@,
        decreases list@.len() - i,
    {
        if str_eq(list[i].as_str(), item) {
            assert(views[i as int] == item@);
            return true;
        }
        i = i + 1;
    }
    false
}

/// The catalogue code for `language` (`zh-CN` and `zh-TW` become `zh`).
fn lookup_language_code(language: &str) -> (r: &str)
    ensures
        r@ == lookup_language(language@),
{
    if str_eq(language, "zh-CN") || str_eq(language, "zh-TW") {
        "zh"
    } else {
        language
    }
}

/// The models recommended for a language, in catalogue order.
pub fn recommended_models_for_language(language: &str) -> (r: Vec<ModelInfo>)
    ensures
        model_views(r@) == recommended(registry(), lookup_language(language@)),
{
    let lang = lookup_language_code(language);
    let mut models = all_models();
    let ghost reg = registry();
    let mut out: Vec<ModelInfo> = Vec::new();
    let mut k: usize = 0;
    while models.len() > 0
        invariant
            model_views(models@) == reg.subrange(k as int, reg.len() as int),
            reg == registry(),
            k <= reg.len(),
            model_views(out@) == recommended(reg.take(k as int), lang@),
        decreases models.len(),
    {
        let m = models.remove(0);
        let ghost rest = reg.subrange(k as int, reg.len() as int);
        assert(rest[0] == m@);
        assert(rest.drop_first() =~= reg.subrange(k + 1, reg.len() as int));
        assert(model_views(models@) =~= rest.drop_first());
        assert(reg.take(k + 1).drop_last() =~= reg.take(k as int));
        assert(reg.take(k + 1).last() == m@);
        if list_contains(&m.best_for_languages, lang) {
            out.push(m);
            assert(model_views(out@) =~= recommended(reg.take(k + 1), lang@));
        } else {
            assert(model_views(out@) =~= recommended(reg.take(k + 1), lang@));
        }
        k = k + 1;
    }
    assert(reg.take(k as int) =~= reg);
    out
}

/// A suggestion: id, display name and recommendation reason of a model.
pub open spec fn suggestion_view(m: ModelView) -> (Seq<char>, Seq<char>, Seq<char>) {
    (m.id, m.display_name, m.recommendation_reason)
}

/// Whether some model of `models` has the id `id`.
pub open spec fn has_id(models: Seq<ModelView>, id: Seq<char>) -> bool {
    exists|i: int| 0 <= i < models.len() && #[trigger] models[i].id == id
}

/// What to suggest to a user of `current` transcribing `language`: nothing
/// when no model is recommended for the language or `current` is one of
/// them, otherwise the recommended models.
pub open spec fn suggestion(current: Seq<char>, language: Seq<char>) -> Option<Seq<(Seq<char>, Seq<char>, Seq<char>)>> {
    let recs = recommended(registry(), lookup_language(language));
    if recs.len() == 0 || has_id(recs, current) {
        None
    } else {
        Some(recs.map_values(|m: ModelView| suggestion_view(m)))
    }
}

/// The views of a list of suggestions.
pub open spec fn suggestion_views(v: Seq<(String, String, String)>) -> Seq<(Seq<char>, Seq<char>, Seq<char>)> {
    v.map_values(|t: (String, String, String)| (t.0@, t.1@, t.2@))
}

/// Suggest switching models when the current one is not among those
/// recommended for the language: `(id, display name, reason)` of each
/// recommended model, or `None` when there is nothing to suggest.
pub fn suggest_model_switch(current_model_id: &str, language: &str) -> (r: Option<Vec<(String, String, String)>>)
    ensures
        match r {
            Some(v) => suggestion(current_model_id@, language@) == Some(suggestion_views(v@)),
            None => suggestion(current_model_id@, language@) is None,
        },
{
    let recs = recommended_models_for_language(language);
    let ghost rv = model_views(recs@);
    if recs.len() == 0 {
        return None;
    }
    let mut out: Vec<(String, String, String)> = Vec::new();
    let mut i: usize = 0;
    while i < recs.len()
        invariant
            rv == model_views(recs@),
            rv == recommended(registry(), lookup_language(language@)),
            i <= recs@.len(),
            forall|k: int| 0 <= k < i ==> rv[k].id != current_model_id@,
            suggestion_views(out@) == rv.take(i as int).map_values(|m: ModelView| suggestion_view(m)),
        decreases recs@.len() - i,
    {
        let m = &recs[i];
        if str_eq(m.id.as_str(), current_model_id) {
            assert(rv[i as int].id == current_model_id@);
            assert(has_id(rv, current_model_id@));
            return None;
        }
        let t = (m.id.clone(), m.display_name.clone(), m.recommendation_reason.clone());
        assert(rv[i as int] == recs@[i as int]@);
        assert((t.0@, t.1@, t.2@) == suggestion_view(rv[i as int]));
        let ghost before = out@;
        out.push(t);
        assert(out@ == before.push(t));
        assert(rv.take(i + 1) =~= rv.take(i as int).push(rv[i as int]));
        assert(suggestion_views(out@) =~= suggestion_views(before).push((t.0@, t.1@, t.2@)));
        assert(rv.take(i + 1).map_values(|m: ModelView| suggestion_view(m)) =~= rv.take(i as int).map_values(
            |m: ModelView| suggestion_view(m),
        ).push(suggestion_view(rv[i as int])));
        assert(suggestion_views(out@) =~= rv.take(i + 1).map_values(|m: ModelView| suggestion_view(m)));
        i = i + 1;
    }
    assert(rv.take(i as int) =~= rv);
    assert(!has_id(rv, current_model_id@));
    Some(out)
}

/// A catalogue entry as the settings screen shows it.
#[derive(Debug, Clone)]
pub struct ModelInfoDto {
    pub id: String,
    pub display_name: String,
    pub description: String,
    pub backend: BackendKind,
    pub total_size_bytes: u64,
    pub size_display: String,
    pub best_for_languages: Vec<String>,
    pub is_downloaded: bool,
    pub is_active: bool,
}

/// Whether `d` shows the catalogue entry `m` with the given flags.
pub open spec fn shows(d: ModelInfoDto, m: ModelView, is_downloaded: bool, is_active: bool) -> bool {
    &&& d.id@ == m.id
    &&& d.display_name@ == m.display_name
    &&& d.description@ == m.description
    &&& d.backend == m.backend
    &&& d.total_size_bytes == m.total_size_bytes
    &&& d.size_display@ == m.size_display
    &&& string_views(d.best_for_languages@) == m.best_for_languages
    &&& d.is_downloaded == is_downloaded
    &&& d.is_active == is_active
}

/// Whether the `i`-th model is marked downloaded (entries past the end count as not downloaded).
pub open spec fn flag_at(downloaded: Seq<bool>, i: int) -> bool {
    0 <= i < downloaded.len() && downloaded[i]
}

/// No two catalogue entries share an id.
pub proof fn lemma_registry_ids_distinct()
    ensures
        forall|i: int, j: int| 0 <= i < j < registry().len() ==> registry()[i].id != registry()[j].id,
{
    reveal_strlit("whisper-base");
    reveal_strlit("whisper-large-v3-turbo");
    reveal_strlit("sensevoice-small");
    reveal_strlit("paraformer-zh");
    reveal_strlit("paraformer-trilingual");
    reveal_strlit("fire-red-asr-v1");
    reveal_strlit("moonshine-base-en");
    reveal_strlit("zipformer-ctc-zh");
    let r = registry();
    assert(r[0].id.len() == 12);
    assert(r[1].id.len() == 22);
    assert(r[2].id.len() == 16 && r[2].id[0] == 's');
    assert(r[3].id.len() == 13);
    assert(r[4].id.len() == 21);
    assert(r[5].id.len() == 15);
    assert(r[6].id.len() == 17);
    assert(r[7].id.len() == 16 && r[7].id[0] == 'z');
}

/// The settings screen marks at most one model active, and exactly one when
/// the active id names a catalogue entry.
pub proof fn law_one_active_model(listing: Seq<ModelInfoDto>, active: Seq<char>, downloaded: Seq<bool>)
    requires
        listing.len() == registry().len(),
        forall|i: int| 0 <= i < listing.len() ==> shows(#[trigger] listing[i], registry()[i],
            flag_at(downloaded, i), registry()[i].id == active),
    ensures
        forall|i: int, j: int| 0 <= i < listing.len() && 0 <= j < listing.len()
            && listing[i].is_active && listing[j].is_active ==> i == j,
        has_id(registry(), active) ==> exists|i: int| 0 <= i < listing.len() && #[trigger] listing[i].is_active,
{
    lemma_registry_ids_distinct();
    assert forall|i: int, j: int| 0 <= i < listing.len() && 0 <= j < listing.len()
        && listing[i].is_active && listing[j].is_active implies i == j by {
        assert(shows(listing[i], registry()[i], flag_at(downloaded, i), registry()[i].id == active));
        assert(shows(listing[j], registry()[j], flag_at(downloaded, j), registry()[j].id == active));
        if i < j {
            assert(registry()[i].id != registry()[j].id);
        } else if j < i {
            assert(registry()[j].id != registry()[i].id);
        }
    }
    if has_id(registry(), active) {
        let i = choose|i: int| 0 <= i < registry().len() && #[trigger] registry()[i].id == active;
        assert(shows(listing[i], registry()[i], flag_at(downloaded, i), registry()[i].id == active));
    }
}

/// Every model recommended for a language lists that language among its best languages.
pub proof fn law_recommended_models_fit_language(models: Seq<ModelView>, lang: Seq<char>)
    ensures
        forall|i: int| 0 <= i < recommended(models, lang).len() ==>
            recommended_for(#[trigger] recommended(models, lang)[i], lang),
    decreases models.len(),
{
    if models.len() > 0 {
        law_recommended_models_fit_language(models.drop_last(), lang);
        let prev = recommended(models.drop_last(), lang);
        assert forall|i: int| 0 <= i < recommended(models, lang).len() implies
            recommended_for(#[trigger] recommended(models, lang)[i], lang) by {
            if i < prev.len() {
                assert(recommended(models, lang)[i] == prev[i]);
            }
        }
    }
}

/// Both written variants of Chinese get the same recommendations and
/// suggestions as the plain `zh` code.
pub proof fn law_chinese_variants_recommend_alike(current: Seq<char>)
    ensures
        recommended(registry(), lookup_language("zh-CN"@)) == recommended(registry(), lookup_language("zh"@)),
        recommended(registry(), lookup_language("zh-TW"@)) == recommended(registry(), lookup_language("zh"@)),
        suggestion(current, "zh-CN"@) == suggestion(current, "zh"@),
        suggestion(current, "zh-TW"@) == suggestion(current, "zh"@),
{
    reveal_strlit("zh");
    reveal_strlit("zh-CN");
    reveal_strlit("zh-TW");
    assert("zh"@.len() == 2 && "zh-CN"@.len() == 5 && "zh-TW"@.len() == 5);
}

/// A suggestion is made exactly when some model is recommended for the
/// language and the current model is not one of them, and it then lists
/// every recommended model, in catalogue order, by id, display name and reason.
pub proof fn law_suggests_recommended_when_current_is_not(current: Seq<char>, language: Seq<char>)
    ensures
        ({
            let recs = recommended(registry(), lookup_language(language));
            &&& recs.len() > 0 && !has_id(recs, current) ==> suggestion(current, language)
                == Some(recs.map_values(|m: ModelView| suggestion_view(m)))
            &&& has_id(recs, current) ==> suggestion(current, language) is None
            &&& (suggestion(current, language) matches Some(v) ==> v.len() == recs.len()
                && forall|i: int| 0 <= i < v.len() ==> (#[trigger] v[i]) == (recs[i].id,
                    recs[i].display_name, recs[i].recommendation_reason))
        }),
{
}

/// A suggestion never names the model already in use, and there is none
/// when nothing is recommended for the language.
pub proof fn law_suggestion_excludes_current(current: Seq<char>, language: Seq<char>)
    ensures
        recommended(registry(), lookup_language(language)).len() == 0 ==> suggestion(current, language) is None,
        suggestion(current, language) matches Some(v) ==> v.len() > 0
            && forall|i: int| 0 <= i < v.len() ==> (#[trigger] v[i]).0 != current,
{
    let recs = recommended(registry(), lookup_language(language));
    if let Some(v) = suggestion(current, language) {
        assert forall|i: int| 0 <= i < v.len() implies (#[trigger] v[i]).0 != current by {
            assert(v[i].0 == recs[i].id);
            if recs[i].id == current {
                assert(has_id(recs, current));
            }
        }
    }
}

} // verus!
