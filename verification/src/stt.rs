//! Decisions of the speech-to-text engines that do not depend on the engines
//! themselves: which language code each engine is given, which guiding prompt
//! Whisper starts from, how segments become the transcript, and the checks
//! made before a model is loaded or run.
use vstd::prelude::*;
use crate::errors::AppError;
use crate::text::{str_eq, trim_str, trimmed};

verus! {

/// Prompt that steers Whisper towards Simplified Chinese characters.
pub const SIMPLIFIED_PROMPT: &'static str = "以下是普通话的句子。";

/// Prompt that steers Whisper towards Traditional Chinese characters.
pub const TRADITIONAL_PROMPT: &'static str = "以下是國語的句子。";

/// The code an engine is given for `code`: both written variants of Chinese become `zh`.
pub open spec fn stt_language(code: Seq<char>) -> Seq<char> {
    if code == "zh-CN"@ || code == "zh-TW"@ {
        "zh"@
    } else {
        code
    }
}

/// Fold the settings' language code to the code the engines accept.
pub fn language_to_stt_lang(code: &str) -> (r: &str)
    ensures
        r@ == stt_language(code@),
{
    if str_eq(code, "zh-CN") || str_eq(code, "zh-TW") {
        "zh"
    } else {
        code
    }
}

/// The prompt that Whisper starts from for a language code, if any.
pub open spec fn initial_prompt(language: Seq<char>) -> Option<Seq<char>> {
    if language == "zh-CN"@ || language == "zh"@ {
        Some(SIMPLIFIED_PROMPT@)
    } else if language == "zh-TW"@ {
        Some(TRADITIONAL_PROMPT@)
    } else {
        None
    }
}

/// The view of an optional string slice.
pub open spec fn opt_view(s: Option<&str>) -> Option<Seq<char>> {
    match s {
        Some(a) => Some(a@),
        None => None,
    }
}

/// The guiding prompt for Whisper: Simplified Chinese for `zh-CN` (and the
/// legacy `zh`), Traditional Chinese for `zh-TW`, none otherwise.
pub fn initial_prompt_for_language(language: &str) -> (r: Option<&'static str>)
    ensures
        opt_view(r) == initial_prompt(language@),
{
    if str_eq(language, "zh-CN") || str_eq(language, "zh") {
        Some(SIMPLIFIED_PROMPT)
    } else if str_eq(language, "zh-TW") {
        Some(TRADITIONAL_PROMPT)
    } else {
        None
    }
}

/// The language Whisper is told to expect: none for `auto` (it detects the
/// language itself), otherwise the folded code.
pub open spec fn whisper_language_param(language: Seq<char>) -> Option<Seq<char>> {
    if stt_language(language) == "auto"@ {
        None
    } else {
        Some(stt_language(language))
    }
}

/// The language Whisper is told to expect.
pub fn whisper_language(language: &str) -> (r: Option<&str>)
    ensures
        opt_view(r) == whisper_language_param(language@),
{
    let folded = language_to_stt_lang(language);
    if str_eq(folded, "auto") {
        None
    } else {
        Some(folded)
    }
}

/// The language hint SenseVoice is given: `zh` for every Chinese code, the
/// code itself for English, Japanese and Korean, `auto` otherwise.
pub open spec fn sensevoice_language(language: Seq<char>) -> Seq<char> {
    if language == "zh"@ || language == "zh-CN"@ || language == "zh-TW"@ {
        "zh"@
    } else if language == "en"@ || language == "ja"@ || language == "ko"@ {
        language
    } else {
        "auto"@
    }
}

/// The language hint for SenseVoice.
pub fn map_language_for_sensevoice(language: &str) -> (r: &str)
    ensures
        r@ == sensevoice_language(language@),
{
    if str_eq(language, "zh") || str_eq(language, "zh-CN") || str_eq(language, "zh-TW") {
        "zh"
    } else if str_eq(language, "en") || str_eq(language, "ja") || str_eq(language, "ko") {
        language
    } else {
        "auto"
    }
}

/// The concatenation of the segment texts.
pub open spec fn concat_all(segments: Seq<Seq<char>>) -> Seq<char>
    decreases segments.len(),
{
    if segments.len() == 0 {
        Seq::empty()
    } else {
        concat_all(segments.drop_last()) + segments.last()
    }
}

/// The transcript: the segment texts in order, joined without separator and trimmed.
pub fn transcript_from_segments(segments: &[String]) -> (r: String)
    ensures
        r@ == trimmed(concat_all(segments@.map_values(|s: String| s@))),
{
    let ghost views = segments@.map_values(|s: String| s@);
    let mut all = String::new();
    let mut i: usize = 0;
    while i < segments.len()
        invariant
            views == segments@.map_values(|s: String| s@),
            i <= segments@.len(),
            all@ == concat_all(views.take(i as int)),
        decreases segments@.len() - i,
    {
        assert(views.take(i + 1).drop_last() =~= views.take(i as int));
        all.append(segments[i].as_str());
        i = i + 1;
    }
    assert(views.take(i as int) =~= views);
    String::from_str(trim_str(all.as_str()))
}

/// The text of a recognizer result: trimmed.
pub fn recognized_text(text: &str) -> (r: String)
    ensures
        r@ == trimmed(text@),
{
    String::from_str(trim_str(text))
}

/// A slot that holds the loaded Whisper model once it has been initialized.
pub struct ModelSlot<T> {
    model: Option<T>,
}

impl<T> ModelSlot<T> {
    /// Whether a model is held.
    pub closed spec fn loaded(&self) -> bool {
        self.model is Some
    }

    /// An empty slot.
    pub fn new() -> (r: Self)
        ensures
            !r.loaded(),
    {
        ModelSlot { model: None }
    }

    /// Whether a model has been loaded.
    pub fn is_model_loaded(&self) -> (r: bool)
        ensures
            r == self.loaded(),
    {
        self.model.is_some()
    }

    /// The loaded model, if any.
    pub fn model(&self) -> (r: Option<&T>)
        ensures
            r is Some == self.loaded(),
    {
        match &self.model {
            Some(m) => Some(m),
            None => None,
        }
    }

    /// Keep `model`. A slot keeps the first model it is given: a second
    /// store fails and leaves the slot as it was.
    pub fn store(&mut self, model: T) -> (r: Result<(), AppError>)
        ensures
            old(self).loaded() ==> (r matches Err(AppError::Whisper(m)) && m@ == "Failed to store whisper context"@),
            old(self).loaded() ==> *final(self) == *old(self),
            !old(self).loaded() ==> r is Ok && final(self).loaded(),
    {
        if self.model.is_some() {
            return Err(AppError::Whisper(String::from_str("Failed to store whisper context")));
        }
        self.model = Some(model);
        Ok(())
    }
}

/// The error of the checks made before a Whisper model is loaded, in the
/// order they are made: already loaded, file missing, path not valid UTF-8.
pub open spec fn init_check(loaded: bool, file_exists: bool, path_is_utf8: bool, path_display: Seq<char>) -> Option<Seq<char>> {
    if loaded {
        Some("Model already initialized"@)
    } else if !file_exists {
        Some("Model file not found: "@ + path_display)
    } else if !path_is_utf8 {
        Some("Invalid model path encoding"@)
    } else {
        None
    }
}

/// Whether an exec check result agrees with a spec check, errors being `Whisper` errors.
pub open spec fn check_agrees(r: Result<(), AppError>, o: Option<Seq<char>>) -> bool {
    match (r, o) {
        (Ok(()), None) => true,
        (Err(AppError::Whisper(m)), Some(t)) => m@ == t,
        _ => false,
    }
}

/// A `Whisper` error with the message `head` followed by `tail`.
fn whisper_error(head: &str, tail: &str) -> (r: AppError)
    ensures
        r matches AppError::Whisper(m) && m@ == head@ + tail@,
{
    let mut m = String::from_str(head);
    m.append(tail);
    AppError::Whisper(m)
}

/// The checks made before a Whisper model is loaded into the shared slot.
pub fn init_model_check(loaded: bool, file_exists: bool, path_is_utf8: bool, path_display: &str) -> (r: Result<(), AppError>)
    ensures
        check_agrees(r, init_check(loaded, file_exists, path_is_utf8, path_display@)),
{
    if loaded {
        return Err(AppError::Whisper(String::from_str("Model already initialized")));
    }
    if !file_exists {
        return Err(whisper_error("Model file not found: ", path_display));
    }
    if !path_is_utf8 {
        return Err(AppError::Whisper(String::from_str("Invalid model path encoding")));
    }
    Ok(())
}

/// The checks made before a Whisper backend is created for one model file:
/// the file must exist and its path must be valid UTF-8.
pub fn whisper_backend_check(file_exists: bool, path_is_utf8: bool, path_display: &str) -> (r: Result<(), AppError>)
    ensures
        check_agrees(r, init_check(false, file_exists, path_is_utf8, path_display@)),
{
    init_model_check(false, file_exists, path_is_utf8, path_display)
}

/// The error of the checks made before a Paraformer backend is created:
/// the weights file, then the token table, must exist.
pub open spec fn paraformer_check(model_exists: bool, tokens_exists: bool, model_display: Seq<char>, tokens_display: Seq<char>) -> Option<Seq<char>> {
    if !model_exists {
        Some("Paraformer model file not found: "@ + model_display)
    } else if !tokens_exists {
        Some("Paraformer tokens file not found: "@ + tokens_display)
    } else {
        None
    }
}

/// The checks made before a Paraformer backend is created.
pub fn paraformer_files_check(model_exists: bool, tokens_exists: bool, model_display: &str, tokens_display: &str) -> (r: Result<(), AppError>)
    ensures
        check_agrees(r, paraformer_check(model_exists, tokens_exists, model_display@, tokens_display@)),
{
    if !model_exists {
        return Err(whisper_error("Paraformer model file not found: ", model_display));
    }
    if !tokens_exists {
        return Err(whisper_error("Paraformer tokens file not found: ", tokens_display));
    }
    Ok(())
}

/// What a transcription request does before the engine runs: without a
/// loaded model it fails; with no audio it yields an empty transcript
/// (`Ok(false)`); otherwise the engine runs (`Ok(true)`).
pub fn transcribe_check(loaded: bool, audio_len: usize) -> (r: Result<bool, AppError>)
    ensures
        !loaded ==> (r matches Err(AppError::Whisper(m))
            && m@ == "Whisper model not initialized. Call init_model first."@),
        loaded ==> r == Ok::<bool, AppError>(audio_len > 0),
{
    if !loaded {
        return Err(AppError::Whisper(String::from_str("Whisper model not initialized. Call init_model first.")));
    }
    Ok(audio_len > 0)
}

/// The transcript text is the segment texts joined with nothing between
/// them: no segments give nothing, one segment gives itself, and one more
/// segment is appended as it is after the others.
pub proof fn law_segments_join_without_separator(s: Seq<Seq<char>>, x: Seq<char>, a: Seq<char>, b: Seq<char>)
    ensures
        concat_all(Seq::<Seq<char>>::empty()) == Seq::<char>::empty(),
        concat_all(seq![a]) == a,
        concat_all(s.push(x)) == concat_all(s) + x,
        concat_all(seq![a, b]) == a + b,
{
    let one = seq![a];
    assert(one.len() == 1 && one.last() == a);
    assert(one.drop_last() =~= Seq::<Seq<char>>::empty());
    assert(concat_all(one.drop_last()) == Seq::<char>::empty());
    assert(concat_all(one) =~= Seq::<char>::empty() + a);
    assert(concat_all(one) =~= a);
    assert(s.push(x).drop_last() =~= s);
    let two = seq![a, b];
    assert(two.drop_last() =~= one);
    assert(two.last() == b);
    assert(concat_all(two) =~= a + b);
}

/// The Chinese variants are folded before reaching an engine, while the
/// guiding prompt still tells them apart.
pub proof fn law_variants_share_engine_code_but_not_prompt()
    ensures
        stt_language("zh-CN"@) == stt_language("zh-TW"@),
        stt_language("zh-CN"@) == "zh"@,
        initial_prompt("zh-CN"@) != initial_prompt("zh-TW"@),
        initial_prompt("zh"@) == initial_prompt("zh-CN"@),
{
    reveal_strlit("zh");
    reveal_strlit("zh-CN");
    reveal_strlit("zh-TW");
    reveal_strlit("以下是普通话的句子。");
    reveal_strlit("以下是國語的句子。");
    assert("zh"@.len() == 2 && "zh-CN"@.len() == 5 && "zh-TW"@.len() == 5);
    assert("zh-CN"@[3] != "zh-TW"@[3]);
    assert(SIMPLIFIED_PROMPT@[3] != TRADITIONAL_PROMPT@[3]);
}

} // verus!
