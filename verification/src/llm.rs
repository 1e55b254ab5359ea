//! The text post-processing conversation: the system prompt, the context
//! message built from recent transcriptions, the request messages, and how a
//! reply of the chat-completions service is turned into a result.
pub mod prompt_text;

use vstd::prelude::*;
use crate::text::{
    decimal, has_prefix, string_views, joined, lowercase, push_decimal, str_eq, join_strings, starts_with,
    to_lowercase_str, trim_str, trimmed,
};
use crate::errors::AppError;
use crate::config::AppConfig;
use crate::llm::prompt_text::{
    BASE_RULES_PLAIN, BASE_RULES_STRUCTURED, CONTEXT_RULES, KEEP_VARIANT, NOTE_AUTO, NOTE_EN,
    NOTE_ZH_HEAD, STRUCTURING_RULES, TO_SIMPLIFIED, TO_TRADITIONAL, TAGS_HEAD, TAGS_TAIL, TECH_TERM_RULES,
    VOCABULARY_HEAD, CONTEXT_HEADER, VALIDATION_PROMPT,
};

verus! {

/// How many recent transcriptions are given to the model as context.
pub const MAX_HISTORY_CONTEXT: usize = 10;

/// A completed transcription entry used as conversation context.
#[derive(Debug, Clone)]
pub struct HistoryEntry {
    /// Raw speech-to-text transcription (before post-processing).
    pub original: String,
    /// Post-processed text (the final corrected result).
    pub corrected: String,
}

/// One message of a chat-completions request.
#[derive(Debug, Clone)]
pub struct ChatMessage {
    pub role: String,
    pub content: String,
}

/// A message as a pair of role and content.
pub open spec fn msg_view(m: ChatMessage) -> (Seq<char>, Seq<char>) {
    (m.role@, m.content@)
}

/// The custom vocabulary section (empty when there is no vocabulary).
pub open spec fn vocabulary_section(vocabulary: Seq<Seq<char>>) -> Seq<char> {
    if vocabulary.len() == 0 {
        Seq::empty()
    } else {
        VOCABULARY_HEAD@ + joined(vocabulary, ", "@) + "\n"@
    }
}

/// The profile tags section (empty when there are no tags).
pub open spec fn tags_section(tags: Seq<Seq<char>>) -> Seq<char> {
    if tags.len() == 0 {
        Seq::empty()
    } else {
        TAGS_HEAD@ + joined(tags, ", "@) + TAGS_TAIL@
    }
}

/// Whether the language code is Chinese: `zh-CN`, `zh-TW`, or the legacy `zh`.
pub open spec fn is_chinese(language: Seq<char>) -> bool {
    language == "zh"@ || language == "zh-CN"@ || language == "zh-TW"@
}

/// What the Chinese note asks of the written variant: Simplified output for
/// `zh-CN`, Traditional output for `zh-TW`, the speaker's own variant otherwise.
pub open spec fn variant_directive(language: Seq<char>) -> Seq<char> {
    if language == "zh-CN"@ {
        TO_SIMPLIFIED@
    } else if language == "zh-TW"@ {
        TO_TRADITIONAL@
    } else {
        KEEP_VARIANT@
    }
}

/// The closing language note chosen by the language code.
pub open spec fn language_note(language: Seq<char>) -> Seq<char> {
    if is_chinese(language) {
        NOTE_ZH_HEAD@ + variant_directive(language)
    } else if language == "en"@ {
        NOTE_EN@
    } else {
        NOTE_AUTO@
    }
}

/// Everything of the system prompt before the language note: core rules, the
/// optional structuring block, the technical-term table, the context rules,
/// and the optional vocabulary and tag sections, each followed by a line break.
pub open spec fn prompt_body(
    text_structuring: bool,
    vocabulary: Seq<Seq<char>>,
    user_tags: Seq<Seq<char>>,
) -> Seq<char> {
    (if text_structuring { BASE_RULES_STRUCTURED@ } else { BASE_RULES_PLAIN@ }) + "\n"@
        + (if text_structuring { STRUCTURING_RULES@ } else { Seq::empty() }) + "\n"@
        + TECH_TERM_RULES@ + "\n"@
        + CONTEXT_RULES@ + "\n"@
        + vocabulary_section(vocabulary) + "\n"@
        + tags_section(user_tags)
}

/// The system prompt: the body, then the language note.
pub open spec fn system_prompt(
    language: Seq<char>,
    text_structuring: bool,
    vocabulary: Seq<Seq<char>>,
    user_tags: Seq<Seq<char>>,
) -> Seq<char> {
    prompt_body(text_structuring, vocabulary, user_tags) + language_note(language)
}

/// Appends `piece` to `out`.
fn append_piece(out: &mut String, piece: &str)
    ensures
        final(out)@ == old(out)@ + piece@,
{
    out.append(piece);
}

/// Appends the language note for `language` to `out`.
fn append_language_note(out: &mut String, language: &str)
    ensures
        final(out)@ == old(out)@ + language_note(language@),
{
    if str_eq(language, "zh-CN") {
        append_piece(out, NOTE_ZH_HEAD);
        append_piece(out, TO_SIMPLIFIED);
    } else if str_eq(language, "zh-TW") {
        append_piece(out, NOTE_ZH_HEAD);
        append_piece(out, TO_TRADITIONAL);
    } else if str_eq(language, "zh") {
        append_piece(out, NOTE_ZH_HEAD);
        append_piece(out, KEEP_VARIANT);
    } else if str_eq(language, "en") {
        append_piece(out, NOTE_EN);
    } else {
        append_piece(out, NOTE_AUTO);
    }
}

/// Build the language-aware system prompt. The structuring block is present
/// only when `text_structuring` is set; the vocabulary and tag sections only
/// when their lists are non-empty.
pub fn build_system_prompt(
    language: &str,
    text_structuring: bool,
    vocabulary: &[String],
    user_tags: &[String],
) -> (r: String)
    ensures
        r@ == system_prompt(language@, text_structuring, string_views(vocabulary@), string_views(user_tags@)),
{
    let mut s = String::new();
    if text_structuring {
        append_piece(&mut s, BASE_RULES_STRUCTURED);
    } else {
        append_piece(&mut s, BASE_RULES_PLAIN);
    }
    let ghost p1 = s@;
    append_piece(&mut s, "\n");
    if text_structuring {
        append_piece(&mut s, STRUCTURING_RULES);
    }
    let ghost p2 = s@;
    append_piece(&mut s, "\n");
    append_piece(&mut s, TECH_TERM_RULES);
    append_piece(&mut s, "\n");
    append_piece(&mut s, CONTEXT_RULES);
    append_piece(&mut s, "\n");
    let ghost p3 = s@;
    if vocabulary.len() > 0 {
        append_piece(&mut s, VOCABULARY_HEAD);
        let terms = join_strings(vocabulary, ", ");
        append_piece(&mut s, terms.as_str());
        append_piece(&mut s, "\n");
    }
    let ghost p4 = s@;
    assert(p4 =~= p3 + vocabulary_section(string_views(vocabulary@)));
    append_piece(&mut s, "\n");
    if user_tags.len() > 0 {
        append_piece(&mut s, TAGS_HEAD);
        let tags = join_strings(user_tags, ", ");
        append_piece(&mut s, tags.as_str());
        append_piece(&mut s, TAGS_TAIL);
    }
    let ghost p5 = s@;
    assert(p5 =~= p4 + "\n"@ + tags_section(string_views(user_tags@)));
    append_language_note(&mut s, language);
    assert(s@ =~= system_prompt(
        language@,
        text_structuring,
        string_views(vocabulary@),
        string_views(user_tags@),
    ));
    s
}

/// The system prompt opens with the core rules the structuring setting
/// chooses: with structuring on, the structured rules and then the
/// structuring block; with it off, the plain rules and no structuring block
/// (the technical-term table follows at once).
pub proof fn law_prompt_opens_with_rules_for_structuring(
    language: Seq<char>,
    vocabulary: Seq<Seq<char>>,
    user_tags: Seq<Seq<char>>,
)
    ensures
        has_prefix(
            system_prompt(language, true, vocabulary, user_tags),
            BASE_RULES_STRUCTURED@ + "\n"@ + STRUCTURING_RULES@,
        ),
        has_prefix(
            system_prompt(language, false, vocabulary, user_tags),
            BASE_RULES_PLAIN@ + "\n"@ + "\n"@ + TECH_TERM_RULES@,
        ),
{
    let tail = "\n"@ + CONTEXT_RULES@ + "\n"@ + vocabulary_section(vocabulary) + "\n"@
        + tags_section(user_tags) + language_note(language);
    let on = BASE_RULES_STRUCTURED@ + "\n"@ + STRUCTURING_RULES@;
    let off = BASE_RULES_PLAIN@ + "\n"@ + "\n"@ + TECH_TERM_RULES@;
    let full_on = system_prompt(language, true, vocabulary, user_tags);
    let full_off = system_prompt(language, false, vocabulary, user_tags);
    assert(full_on =~= on + ("\n"@ + TECH_TERM_RULES@ + tail));
    assert((on + ("\n"@ + TECH_TERM_RULES@ + tail)).subrange(0, on.len() as int) =~= on);
    assert(full_off =~= off + tail);
    assert((off + tail).subrange(0, off.len() as int) =~= off);
}

/// Simplified and Traditional Chinese get different system prompts, and
/// neither keeps the instruction to preserve the speaker's variant that the
/// legacy `zh` code gives, whatever the other settings are.
pub proof fn law_chinese_variants_get_distinct_prompts(
    text_structuring: bool,
    vocabulary: Seq<Seq<char>>,
    user_tags: Seq<Seq<char>>,
)
    ensures
        system_prompt("zh-CN"@, text_structuring, vocabulary, user_tags)
            != system_prompt("zh-TW"@, text_structuring, vocabulary, user_tags),
        system_prompt("zh-CN"@, text_structuring, vocabulary, user_tags)
            != system_prompt("zh"@, text_structuring, vocabulary, user_tags),
        system_prompt("zh-TW"@, text_structuring, vocabulary, user_tags)
            != system_prompt("zh"@, text_structuring, vocabulary, user_tags),
{
    reveal_strlit("zh");
    reveal_strlit("zh-CN");
    reveal_strlit("zh-TW");
    reveal_strlit("请输出简体中文；如原文包含繁体字符，转换为对应的简体。");
    reveal_strlit("請輸出繁體中文；如原文包含簡體字符，轉換為對應的繁體。");
    reveal_strlit("Preserve the Chinese variant used by the speaker (simplified or traditional) — do not convert between them.");
    assert("zh"@.len() == 2 && "zh-CN"@.len() == 5 && "zh-TW"@.len() == 5);
    assert("zh-CN"@[3] != "zh-TW"@[3]);
    let b = prompt_body(text_structuring, vocabulary, user_tags);
    let k: int = (b.len() + NOTE_ZH_HEAD@.len()) as int;
    let hans = system_prompt("zh-CN"@, text_structuring, vocabulary, user_tags);
    let hant = system_prompt("zh-TW"@, text_structuring, vocabulary, user_tags);
    let keep = system_prompt("zh"@, text_structuring, vocabulary, user_tags);
    assert(hans == b + NOTE_ZH_HEAD@ + TO_SIMPLIFIED@);
    assert(hant == b + NOTE_ZH_HEAD@ + TO_TRADITIONAL@);
    assert(keep == b + NOTE_ZH_HEAD@ + KEEP_VARIANT@);
    assert(hans[k] == TO_SIMPLIFIED@[0]);
    assert(hant[k] == TO_TRADITIONAL@[0]);
    assert(keep[k] == KEEP_VARIANT@[0]);
}

/// One numbered line of prior context: `{n}. STT: {original} → Corrected: {corrected}`.
pub open spec fn history_line(n: nat, e: HistoryEntry) -> Seq<char> {
    decimal(n) + ". STT: "@ + e.original@ + " → Corrected: "@ + e.corrected@ + "\n"@
}

/// The numbered lines for `h`, numbered from 1.
pub open spec fn history_lines(h: Seq<HistoryEntry>) -> Seq<char>
    decreases h.len(),
{
    if h.len() == 0 {
        Seq::empty()
    } else {
        history_lines(h.drop_last()) + history_line(h.len(), h.last())
    }
}

/// The most recent `MAX_HISTORY_CONTEXT` entries of `h`, oldest first.
pub open spec fn context_window(h: Seq<HistoryEntry>) -> Seq<HistoryEntry> {
    if h.len() > MAX_HISTORY_CONTEXT {
        h.subrange(h.len() - MAX_HISTORY_CONTEXT, h.len() as int)
    } else {
        h
    }
}

/// The line naming the active application, followed by a blank line, if there is one.
pub open spec fn app_line(source_app: Option<Seq<char>>) -> Seq<char> {
    match source_app {
        Some(a) => "[Active application: "@ + a + "]\n\n"@,
        None => Seq::empty(),
    }
}

/// The text of the context message.
pub open spec fn context_text(h: Seq<HistoryEntry>, source_app: Option<Seq<char>>) -> Seq<char> {
    CONTEXT_HEADER@ + app_line(source_app) + history_lines(context_window(h))
}

/// The view of an optional string slice.
pub open spec fn opt_str_view(s: Option<&str>) -> Option<Seq<char>> {
    match s {
        Some(a) => Some(a@),
        None => None,
    }
}

/// Build the optional context message from recent history and the active
/// application. There is none when both are absent; otherwise it is a `user`
/// message holding the header, the application line and the last ten entries.
pub fn build_context_message(history: &[HistoryEntry], source_app: Option<&str>) -> (r: Option<ChatMessage>)
    ensures
        r is None <==> (history@.len() == 0 && source_app is None),
        r matches Some(m) ==> m.role@ == "user"@ && m.content@ == context_text(history@, opt_str_view(source_app)),
{
    let has_history = history.len() > 0;
    if !has_history && source_app.is_none() {
        return None;
    }
    let mut context = String::from_str(CONTEXT_HEADER);
    match source_app {
        Some(app) => {
            append_piece(&mut context, "[Active application: ");
            append_piece(&mut context, app);
            append_piece(&mut context, "]\n\n");
        },
        None => {},
    }
    let ghost prefix = context@;
    assert(prefix =~= CONTEXT_HEADER@ + app_line(opt_str_view(source_app)));
    let n = history.len();
    let skip: usize = if n > MAX_HISTORY_CONTEXT { n - MAX_HISTORY_CONTEXT } else { 0 };
    let ghost window = context_window(history@);
    assert(window =~= history@.subrange(skip as int, n as int));
    let mut j: usize = 0;
    while skip + j < n
        invariant
            n == history@.len(),
            skip <= n,
            n - skip <= MAX_HISTORY_CONTEXT,
            window == history@.subrange(skip as int, n as int),
            skip + j <= n,
            context@ == prefix + history_lines(window.take(j as int)),
        decreases n - skip - j,
    {
        let entry = &history[skip + j];
        assert(window[j as int] == history@[skip + j]);
        assert(window.take(j + 1).drop_last() =~= window.take(j as int));
        assert(window.take(j + 1).last() == window[j as int]);
        let ghost before = context@;
        push_decimal(&mut context, (j + 1) as u64);
        append_piece(&mut context, ". STT: ");
        append_piece(&mut context, entry.original.as_str());
        append_piece(&mut context, " → Corrected: ");
        append_piece(&mut context, entry.corrected.as_str());
        append_piece(&mut context, "\n");
        assert(context@ =~= before + history_line((j + 1) as nat, window.take(j + 1).last()));
        j = j + 1;
    }
    assert(window.take(j as int) =~= window);
    let role = String::from_str("user");
    proof { reveal_strlit("user"); }
    Some(ChatMessage { role, content: context })
}

/// Builds a message from a role and its content.
fn message(role: &str, content: &str) -> (r: ChatMessage)
    ensures
        msg_view(r) == (role@, content@),
{
    ChatMessage { role: String::from_str(role), content: String::from_str(content) }
}

/// The messages of a post-processing request: the system prompt, the
/// optional context message, then the raw transcription as a `user` message.
pub open spec fn optimize_request(
    raw_text: Seq<char>,
    language: Seq<char>,
    history: Seq<HistoryEntry>,
    text_structuring: bool,
    vocabulary: Seq<Seq<char>>,
    source_app: Option<Seq<char>>,
    user_tags: Seq<Seq<char>>,
) -> Seq<(Seq<char>, Seq<char>)> {
    seq![("system"@, system_prompt(language, text_structuring, vocabulary, user_tags))]
        + (if history.len() == 0 && source_app is None {
            Seq::empty()
        } else {
            seq![("user"@, context_text(history, source_app))]
        })
        + seq![("user"@, raw_text)]
}

/// The messages sent to post-process `raw_text`.
pub fn optimize_messages(
    raw_text: &str,
    language: &str,
    history: &[HistoryEntry],
    text_structuring: bool,
    vocabulary: &[String],
    source_app: Option<&str>,
    user_tags: &[String],
) -> (r: Vec<ChatMessage>)
    ensures
        r@.map_values(|m: ChatMessage| msg_view(m)) == optimize_request(
            raw_text@,
            language@,
            history@,
            text_structuring,
            string_views(vocabulary@),
            opt_str_view(source_app),
            string_views(user_tags@),
        ),
{
    let prompt = build_system_prompt(language, text_structuring, vocabulary, user_tags);
    let mut messages: Vec<ChatMessage> = Vec::new();
    messages.push(message("system", prompt.as_str()));
    match build_context_message(history, source_app) {
        Some(ctx) => messages.push(ctx),
        None => {},
    }
    messages.push(message("user", raw_text));
    proof { reveal_strlit("user"); }
    assert(messages@.map_values(|m: ChatMessage| msg_view(m)) =~= optimize_request(
        raw_text@,
        language@,
        history@,
        text_structuring,
        string_views(vocabulary@),
        opt_str_view(source_app),
        string_views(user_tags@),
    ));
    messages
}

/// The messages that ask whether `correct` is a legitimate correction of `original`.
pub fn validation_messages(original: &str, correct: &str) -> (r: Vec<ChatMessage>)
    ensures
        r@.map_values(|m: ChatMessage| msg_view(m)) == seq![
            ("system"@, VALIDATION_PROMPT@),
            ("user"@, "Original: "@ + original@ + "\nCorrect: "@ + correct@),
        ],
{
    let mut content = String::from_str("Original: ");
    append_piece(&mut content, original);
    append_piece(&mut content, "\nCorrect: ");
    append_piece(&mut content, correct);
    let mut messages: Vec<ChatMessage> = Vec::new();
    messages.push(message("system", VALIDATION_PROMPT));
    messages.push(message("user", content.as_str()));
    assert(messages@.map_values(|m: ChatMessage| msg_view(m)) =~= seq![
        ("system"@, VALIDATION_PROMPT@),
        ("user"@, "Original: "@ + original@ + "\nCorrect: "@ + correct@),
    ]);
    messages
}

/// The single message used to check that the service answers.
pub fn connection_test_messages() -> (r: Vec<ChatMessage>)
    ensures
        r@.map_values(|m: ChatMessage| msg_view(m)) == seq![("user"@, "Hello"@)],
{
    let mut messages: Vec<ChatMessage> = Vec::new();
    messages.push(message("user", "Hello"));
    assert(messages@.map_values(|m: ChatMessage| msg_view(m)) =~= seq![("user"@, "Hello"@)]);
    messages
}

/// What came back for a chat-completions request.
pub enum ChatReply {
    /// The request could not be sent, or no response arrived; the transport's description.
    Network(String),
    /// A response with a non-success status, with the `error.message` of its body when the body has one.
    Http { status: u16, message: Option<String> },
    /// A success response whose body could not be parsed; the parser's description.
    Unreadable(String),
    /// A parsed success response: its `choices` field, each choice taken by its message content.
    Parsed(Option<Vec<String>>),
}

/// The message for a failed HTTP status: the service's own message, else the status code.
pub open spec fn api_error_text(status: u16, message: Option<Seq<char>>) -> Seq<char> {
    match message {
        Some(m) => m,
        None => "API request failed (HTTP "@ + decimal(status as nat) + ")"@,
    }
}

/// The view of an optional string.
pub open spec fn opt_string_view(s: Option<String>) -> Option<Seq<char>> {
    match s {
        Some(a) => Some(a@),
        None => None,
    }
}

/// The content of the first choice, or the message of the error that the reply stands for.
pub open spec fn reply_content(reply: ChatReply, parse_head: Seq<char>) -> Result<Seq<char>, Seq<char>> {
    match reply {
        ChatReply::Network(d) => Err("Network error: "@ + d@),
        ChatReply::Http { status, message } => Err(api_error_text(status, opt_string_view(message))),
        ChatReply::Unreadable(d) => Err(parse_head + d@),
        ChatReply::Parsed(None) => Err("Response missing 'choices' field"@),
        ChatReply::Parsed(Some(v)) => if v.len() == 0 {
            Err("Response contains empty 'choices' array"@)
        } else {
            Ok(v[0]@)
        },
    }
}

/// Whether an exec result agrees with a spec outcome whose errors are `Llm` messages.
pub open spec fn agrees<T>(r: Result<T, AppError>, ok: spec_fn(T) -> bool, err: Option<Seq<char>>) -> bool {
    match r {
        Ok(v) => err is None && ok(v),
        Err(AppError::Llm(m)) => err == Some(m@),
        Err(_) => false,
    }
}

/// The error message of an outcome, if it is an error.
pub open spec fn outcome_error(o: Result<Seq<char>, Seq<char>>) -> Option<Seq<char>> {
    match o {
        Ok(_) => None,
        Err(m) => Some(m),
    }
}

/// The error text for a non-success status (`extract_api_error`): the
/// service's `error.message` when its body carried one, else the status code.
pub fn extract_api_error(status: u16, message: Option<String>) -> (r: String)
    ensures
        r@ == api_error_text(status, opt_string_view(message)),
{
    match message {
        Some(m) => m,
        None => {
            let mut s = String::from_str("API request failed (HTTP ");
            push_decimal(&mut s, status as u64);
            append_piece(&mut s, ")");
            s
        },
    }
}

/// The content of the first choice, or the `Llm` error that the reply stands for.
fn reply_first_content(reply: ChatReply, parse_head: &str) -> (r: Result<String, AppError>)
    ensures
        agrees(r, |s: String| reply_content(reply, parse_head@) == Ok::<Seq<char>, Seq<char>>(s@),
            outcome_error(reply_content(reply, parse_head@))),
{
    match reply {
        ChatReply::Network(d) => {
            let mut m = String::from_str("Network error: ");
            append_piece(&mut m, d.as_str());
            Err(AppError::Llm(m))
        },
        ChatReply::Http { status, message } => Err(AppError::Llm(extract_api_error(status, message))),
        ChatReply::Unreadable(d) => {
            let mut m = String::from_str(parse_head);
            append_piece(&mut m, d.as_str());
            Err(AppError::Llm(m))
        },
        ChatReply::Parsed(None) => Err(AppError::Llm(String::from_str("Response missing 'choices' field"))),
        ChatReply::Parsed(Some(choices)) => {
            if choices.len() == 0 {
                Err(AppError::Llm(String::from_str("Response contains empty 'choices' array")))
            } else {
                let mut choices = choices;
                let first = choices.swap_remove(0);
                Ok(first)
            }
        },
    }
}

/// The post-processed text carried by a reply (what `optimize_text` returns).
pub fn optimize_outcome(reply: ChatReply) -> (r: Result<String, AppError>)
    ensures
        agrees(r, |s: String| reply_content(reply, "Failed to parse response JSON: "@) == Ok::<Seq<char>, Seq<char>>(s@),
            outcome_error(reply_content(reply, "Failed to parse response JSON: "@))),
{
    reply_first_content(reply, "Failed to parse response JSON: ")
}

/// Whether an answer counts as "yes": trimmed and lowercased, it starts with `yes`.
pub fn is_affirmative(answer: &str) -> (r: bool)
    ensures
        r == has_prefix(lowercase(trimmed(answer@)), "yes"@),
{
    let lowered = to_lowercase_str(trim_str(answer));
    starts_with(lowered.as_str(), "yes")
}

/// The verdict carried by a vocabulary-validation reply (what `validate_vocabulary` returns).
pub fn validation_outcome(reply: ChatReply) -> (r: Result<bool, AppError>)
    ensures
        agrees(r, |b: bool| exists|c: Seq<char>|
            reply_content(reply, "Failed to parse response: "@) == Ok::<Seq<char>, Seq<char>>(c)
                && b == has_prefix(lowercase(trimmed(c)), "yes"@),
            outcome_error(reply_content(reply, "Failed to parse response: "@))),
{
    match reply_first_content(reply, "Failed to parse response: ") {
        Ok(answer) => Ok(is_affirmative(answer.as_str())),
        Err(e) => Err(e),
    }
}

/// The confirmation carried by a connection-test reply (what `test_connection` returns).
pub fn connection_outcome(reply: ChatReply, model: &str) -> (r: Result<String, AppError>)
    ensures
        agrees(r, |s: String| reply_content(reply, "Failed to parse response: "@) is Ok
                && s@ == "Connected — model "@ + model@ + " is working"@,
            outcome_error(reply_content(reply, "Failed to parse response: "@))),
{
    match reply_first_content(reply, "Failed to parse response: ") {
        Ok(_) => {
            let mut s = String::from_str("Connected — model ");
            append_piece(&mut s, model);
            append_piece(&mut s, " is working");
            Ok(s)
        },
        Err(e) => Err(e),
    }
}

/// The model used when none is configured.
pub const DEFAULT_MODEL: &'static str = "gpt-4o-mini";

/// How long a request may take, in seconds.
pub const REQUEST_TIMEOUT_SECS: u64 = 30;

/// Declares `reqwest::Client`, the HTTP client a `LlmClient` holds.
#[verifier::external_type_specification]
#[verifier::external_body]
pub struct ExHttpClient(reqwest::Client);

/// Declares `reqwest::Error`.
#[verifier::external_type_specification]
#[verifier::external_body]
pub struct ExHttpError(reqwest::Error);

/// The overall request timeout, in seconds, that a `reqwest::Client` was
/// built with (set by `ClientBuilder::timeout`).
pub uninterp spec fn client_timeout(c: reqwest::Client) -> u64;

/// `reqwest::ClientBuilder::build` on a builder whose overall timeout is
/// `timeout_secs` seconds: a client it builds keeps that timeout. Whether the
/// build succeeds depends on the TLS backend of the machine; that is not stated.
#[verifier::external_body]
fn build_http_client(timeout_secs: u64) -> (r: Result<reqwest::Client, reqwest::Error>)
    ensures
        r matches Ok(c) ==> client_timeout(c) == timeout_secs,
{
    reqwest::Client::builder().timeout(std::time::Duration::from_secs(timeout_secs)).build()
}

/// `Display` of `reqwest::Error`.
#[verifier::external_body]
fn http_error_display(e: &reqwest::Error) -> String {
    e.to_string()
}

/// A client of an OpenAI-compatible chat-completions service.
pub struct LlmClient {
    api_key: String,
    base_url: String,
    model: String,
    http_client: reqwest::Client,
}

impl LlmClient {
    /// The model the client asks for.
    pub closed spec fn model_name(&self) -> Seq<char> {
        self.model@
    }

    /// The base URL of the service.
    pub closed spec fn base_url_text(&self) -> Seq<char> {
        self.base_url@
    }

    /// The API key sent as bearer token.
    pub closed spec fn api_key_text(&self) -> Seq<char> {
        self.api_key@
    }

    /// The overall request timeout, in seconds, of its HTTP client.
    pub closed spec fn timeout(&self) -> u64 {
        client_timeout(self.http_client)
    }

    /// The HTTP client the client was built with.
    pub closed spec fn held_client(&self) -> reqwest::Client {
        self.http_client
    }

    /// A client for `base_url` with `api_key`, asking for `model` or, when
    /// none is given, for the default model; its HTTP client is built with an
    /// overall timeout of `REQUEST_TIMEOUT_SECS` seconds.
    pub fn new(api_key: String, base_url: String, model: Option<String>) -> (r: Result<Self, AppError>)
        ensures
            r matches Ok(c) ==> c.api_key_text() == api_key@ && c.base_url_text() == base_url@
                && c.model_name() == (match model {
                    Some(m) => m@,
                    None => DEFAULT_MODEL@,
                }) && c.timeout() == REQUEST_TIMEOUT_SECS,
            r matches Err(e) ==> (e matches AppError::Llm(m)
                && has_prefix(m@, "Failed to build HTTP client: "@)),
    {
        match build_http_client(REQUEST_TIMEOUT_SECS) {
            Ok(http_client) => {
                let model = match model {
                    Some(m) => m,
                    None => String::from_str(DEFAULT_MODEL),
                };
                Ok(LlmClient { api_key, base_url, model, http_client })
            },
            Err(e) => {
                let mut m = String::from_str("Failed to build HTTP client: ");
                let detail = http_error_display(&e);
                append_piece(&mut m, detail.as_str());
                assert(m@.subrange(0, "Failed to build HTTP client: "@.len() as int)
                    =~= "Failed to build HTTP client: "@);
                Err(AppError::Llm(m))
            },
        }
    }

    /// The model the client asks for.
    pub fn model(&self) -> (r: &str)
        ensures
            r@ == self.model_name(),
    {
        self.model.as_str()
    }

    /// The endpoint of the chat-completions call.
    pub fn chat_url(&self) -> (r: String)
        ensures
            r@ == self.base_url_text() + "/chat/completions"@,
    {
        let mut url = self.base_url.clone();
        append_piece(&mut url, "/chat/completions");
        url
    }

    /// The value of the `Authorization` header.
    pub fn authorization(&self) -> (r: String)
        ensures
            r@ == "Bearer "@ + self.api_key_text(),
    {
        let mut h = String::from_str("Bearer ");
        append_piece(&mut h, self.api_key.as_str());
        h
    }

    /// The HTTP client that sends the requests: the one the client was built with.
    pub fn http_client(&self) -> (r: &reqwest::Client)
        ensures
            *r == self.held_client(),
    {
        &self.http_client
    }
}

/// The model to ask for: none (so the client uses its default) when the setting is empty.
pub fn optional_model(model: &str) -> (r: Option<String>)
    ensures
        model@.len() == 0 ==> r is None,
        model@.len() != 0 ==> (r matches Some(m) && m@ == model@),
{
    if model.unicode_len() == 0 {
        None
    } else {
        Some(String::from_str(model))
    }
}

/// The API key, base URL and model for validating vocabulary: refused with
/// an `Llm` error when no API key is configured.
pub fn validation_client_settings(config: &AppConfig) -> (r: Result<(String, String, Option<String>), AppError>)
    ensures
        config.api_key@.len() == 0 ==> (r matches Err(AppError::Llm(m))
            && m@ == "API Key is required to validate vocabulary entries"@),
        config.api_key@.len() != 0 ==> (r matches Ok((k, u, m)) && k@ == config.api_key@
            && u@ == config.api_base_url@ && (m is None <==> config.model@.len() == 0)
            && (m matches Some(x) ==> x@ == config.model@)),
{
    if config.api_key.as_str().unicode_len() == 0 {
        return Err(AppError::Llm(String::from_str("API Key is required to validate vocabulary entries")));
    }
    let model = optional_model(config.model.as_str());
    Ok((config.api_key.clone(), config.api_base_url.clone(), model))
}

} // verus!
