//! The settings record, its defaults, the per-field update that the settings
//! screen sends, and where the settings live on disk.
use vstd::prelude::*;
use crate::errors::AppError;
use crate::paths::{join_path, path_join};
use crate::text::{str_eq, string_views};
use crate::vocabulary::{json_string_list, parse_string_list};

verus! {

/// Directory name of the application inside the platform configuration directory.
pub const APP_IDENTIFIER: &'static str = "com.input0.app";

/// Name of the settings file.
pub const CONFIG_FILENAME: &'static str = "config.toml";

/// The user's settings.
#[derive(Debug, Clone, PartialEq)]
pub struct AppConfig {
    pub api_key: String,
    pub api_base_url: String,
    pub model: String,
    pub language: String,
    pub hotkey: String,
    pub model_path: String,
    pub stt_model: String,
    pub text_structuring: bool,
    pub user_tags: Vec<String>,
    pub custom_models: Vec<String>,
    pub onboarding_completed: bool,
    pub input_device: String,
    pub hf_endpoint: String,
}

/// The settings as plain values.
pub struct ConfigView {
    pub api_key: Seq<char>,
    pub api_base_url: Seq<char>,
    pub model: Seq<char>,
    pub language: Seq<char>,
    pub hotkey: Seq<char>,
    pub model_path: Seq<char>,
    pub stt_model: Seq<char>,
    pub text_structuring: bool,
    pub user_tags: Seq<Seq<char>>,
    pub custom_models: Seq<Seq<char>>,
    pub onboarding_completed: bool,
    pub input_device: Seq<char>,
    pub hf_endpoint: Seq<char>,
}

impl View for AppConfig {
    type V = ConfigView;

    open spec fn view(&self) -> ConfigView {
        ConfigView {
            api_key: self.api_key@,
            api_base_url: self.api_base_url@,
            model: self.model@,
            language: self.language@,
            hotkey: self.hotkey@,
            model_path: self.model_path@,
            stt_model: self.stt_model@,
            text_structuring: self.text_structuring,
            user_tags: string_views(self.user_tags@),
            custom_models: string_views(self.custom_models@),
            onboarding_completed: self.onboarding_completed,
            input_device: self.input_device@,
            hf_endpoint: self.hf_endpoint@,
        }
    }
}

/// The default settings.
pub open spec fn default_view() -> ConfigView {
    ConfigView {
        api_key: Seq::empty(),
        api_base_url: "https://api.openai.com/v1"@,
        model: "gpt-4o-mini"@,
        language: "auto"@,
        hotkey: "Option+Space"@,
        model_path: Seq::empty(),
        stt_model: "whisper-base"@,
        text_structuring: true,
        user_tags: Seq::empty(),
        custom_models: Seq::empty(),
        onboarding_completed: false,
        input_device: Seq::empty(),
        hf_endpoint: "https://huggingface.co"@,
    }
}

/// The speech model used when none is chosen.
pub fn default_stt_model() -> (r: String)
    ensures
        r@ == "whisper-base"@,
{
    String::from_str("whisper-base")
}

/// The model-download host used when none is chosen.
pub fn default_hf_endpoint() -> (r: String)
    ensures
        r@ == "https://huggingface.co"@,
{
    String::from_str("https://huggingface.co")
}

impl Default for AppConfig {
    fn default() -> (r: AppConfig)
        ensures
            r@ == default_view(),
    {
        let r = AppConfig {
            api_key: String::new(),
            api_base_url: String::from_str("https://api.openai.com/v1"),
            model: String::from_str("gpt-4o-mini"),
            language: String::from_str("auto"),
            hotkey: String::from_str("Option+Space"),
            model_path: String::new(),
            stt_model: default_stt_model(),
            text_structuring: true,
            user_tags: Vec::new(),
            custom_models: Vec::new(),
            onboarding_completed: false,
            input_device: String::new(),
            hf_endpoint: default_hf_endpoint(),
        };
        assert(r@.user_tags =~= Seq::<Seq<char>>::empty());
        assert(r@.custom_models =~= Seq::<Seq<char>>::empty());
        r
    }
}

/// The settings after setting the text field `field` to `value`, if `field`
/// names a text field.
pub open spec fn with_text_field(c: ConfigView, field: Seq<char>, value: Seq<char>) -> Option<ConfigView> {
    if field == "api_key"@ {
        Some(ConfigView { api_key: value, ..c })
    } else if field == "api_base_url"@ {
        Some(ConfigView { api_base_url: value, ..c })
    } else if field == "model"@ {
        Some(ConfigView { model: value, ..c })
    } else if field == "language"@ {
        Some(ConfigView { language: value, ..c })
    } else if field == "hotkey"@ {
        Some(ConfigView { hotkey: value, ..c })
    } else if field == "model_path"@ {
        Some(ConfigView { model_path: value, ..c })
    } else if field == "stt_model"@ {
        Some(ConfigView { stt_model: value, ..c })
    } else if field == "input_device"@ {
        Some(ConfigView { input_device: value, ..c })
    } else if field == "hf_endpoint"@ {
        Some(ConfigView { hf_endpoint: value, ..c })
    } else {
        None
    }
}

/// Whether `field` names a yes/no setting.
pub open spec fn is_flag_field(field: Seq<char>) -> bool {
    field == "text_structuring"@ || field == "onboarding_completed"@
}

/// The boolean that `value` spells, if it is `true` or `false`.
pub open spec fn flag_value(value: Seq<char>) -> Option<bool> {
    if value == "true"@ {
        Some(true)
    } else if value == "false"@ {
        Some(false)
    } else {
        None
    }
}

/// The outcome of an update: the new settings, or the message of the
/// configuration error that refuses it.
pub open spec fn field_update(c: ConfigView, field: Seq<char>, value: Seq<char>) -> Result<ConfigView, Seq<char>> {
    if with_text_field(c, field, value) is Some {
        Ok(with_text_field(c, field, value)->0)
    } else if is_flag_field(field) {
        match flag_value(value) {
            Some(b) => if field == "text_structuring"@ {
                Ok(ConfigView { text_structuring: b, ..c })
            } else {
                Ok(ConfigView { onboarding_completed: b, ..c })
            },
            None => Err("Invalid boolean value for "@ + field + ": "@ + value),
        }
    } else if field == "user_tags"@ {
        match json_string_list(value) {
            Some(tags) => Ok(ConfigView { user_tags: tags, ..c }),
            None => Err("Invalid user_tags JSON: "@ + value),
        }
    } else {
        Err("Unknown config field: "@ + field)
    }
}

/// Whether an exec outcome is the spec outcome, errors being `Config` errors.
pub open spec fn update_agrees(r: Result<AppConfig, AppError>, o: Result<ConfigView, Seq<char>>) -> bool {
    match (r, o) {
        (Ok(c), Ok(v)) => c@ == v,
        (Err(AppError::Config(m)), Err(t)) => m@ == t,
        _ => false,
    }
}

/// A configuration error whose message is `head` followed by `a` and, when given, `b`.
fn config_error(head: &str, a: &str, mid: &str, b: &str) -> (r: AppError)
    ensures
        r matches AppError::Config(m) && m@ == head@ + a@ + mid@ + b@,
{
    let mut m = String::from_str(head);
    m.append(a);
    m.append(mid);
    m.append(b);
    AppError::Config(m)
}

/// Set one setting by name from its textual value: text fields take the
/// value as is, `text_structuring` and `onboarding_completed` take `true` or
/// `false`, `user_tags` takes a JSON array of strings. Any other name, or a
/// value a field does not accept, is a configuration error and nothing changes.
pub fn update_field(config: AppConfig, field: &str, value: &str) -> (r: Result<AppConfig, AppError>)
    ensures
        update_agrees(r, field_update(config@, field@, value@)),
{
    proof {
        reveal_strlit("");
    }
    let mut c = config;
    let v = String::from_str(value);
    if str_eq(field, "api_key") {
        c.api_key = v;
    } else if str_eq(field, "api_base_url") {
        c.api_base_url = v;
    } else if str_eq(field, "model") {
        c.model = v;
    } else if str_eq(field, "language") {
        c.language = v;
    } else if str_eq(field, "hotkey") {
        c.hotkey = v;
    } else if str_eq(field, "model_path") {
        c.model_path = v;
    } else if str_eq(field, "stt_model") {
        c.stt_model = v;
    } else if str_eq(field, "input_device") {
        c.input_device = v;
    } else if str_eq(field, "hf_endpoint") {
        c.hf_endpoint = v;
    } else if str_eq(field, "text_structuring") || str_eq(field, "onboarding_completed") {
        let b = if str_eq(value, "true") {
            true
        } else if str_eq(value, "false") {
            false
        } else {
            return Err(config_error("Invalid boolean value for ", field, ": ", value));
        };
        if str_eq(field, "text_structuring") {
            c.text_structuring = b;
        } else {
            c.onboarding_completed = b;
        }
    } else if str_eq(field, "user_tags") {
        match parse_string_list(value) {
            Some(tags) => {
                c.user_tags = tags;
            },
            None => {
                let e = config_error("Invalid user_tags JSON: ", value, "", "");
                assert(value@ + ""@ + ""@ =~= value@);
                return Err(e);
            },
        }
    } else {
        let e = config_error("Unknown config field: ", field, "", "");
        assert(field@ + ""@ + ""@ =~= field@);
        return Err(e);
    }
    Ok(c)
}

/// Whether the settings still hold the language code used before the two
/// written variants of Chinese were told apart.
pub open spec fn has_legacy_language(c: ConfigView) -> bool {
    c.language == "zh"@
}

/// Replace the legacy language code `zh` by `zh-CN` (Simplified Chinese).
/// Returns whether anything changed, so that the caller writes the file back.
pub fn normalize_language(config: &mut AppConfig) -> (r: bool)
    ensures
        r == has_legacy_language(old(config)@),
        r ==> final(config)@ == (ConfigView { language: "zh-CN"@, ..old(config)@ }),
        !r ==> final(config)@ == old(config)@,
{
    if str_eq(config.language.as_str(), "zh") {
        config.language = String::from_str("zh-CN");
        true
    } else {
        false
    }
}

/// The platform's configuration directory (`dirs::config_dir`), as text;
/// parts of the path that are not valid UTF-8 become U+FFFD. It depends on
/// the environment of the process; nothing is stated of it.
#[verifier::external_body]
fn platform_config_dir() -> Option<String> {
    match dirs::config_dir() {
        Some(p) => Some(p.to_string_lossy().into_owned()),
        None => None,
    }
}

/// The directory that holds the application's files: `com.input0.app`
/// inside the platform configuration directory.
pub fn config_dir() -> (r: Result<String, AppError>)
    ensures
        r matches Ok(d) ==> (exists|base: Seq<char>| d@ == path_join(base, APP_IDENTIFIER@)),
        r matches Err(e) ==> (e matches AppError::Config(m) && m@ == "Could not determine config directory"@),
{
    match platform_config_dir() {
        Some(base) => Ok(join_path(base.as_str(), APP_IDENTIFIER)),
        None => Err(AppError::Config(String::from_str("Could not determine config directory"))),
    }
}

/// Path of the settings file inside `dir`.
pub fn config_file_path(dir: &str) -> (r: String)
    ensures
        r@ == path_join(dir@, CONFIG_FILENAME@),
{
    join_path(dir, CONFIG_FILENAME)
}

/// Path of the settings file: `config.toml` in the application's directory.
/// It fails, as `config_dir` does, when the platform has no configuration directory.
pub fn config_path() -> (r: Result<String, AppError>)
    ensures
        r matches Ok(p) ==> (exists|base: Seq<char>|
            p@ == path_join(path_join(base, APP_IDENTIFIER@), CONFIG_FILENAME@)),
        r matches Err(e) ==> (e matches AppError::Config(m) && m@ == "Could not determine config directory"@),
{
    match config_dir() {
        Ok(d) => {
            let ghost base = choose|base: Seq<char>| d@ == path_join(base, APP_IDENTIFIER@);
            let p = config_file_path(d.as_str());
            assert(p@ == path_join(path_join(base, APP_IDENTIFIER@), CONFIG_FILENAME@));
            Ok(p)
        },
        Err(e) => Err(e),
    }
}

/// An update of a text field changes that field only.
pub proof fn law_update_changes_only_the_field(c: ConfigView, field: Seq<char>, value: Seq<char>)
    requires
        with_text_field(c, field, value) is Some,
    ensures
        field_update(c, field, value) is Ok,
        field == "language"@ ==> field_update(c, field, value) == Ok::<ConfigView, Seq<char>>(
            ConfigView { language: value, ..c },
        ),
        field == "api_key"@ ==> field_update(c, field, value) == Ok::<ConfigView, Seq<char>>(
            ConfigView { api_key: value, ..c },
        ),
{
    reveal_strlit("api_key");
    reveal_strlit("api_base_url");
    reveal_strlit("model");
    reveal_strlit("language");
    if field == "language"@ {
        assert(field.len() == 8);
        assert(field != "api_key"@);
        assert(field != "api_base_url"@);
        assert(field != "model"@);
        assert(with_text_field(c, field, value) == Some(ConfigView { language: value, ..c }));
    }
}

/// Updating any text field sets that field to the given value and leaves
/// every other setting as it was.
pub proof fn law_text_field_update_sets_only_that_field(c: ConfigView, x: Seq<char>)
    ensures
        field_update(c, "api_key"@, x) == Ok::<ConfigView, Seq<char>>(ConfigView { api_key: x, ..c }),
        field_update(c, "api_base_url"@, x) == Ok::<ConfigView, Seq<char>>(ConfigView { api_base_url: x, ..c }),
        field_update(c, "model"@, x) == Ok::<ConfigView, Seq<char>>(ConfigView { model: x, ..c }),
        field_update(c, "language"@, x) == Ok::<ConfigView, Seq<char>>(ConfigView { language: x, ..c }),
        field_update(c, "hotkey"@, x) == Ok::<ConfigView, Seq<char>>(ConfigView { hotkey: x, ..c }),
        field_update(c, "model_path"@, x) == Ok::<ConfigView, Seq<char>>(ConfigView { model_path: x, ..c }),
        field_update(c, "stt_model"@, x) == Ok::<ConfigView, Seq<char>>(ConfigView { stt_model: x, ..c }),
        field_update(c, "input_device"@, x) == Ok::<ConfigView, Seq<char>>(ConfigView { input_device: x, ..c }),
        field_update(c, "hf_endpoint"@, x) == Ok::<ConfigView, Seq<char>>(ConfigView { hf_endpoint: x, ..c }),
{
    reveal_strlit("api_key");
    reveal_strlit("api_base_url");
    reveal_strlit("model");
    reveal_strlit("language");
    reveal_strlit("hotkey");
    reveal_strlit("model_path");
    reveal_strlit("stt_model");
    reveal_strlit("input_device");
    reveal_strlit("hf_endpoint");
    assert("api_key"@.len() == 7);
    assert("api_base_url"@.len() == 12);
    assert("model"@.len() == 5);
    assert("language"@.len() == 8);
    assert("hotkey"@.len() == 6);
    assert("model_path"@.len() == 10);
    assert("stt_model"@.len() == 9);
    assert("input_device"@.len() == 12);
    assert("hf_endpoint"@.len() == 11);
    assert("api_base_url"@[0] != "input_device"@[0]);
}

/// Normalizing twice is the same as normalizing once: `zh-CN` is not legacy.
pub proof fn law_normalized_language_is_current(c: ConfigView)
    ensures
        !has_legacy_language((ConfigView { language: "zh-CN"@, ..c })),
{
    reveal_strlit("zh");
    reveal_strlit("zh-CN");
    assert("zh-CN"@.len() != "zh"@.len());
}

} // verus!
