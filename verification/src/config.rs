//! Application configuration: the settings, their defaults, which API key
//! each provider uses, and the warnings that an unusable setting deserves.

use vstd::prelude::*;
use crate::text::{str_eq, push_char};

verus! {

/// Transcription strategy when the embedded model is available.
#[derive(Debug, Clone, Copy, PartialEq, Eq, Structural)]
pub enum TranscriptionStrategy {
    /// Only use the embedded model, fail if unavailable.
    EmbeddedOnly,
    /// Try the embedded model first, fall back to cloud providers.
    EmbeddedFirst,
    /// Only use cloud or local-server providers.
    CloudOnly,
}

impl Default for TranscriptionStrategy {
    fn default() -> (r: Self)
        ensures
            r == TranscriptionStrategy::EmbeddedFirst,
    {
        TranscriptionStrategy::EmbeddedFirst
    }
}

/// Quantization mode for the embedded model's weights.
#[derive(Debug, Clone, Copy, PartialEq, Eq, Structural)]
pub enum QuantizationMode {
    F32,
    F16,
}

impl Default for QuantizationMode {
    fn default() -> (r: Self)
        ensures
            r == QuantizationMode::F32,
    {
        QuantizationMode::F32
    }
}

/// Configuration for the locally embedded Whisper model.
#[derive(Debug, Clone)]
pub struct LocalModelConfig {
    /// Directory to cache downloaded model files.
    pub model_cache_dir: String,
    /// Hugging Face repo ID of the model.
    pub repo_id: String,
    /// Model revision or branch.
    pub revision: String,
    /// Weight quantization mode.
    pub quantization: QuantizationMode,
    /// IEEE 754 bit pattern of the decoding temperature (all zero bits: 0.0,
    /// greedy decoding).
    pub temperature_bits: u64,
}

/// Settings for transcription.
#[derive(Debug, Clone)]
pub struct TranscriptionConfig {
    /// Primary provider: "embedded", "lmstudio", "google", "openai", or "openrouter".
    pub provider: String,
    /// Strategy for falling back from the embedded model.
    pub strategy: TranscriptionStrategy,
    /// Configuration of the embedded Whisper model.
    pub embedded: LocalModelConfig,
    /// Base URL of a local server (LM Studio, Ollama, ...).
    pub local_url: String,
    /// Model name for local transcription.
    pub local_model: String,
    /// Google Cloud Speech-to-Text API key.
    pub google_api_key: String,
    /// OpenAI API key.
    pub openai_api_key: String,
    /// OpenRouter API key.
    pub openrouter_api_key: String,
    /// Language code.
    pub language: String,
}

/// Global hotkeys.
#[derive(Debug, Clone)]
pub struct HotkeyConfig {
    /// Hotkey for voice recording.
    pub record: String,
    /// Hotkey for AI shortcuts.
    pub ai_shortcut: String,
}

/// Settings for AI shortcuts.
#[derive(Debug, Clone)]
pub struct AiShortcutConfig {
    /// Dedicated API key (the transcription keys are used when this is empty).
    pub api_key: String,
    /// Provider: "lmstudio", "openai", or "openrouter".
    pub provider: String,
    /// Model to use.
    pub model: String,
    /// Base URL of a local server (LM Studio, Ollama, ...).
    pub local_url: String,
}

/// The whole configuration.
#[derive(Debug, Clone)]
pub struct Config {
    pub transcription: TranscriptionConfig,
    pub hotkeys: HotkeyConfig,
    pub ai_shortcuts: AiShortcutConfig,
}

/// The project directories of the application, as the `directories` crate
/// finds them for the current user.
#[verifier::external_type_specification]
#[verifier::external_body]
pub struct ExProjectDirs(directories::ProjectDirs);

/// The qualifier, organization and application name under which the
/// application's directories are looked up: `com`, `ottex`, `Ottex`.
pub fn project_names() -> (r: (&'static str, &'static str, &'static str))
    ensures
        r.0@ == "com"@,
        r.1@ == "ottex"@,
        r.2@ == "Ottex"@,
{
    ("com", "ottex", "Ottex")
}

/// Calls `directories::ProjectDirs::from`. The answer depends on the user's
/// environment (home directory), so nothing is stated of it.
#[verifier::external_body]
fn project_dirs_from(qualifier: &str, organization: &str, application: &str) -> Option<
    directories::ProjectDirs,
> {
    directories::ProjectDirs::from(qualifier, organization, application)
}

/// Calls `directories::ProjectDirs::config_dir` and converts the path to a
/// string. Nothing is stated of the path.
#[verifier::external_body]
fn project_config_dir(dirs: &directories::ProjectDirs) -> String {
    dirs.config_dir().to_string_lossy().to_string()
}

/// Calls `directories::ProjectDirs::cache_dir` and converts the path to a
/// string. Nothing is stated of the path.
#[verifier::external_body]
fn project_cache_dir(dirs: &directories::ProjectDirs) -> String {
    dirs.cache_dir().to_string_lossy().to_string()
}

/// `base` joined with the relative path `name`, with `/` as separator
/// (`Path::join` on Unix).
pub open spec fn path_join(base: Seq<char>, name: Seq<char>) -> Seq<char> {
    if base.len() == 0 || base.last() == '/' {
        base + name
    } else {
        base + seq!['/'] + name
    }
}

/// Joins `base` and the relative path `name`.
pub fn join_path(base: &str, name: &str) -> (r: String)
    ensures
        r@ == path_join(base@, name@),
{
    let mut r = base.to_owned();
    let n = base.unicode_len();
    if n > 0 && base.get_char(n - 1) != '/' {
        push_char(&mut r, '/');
    }
    r.append(name);
    r
}

/// The model cache directory, given the project cache directory if one was found.
pub open spec fn model_cache_dir_spec(project_cache: Option<Seq<char>>) -> Seq<char> {
    match project_cache {
        Some(d) => path_join(d, "models"@),
        None => "~/.cache/ottex/models"@,
    }
}

/// The model cache directory: `models` under the project cache directory,
/// or `~/.cache/ottex/models` when there is none.
pub fn model_cache_dir_from(project_cache: Option<String>) -> (r: String)
    ensures
        r@ == model_cache_dir_spec(
            match project_cache {
                Some(d) => Some(d@),
                None => None,
            },
        ),
{
    match project_cache {
        Some(d) => join_path(d.as_str(), "models"),
        None => "~/.cache/ottex/models".to_owned(),
    }
}

/// The default model cache directory for this user: the directories of
/// [`project_names`] are looked up, and [`model_cache_dir_from`] gives the
/// answer from the cache directory found, if any.
pub fn default_model_cache_dir() -> (r: String)
    ensures
        exists|d: Option<Seq<char>>| r@ == model_cache_dir_spec(d),
{
    let (qualifier, organization, application) = project_names();
    let found = match project_dirs_from(qualifier, organization, application) {
        Some(dirs) => Some(project_cache_dir(&dirs)),
        None => None,
    };
    let r = model_cache_dir_from(found);
    assert(r@ == model_cache_dir_spec(
        match found {
            Some(d) => Some(d@),
            None => None,
        },
    ));
    r
}

/// Default Hugging Face repo of the embedded model.
pub fn default_repo_id() -> (r: String)
    ensures
        r@ == "openai/whisper-large-v3-turbo"@,
{
    "openai/whisper-large-v3-turbo".to_owned()
}

/// Default model revision.
pub fn default_revision() -> (r: String)
    ensures
        r@ == "main"@,
{
    "main".to_owned()
}

/// Default transcription provider.
pub fn default_provider() -> (r: String)
    ensures
        r@ == "embedded"@,
{
    "embedded".to_owned()
}

/// Default URL of a local OpenAI-compatible server.
pub fn default_local_url() -> (r: String)
    ensures
        r@ == "http://localhost:1234/v1"@,
{
    "http://localhost:1234/v1".to_owned()
}

/// Default model for local transcription.
pub fn default_local_transcription_model() -> (r: String)
    ensures
        r@ == "qwen3-asr-1.7b"@,
{
    "qwen3-asr-1.7b".to_owned()
}

/// Default language code.
pub fn default_language() -> (r: String)
    ensures
        r@ == "en-US"@,
{
    "en-US".to_owned()
}

/// Default recording hotkey.
pub fn default_record_hotkey() -> (r: String)
    ensures
        r@ == "Alt+Space"@,
{
    "Alt+Space".to_owned()
}

/// Default AI shortcut hotkey.
pub fn default_shortcut_hotkey() -> (r: String)
    ensures
        r@ == "Ctrl+Shift+R"@,
{
    "Ctrl+Shift+R".to_owned()
}

/// Default AI shortcut provider.
pub fn default_ai_provider() -> (r: String)
    ensures
        r@ == "lmstudio"@,
{
    "lmstudio".to_owned()
}

/// Default AI shortcut model.
pub fn default_ai_model() -> (r: String)
    ensures
        r@ == "qwen3-8b"@,
{
    "qwen3-8b".to_owned()
}

impl Default for LocalModelConfig {
    fn default() -> (r: Self)
        ensures
            exists|d: Option<Seq<char>>| r.model_cache_dir@ == model_cache_dir_spec(d),
            r.repo_id@ == "openai/whisper-large-v3-turbo"@,
            r.revision@ == "main"@,
            r.quantization == QuantizationMode::F32,
            r.temperature_bits == 0,
    {
        LocalModelConfig {
            model_cache_dir: default_model_cache_dir(),
            repo_id: default_repo_id(),
            revision: default_revision(),
            quantization: QuantizationMode::default(),
            temperature_bits: 0,
        }
    }
}

impl Default for TranscriptionConfig {
    fn default() -> (r: Self)
        ensures
            r.provider@ == "embedded"@,
            r.strategy == TranscriptionStrategy::EmbeddedFirst,
            exists|d: Option<Seq<char>>| r.embedded.model_cache_dir@ == model_cache_dir_spec(d),
            r.embedded.repo_id@ == "openai/whisper-large-v3-turbo"@,
            r.embedded.revision@ == "main"@,
            r.embedded.quantization == QuantizationMode::F32,
            r.embedded.temperature_bits == 0,
            r.local_url@ == "http://localhost:1234/v1"@,
            r.local_model@ == "qwen3-asr-1.7b"@,
            r.google_api_key@ == Seq::<char>::empty(),
            r.openai_api_key@ == Seq::<char>::empty(),
            r.openrouter_api_key@ == Seq::<char>::empty(),
            r.language@ == "en-US"@,
    {
        TranscriptionConfig {
            provider: default_provider(),
            strategy: TranscriptionStrategy::default(),
            embedded: LocalModelConfig::default(),
            local_url: default_local_url(),
            local_model: default_local_transcription_model(),
            google_api_key: String::new(),
            openai_api_key: String::new(),
            openrouter_api_key: String::new(),
            language: default_language(),
        }
    }
}

impl Default for HotkeyConfig {
    fn default() -> (r: Self)
        ensures
            r.record@ == "Alt+Space"@,
            r.ai_shortcut@ == "Ctrl+Shift+R"@,
    {
        HotkeyConfig { record: default_record_hotkey(), ai_shortcut: default_shortcut_hotkey() }
    }
}

impl Default for AiShortcutConfig {
    fn default() -> (r: Self)
        ensures
            r.api_key@ == Seq::<char>::empty(),
            r.provider@ == "lmstudio"@,
            r.model@ == "qwen3-8b"@,
            r.local_url@ == "http://localhost:1234/v1"@,
    {
        AiShortcutConfig {
            api_key: String::new(),
            provider: default_ai_provider(),
            model: default_ai_model(),
            local_url: default_local_url(),
        }
    }
}

impl Default for Config {
    fn default() -> (r: Self)
        ensures
            r.transcription.provider@ == "embedded"@,
            r.transcription.strategy == TranscriptionStrategy::EmbeddedFirst,
            exists|d: Option<Seq<char>>|
                r.transcription.embedded.model_cache_dir@ == model_cache_dir_spec(d),
            r.transcription.embedded.repo_id@ == "openai/whisper-large-v3-turbo"@,
            r.transcription.embedded.revision@ == "main"@,
            r.transcription.embedded.quantization == QuantizationMode::F32,
            r.transcription.embedded.temperature_bits == 0,
            r.transcription.local_url@ == "http://localhost:1234/v1"@,
            r.transcription.local_model@ == "qwen3-asr-1.7b"@,
            r.transcription.google_api_key@ == Seq::<char>::empty(),
            r.transcription.openai_api_key@ == Seq::<char>::empty(),
            r.transcription.openrouter_api_key@ == Seq::<char>::empty(),
            r.transcription.language@ == "en-US"@,
            r.hotkeys.record@ == "Alt+Space"@,
            r.hotkeys.ai_shortcut@ == "Ctrl+Shift+R"@,
            r.ai_shortcuts.api_key@ == Seq::<char>::empty(),
            r.ai_shortcuts.provider@ == "lmstudio"@,
            r.ai_shortcuts.model@ == "qwen3-8b"@,
            r.ai_shortcuts.local_url@ == "http://localhost:1234/v1"@,
    {
        Config {
            transcription: TranscriptionConfig::default(),
            hotkeys: HotkeyConfig::default(),
            ai_shortcuts: AiShortcutConfig::default(),
        }
    }
}

/// A key, unless it is empty.
pub open spec fn present_key(k: Seq<char>) -> Option<Seq<char>> {
    if k.len() == 0 {
        None
    } else {
        Some(k)
    }
}

/// The characters of an optional string.
pub open spec fn opt_chars(o: Option<&str>) -> Option<Seq<char>> {
    match o {
        Some(s) => Some(s@),
        None => None,
    }
}

/// The API key that transcription with the configured provider uses: the
/// provider's own key when it is set; none for local providers, unknown
/// providers or an empty key.
pub open spec fn transcription_api_key_spec(c: Config) -> Option<Seq<char>> {
    let p = c.transcription.provider@;
    if p == "google"@ {
        present_key(c.transcription.google_api_key@)
    } else if p == "openai"@ {
        present_key(c.transcription.openai_api_key@)
    } else if p == "openrouter"@ {
        present_key(c.transcription.openrouter_api_key@)
    } else {
        None
    }
}

/// The API key for AI shortcuts: the dedicated key when set, else the
/// transcription key of the same provider (OpenAI or OpenRouter) when set.
pub open spec fn ai_shortcut_api_key_spec(c: Config) -> Option<Seq<char>> {
    let p = c.ai_shortcuts.provider@;
    if c.ai_shortcuts.api_key@.len() != 0 {
        Some(c.ai_shortcuts.api_key@)
    } else if p == "openai"@ {
        present_key(c.transcription.openai_api_key@)
    } else if p == "openrouter"@ {
        present_key(c.transcription.openrouter_api_key@)
    } else {
        None
    }
}

/// The transcription providers the application knows.
pub open spec fn known_transcription_provider(p: Seq<char>) -> bool {
    p == "embedded"@ || p == "lmstudio"@ || p == "google"@ || p == "openai"@ || p == "openrouter"@
}

/// The AI shortcut providers the application knows.
pub open spec fn known_ai_provider(p: Seq<char>) -> bool {
    p == "lmstudio"@ || p == "openai"@ || p == "openrouter"@
}

/// Warning for an unknown transcription provider.
pub open spec fn unknown_transcription_provider_msg(p: Seq<char>) -> Seq<char> {
    "Unknown transcription provider '"@ + p
        + "', expected one of [\"embedded\", \"lmstudio\", \"google\", \"openai\", \"openrouter\"]"@
}

/// Warning for an unknown AI shortcut provider.
pub open spec fn unknown_ai_provider_msg(p: Seq<char>) -> Seq<char> {
    "Unknown AI shortcuts provider '"@ + p + "', expected one of [\"lmstudio\", \"openai\", \"openrouter\"]"@
}

/// Warning for a transcription provider without a key.
pub open spec fn missing_transcription_key_msg(p: Seq<char>) -> Seq<char> {
    "No API key configured for transcription provider '"@ + p + "'"@
}

/// Warning for an AI shortcut provider without a key.
pub open spec fn missing_ai_key_msg(p: Seq<char>) -> Seq<char> {
    "No API key configured for AI shortcuts provider '"@ + p + "'"@
}

/// `msg` alone when `cond` holds, else nothing.
pub open spec fn warn_if(cond: bool, msg: Seq<char>) -> Seq<Seq<char>> {
    if cond {
        seq![msg]
    } else {
        Seq::empty()
    }
}

/// The warnings for a configuration, in order: an unknown transcription
/// provider, an unknown AI provider, a missing transcription key (not needed
/// by the local providers), a missing AI shortcut key (not needed by LM Studio).
pub open spec fn validate_spec(c: Config) -> Seq<Seq<char>> {
    let tp = c.transcription.provider@;
    let ap = c.ai_shortcuts.provider@;
    warn_if(!known_transcription_provider(tp), unknown_transcription_provider_msg(tp))
        + warn_if(!known_ai_provider(ap), unknown_ai_provider_msg(ap))
        + warn_if(
        tp != "lmstudio"@ && tp != "embedded"@ && transcription_api_key_spec(c) is None,
        missing_transcription_key_msg(tp),
    ) + warn_if(ap != "lmstudio"@ && ai_shortcut_api_key_spec(c) is None, missing_ai_key_msg(ap))
}

/// The characters of each string.
pub open spec fn strings_view(v: Seq<String>) -> Seq<Seq<char>> {
    v.map_values(|s: String| s@)
}

/// `key` unless it is empty.
fn nonempty(key: &String) -> (r: Option<&str>)
    ensures
        opt_chars(r) == present_key(key@),
{
    if key.as_str().unicode_len() == 0 {
        None
    } else {
        Some(key.as_str())
    }
}

/// `a`, `b` and `c` one after another.
fn concat3(a: &str, b: &str, c: &str) -> (r: String)
    ensures
        r@ == a@ + b@ + c@,
{
    let mut r = a.to_owned();
    r.append(b);
    r.append(c);
    r
}

/// The configuration directory, given the project configuration directory
/// if one was found: that directory, or "Failed to get project directories".
pub fn config_dir_from(project_config: Option<String>) -> (r: Result<String, String>)
    ensures
        match project_config {
            Some(d) => r matches Ok(p) && p@ == d@,
            None => r matches Err(e) && e@ == "Failed to get project directories"@,
        },
{
    match project_config {
        Some(d) => Ok(d),
        None => Err("Failed to get project directories".to_owned()),
    }
}

impl Config {
    /// The configuration directory of the application for this user: the
    /// directories of [`project_names`] are looked up, and
    /// [`config_dir_from`] gives the answer from the configuration directory
    /// found, if any.
    pub fn config_dir() -> (r: Result<String, String>)
        ensures
            r matches Err(e) ==> e@ == "Failed to get project directories"@,
    {
        let (qualifier, organization, application) = project_names();
        let found = match project_dirs_from(qualifier, organization, application) {
            Some(dirs) => Some(project_config_dir(&dirs)),
            None => None,
        };
        config_dir_from(found)
    }

    /// The path of the configuration file: `config.toml` in [`Config::config_dir`].
    pub fn config_path() -> (r: Result<String, String>)
        ensures
            r matches Err(e) ==> e@ == "Failed to get project directories"@,
            r matches Ok(p) ==> exists|d: Seq<char>| p@ == path_join(d, "config.toml"@),
    {
        match Self::config_dir() {
            Ok(d) => {
                let p = join_path(d.as_str(), "config.toml");
                Ok(p)
            },
            Err(e) => Err(e),
        }
    }

    /// The effective API key for transcription with the configured provider.
    /// `None` for local providers (no key needed) or if the key is missing.
    pub fn get_transcription_api_key(&self) -> (r: Option<&str>)
        ensures
            opt_chars(r) == transcription_api_key_spec(*self),
    {
        let p = self.transcription.provider.as_str();
        if str_eq(p, "google") {
            nonempty(&self.transcription.google_api_key)
        } else if str_eq(p, "openai") {
            nonempty(&self.transcription.openai_api_key)
        } else if str_eq(p, "openrouter") {
            nonempty(&self.transcription.openrouter_api_key)
        } else {
            None
        }
    }

    /// The effective API key for AI shortcuts: the dedicated key first, then
    /// the key of the same provider from the transcription settings.
    pub fn get_ai_shortcut_api_key(&self) -> (r: Option<&str>)
        ensures
            opt_chars(r) == ai_shortcut_api_key_spec(*self),
    {
        if self.ai_shortcuts.api_key.as_str().unicode_len() != 0 {
            return Some(self.ai_shortcuts.api_key.as_str());
        }
        let p = self.ai_shortcuts.provider.as_str();
        if str_eq(p, "openai") {
            nonempty(&self.transcription.openai_api_key)
        } else if str_eq(p, "openrouter") {
            nonempty(&self.transcription.openrouter_api_key)
        } else {
            None
        }
    }

    /// Checks the configuration and returns a list of warnings.
    pub fn validate(&self) -> (warnings: Vec<String>)
        ensures
            strings_view(warnings@) == validate_spec(*self),
    {
        let mut warnings: Vec<String> = Vec::new();
        let tp = self.transcription.provider.as_str();
        let ap = self.ai_shortcuts.provider.as_str();
        let ghost c = *self;

        let known_tp = str_eq(tp, "embedded") || str_eq(tp, "lmstudio") || str_eq(tp, "google")
            || str_eq(tp, "openai") || str_eq(tp, "openrouter");
        if !known_tp {
            warnings.push(
                concat3(
                    "Unknown transcription provider '",
                    tp,
                    "', expected one of [\"embedded\", \"lmstudio\", \"google\", \"openai\", \"openrouter\"]",
                ),
            );
        }
        let ghost w1 = warnings@;
        assert(strings_view(w1) =~= warn_if(!known_transcription_provider(tp@), unknown_transcription_provider_msg(tp@)));

        let known_ap = str_eq(ap, "lmstudio") || str_eq(ap, "openai") || str_eq(ap, "openrouter");
        if !known_ap {
            warnings.push(
                concat3(
                    "Unknown AI shortcuts provider '",
                    ap,
                    "', expected one of [\"lmstudio\", \"openai\", \"openrouter\"]",
                ),
            );
        }
        let ghost w2 = warnings@;
        assert(strings_view(w2) =~= strings_view(w1) + warn_if(!known_ai_provider(ap@), unknown_ai_provider_msg(ap@)));

        if !str_eq(tp, "lmstudio") && !str_eq(tp, "embedded")
            && self.get_transcription_api_key().is_none() {
            warnings.push(concat3("No API key configured for transcription provider '", tp, "'"));
        }
        let ghost w3 = warnings@;
        assert(strings_view(w3) =~= strings_view(w2) + warn_if(
            tp@ != "lmstudio"@ && tp@ != "embedded"@ && transcription_api_key_spec(c) is None,
            missing_transcription_key_msg(tp@),
        ));

        if !str_eq(ap, "lmstudio") && self.get_ai_shortcut_api_key().is_none() {
            warnings.push(concat3("No API key configured for AI shortcuts provider '", ap, "'"));
        }
        assert(strings_view(warnings@) =~= strings_view(w3) + warn_if(
            ap@ != "lmstudio"@ && ai_shortcut_api_key_spec(c) is None,
            missing_ai_key_msg(ap@),
        ));
        warnings
    }
}

/// A configuration that transcribes locally ("embedded" or "lmstudio") and
/// runs AI shortcuts on LM Studio draws no warning, whatever its keys.
pub proof fn lemma_local_setup_no_warnings(c: Config)
    requires
        c.transcription.provider@ == "embedded"@ || c.transcription.provider@ == "lmstudio"@,
        c.ai_shortcuts.provider@ == "lmstudio"@,
    ensures
        validate_spec(c).len() == 0,
{
}

/// A cloud transcription provider without its key always draws the
/// missing-key warning.
pub proof fn lemma_cloud_without_key_warns(c: Config)
    requires
        transcription_api_key_spec(c) is None,
        c.transcription.provider@ == "google"@ || c.transcription.provider@ == "openai"@
            || c.transcription.provider@ == "openrouter"@,
    ensures
        validate_spec(c).contains(missing_transcription_key_msg(c.transcription.provider@)),
{
    let tp = c.transcription.provider@;
    let ap = c.ai_shortcuts.provider@;
    let a = warn_if(!known_transcription_provider(tp), unknown_transcription_provider_msg(tp));
    let b = warn_if(!known_ai_provider(ap), unknown_ai_provider_msg(ap));
    let m = missing_transcription_key_msg(tp);
    assert(tp != "lmstudio"@ && tp != "embedded"@) by {
        reveal_strlit("lmstudio");
        reveal_strlit("embedded");
        reveal_strlit("google");
        reveal_strlit("openai");
        reveal_strlit("openrouter");
    }
    assert(a.len() == 0);
    assert(validate_spec(c)[b.len() as int] == m);
}

/// An unknown transcription provider is always the first warning.
pub proof fn lemma_unknown_provider_warned_first(c: Config)
    requires
        !known_transcription_provider(c.transcription.provider@),
    ensures
        validate_spec(c).len() >= 1,
        validate_spec(c)[0] == unknown_transcription_provider_msg(c.transcription.provider@),
{
}

/// The key for AI shortcuts is never borrowed from another provider: it is
/// the dedicated key, or the provider's own transcription key (OpenAI's for
/// "openai", OpenRouter's for "openrouter"), and never empty. The dedicated
/// key wins when set; without it, "openai" and "openrouter" get their own
/// key exactly when it is set, and any other provider gets none.
pub proof fn lemma_ai_key_source(c: Config)
    ensures
        ai_shortcut_api_key_spec(c) matches Some(k) ==> k.len() > 0 && (k == c.ai_shortcuts.api_key@
            || (c.ai_shortcuts.provider@ == "openai"@ && k == c.transcription.openai_api_key@)
            || (c.ai_shortcuts.provider@ == "openrouter"@ && k == c.transcription.openrouter_api_key@)),
        c.ai_shortcuts.api_key@.len() > 0 ==> ai_shortcut_api_key_spec(c) == Some(c.ai_shortcuts.api_key@),
        c.ai_shortcuts.api_key@.len() == 0 && c.ai_shortcuts.provider@ == "openai"@ ==> (
        ai_shortcut_api_key_spec(c) is Some <==> c.transcription.openai_api_key@.len() > 0),
        c.ai_shortcuts.api_key@.len() == 0 && c.ai_shortcuts.provider@ == "openrouter"@ ==> (
        ai_shortcut_api_key_spec(c) is Some <==> c.transcription.openrouter_api_key@.len() > 0),
        c.ai_shortcuts.api_key@.len() == 0 && c.ai_shortcuts.provider@ != "openai"@
            && c.ai_shortcuts.provider@ != "openrouter"@ ==> ai_shortcut_api_key_spec(c) is None,
{
    reveal_strlit("google");
    reveal_strlit("openai");
    reveal_strlit("openrouter");
    assert("openrouter"@.len() != "openai"@.len());
    assert("openrouter"@.len() != "google"@.len());
    assert("google"@[0] != "openai"@[0]);
}

/// The key for transcription is the configured provider's own key, never
/// empty, and local or unknown providers get none.
pub proof fn lemma_transcription_key_source(c: Config)
    ensures
        transcription_api_key_spec(c) matches Some(k) ==> k.len() > 0 && (
        (c.transcription.provider@ == "google"@ && k == c.transcription.google_api_key@)
            || (c.transcription.provider@ == "openai"@ && k == c.transcription.openai_api_key@)
            || (c.transcription.provider@ == "openrouter"@ && k == c.transcription.openrouter_api_key@)),
        c.transcription.provider@ == "google"@ ==> (transcription_api_key_spec(c) is Some
            <==> c.transcription.google_api_key@.len() > 0),
        c.transcription.provider@ == "openai"@ ==> (transcription_api_key_spec(c) is Some
            <==> c.transcription.openai_api_key@.len() > 0),
        c.transcription.provider@ == "openrouter"@ ==> (transcription_api_key_spec(c) is Some
            <==> c.transcription.openrouter_api_key@.len() > 0),
{
    reveal_strlit("google");
    reveal_strlit("openai");
    reveal_strlit("openrouter");
    assert("openrouter"@.len() != "openai"@.len());
    assert("openrouter"@.len() != "google"@.len());
    assert("google"@[0] != "openai"@[0]);
}

/// Any AI shortcut provider other than LM Studio (known or not) that ends up
/// with no key draws the missing-key warning; LM Studio never does.
pub proof fn lemma_ai_without_key_warns(c: Config)
    ensures
        c.ai_shortcuts.provider@ != "lmstudio"@ && ai_shortcut_api_key_spec(c) is None
            ==> validate_spec(c).contains(missing_ai_key_msg(c.ai_shortcuts.provider@)),
        c.ai_shortcuts.provider@ == "lmstudio"@ ==> !validate_spec(c).contains(
            missing_ai_key_msg("lmstudio"@),
        ),
{
    let tp = c.transcription.provider@;
    let ap = c.ai_shortcuts.provider@;
    let a = warn_if(!known_transcription_provider(tp), unknown_transcription_provider_msg(tp));
    let b = warn_if(!known_ai_provider(ap), unknown_ai_provider_msg(ap));
    let t = warn_if(
        tp != "lmstudio"@ && tp != "embedded"@ && transcription_api_key_spec(c) is None,
        missing_transcription_key_msg(tp),
    );
    let w = warn_if(ap != "lmstudio"@ && ai_shortcut_api_key_spec(c) is None, missing_ai_key_msg(ap));
    assert(validate_spec(c) == a + b + t + w);
    if ap != "lmstudio"@ && ai_shortcut_api_key_spec(c) is None {
        assert(validate_spec(c)[(a.len() + b.len() + t.len()) as int] == missing_ai_key_msg(ap));
    }
    if ap == "lmstudio"@ {
        let m = missing_ai_key_msg("lmstudio"@);
        reveal_strlit("No API key configured for AI shortcuts provider '");
        reveal_strlit("No API key configured for transcription provider '");
        reveal_strlit("Unknown transcription provider '");
        reveal_strlit("lmstudio");
        reveal_strlit("embedded");
        reveal_strlit("google");
        reveal_strlit("openai");
        reveal_strlit("openrouter");
        assert(known_ai_provider(ap));
        assert(b.len() == 0 && w.len() == 0);
        assert(m[0] == 'N' && m[26] == 'A');
        assert forall|j: int| 0 <= j < validate_spec(c).len() implies validate_spec(c)[j] != m by {
            if j < a.len() {
                assert(validate_spec(c)[j][0] == 'U');
            } else {
                assert(validate_spec(c)[j][26] == 't');
            }
        }
    }
}

} // verus!
