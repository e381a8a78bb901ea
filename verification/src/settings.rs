use vstd::prelude::*;

use crate::text::concat_strs;

verus! {

/// The shortcut that summons the overlay when nothing else is configured.
pub const DEFAULT_HOTKEY: &'static str = "Alt+Space";

/// The shortcut that earlier releases used as their default.
pub const LEGACY_DEFAULT_HOTKEY: &'static str = "CommandOrControl+Shift+T";

/// The API endpoint used when `DEEPSEEK_BASE_URL` is not set.
pub const DEFAULT_BASE_URL: &'static str = "https://api.deepseek.com/v1";

/// The model asked for when nothing else is configured.
pub const DEFAULT_MODEL: &'static str = "deepseek-chat";

/// The kind of chat API the base URL speaks.
#[derive(Clone, Copy, Debug, PartialEq, Eq, Structural)]
pub enum Provider {
    /// OpenAI-compatible: `POST {base}/chat/completions` with a bearer token.
    OpenAi,
    /// Anthropic-compatible: `POST {base}/messages` with an `x-api-key` header.
    Anthropic,
}

/// The user-configurable settings.
#[derive(Clone, Debug)]
pub struct Settings {
    pub api_key: String,
    pub provider: Provider,
    pub base_url: String,
    pub model: String,
    /// Source language, or "auto" to let the model detect it.
    pub source_lang: String,
    pub target_lang: String,
    pub hotkey: String,
    /// Font size (px) of the floating input and its translation.
    pub font_size: u32,
}

/// The mathematical value of `Settings`: each string by its characters.
pub struct SettingsView {
    pub api_key: Seq<char>,
    pub provider: Provider,
    pub base_url: Seq<char>,
    pub model: Seq<char>,
    pub source_lang: Seq<char>,
    pub target_lang: Seq<char>,
    pub hotkey: Seq<char>,
    pub font_size: u32,
}

impl View for Settings {
    type V = SettingsView;

    open spec fn view(&self) -> SettingsView {
        SettingsView {
            api_key: self.api_key@,
            provider: self.provider,
            base_url: self.base_url@,
            model: self.model@,
            source_lang: self.source_lang@,
            target_lang: self.target_lang@,
            hotkey: self.hotkey@,
            font_size: self.font_size,
        }
    }
}

/// The base URL: the environment's value where it gives one, else `DEFAULT_BASE_URL`.
pub open spec fn base_url_from(env_value: Option<Seq<char>>) -> Seq<char> {
    match env_value {
        Some(v) => v,
        None => DEFAULT_BASE_URL@,
    }
}

/// The settings of a first run, seeded from the environment.
pub open spec fn settings_from_env(api_key: Option<Seq<char>>, base_url: Option<Seq<char>>) -> SettingsView {
    SettingsView {
        api_key: match api_key {
            Some(k) => k,
            None => Seq::empty(),
        },
        provider: Provider::OpenAi,
        base_url: base_url_from(base_url),
        model: DEFAULT_MODEL@,
        source_lang: "auto"@,
        target_lang: "English"@,
        hotkey: DEFAULT_HOTKEY@,
        font_size: 15,
    }
}

/// `s` with a hotkey left from earlier releases replaced by `DEFAULT_HOTKEY`.
pub open spec fn migrated(s: SettingsView) -> SettingsView {
    if s.hotkey == LEGACY_DEFAULT_HOTKEY@ {
        SettingsView { hotkey: DEFAULT_HOTKEY@, ..s }
    } else {
        s
    }
}

/// The settings a start-up runs with: the stored ones where they could be
/// read, else those seeded from the environment, then migrated.
pub open spec fn startup_view(from_env: SettingsView, stored: Option<SettingsView>) -> SettingsView {
    migrated(
        match stored {
            Some(s) => s,
            None => from_env,
        },
    )
}

/// The default source language: "auto", which lets the model detect it.
pub fn default_source() -> (s: String)
    ensures
        s@ == "auto"@,
{
    String::from_str("auto")
}

/// The default target language.
pub fn default_target() -> (s: String)
    ensures
        s@ == "English"@,
{
    String::from_str("English")
}

/// The default summon shortcut.
pub fn default_hotkey() -> (s: String)
    ensures
        s@ == DEFAULT_HOTKEY@,
{
    String::from_str(DEFAULT_HOTKEY)
}

/// The default provider: an OpenAI-compatible API.
pub fn default_provider() -> (p: Provider)
    ensures
        p == Provider::OpenAi,
{
    Provider::OpenAi
}

/// The default model.
pub fn default_model() -> (s: String)
    ensures
        s@ == DEFAULT_MODEL@,
{
    String::from_str(DEFAULT_MODEL)
}

/// The default font size, in pixels.
pub fn default_font_size() -> (n: u32)
    ensures
        n == 15,
{
    15
}

/// The base URL, given the value of `DEEPSEEK_BASE_URL` where the
/// environment holds one.
pub fn default_base_url(env_value: Option<String>) -> (s: String)
    ensures
        s@ == base_url_from(
            match env_value {
                Some(v) => Some(v@),
                None => None,
            },
        ),
{
    match env_value {
        Some(v) => v,
        None => String::from_str(DEFAULT_BASE_URL),
    }
}

impl Settings {
    /// The settings of a first run, given the values of `DEEPSEEK_API_KEY` and
    /// `DEEPSEEK_BASE_URL` where the environment holds them.
    pub fn from_env(api_key: Option<String>, base_url: Option<String>) -> (s: Settings)
        ensures
            s@ == settings_from_env(
                match api_key {
                    Some(k) => Some(k@),
                    None => None,
                },
                match base_url {
                    Some(v) => Some(v@),
                    None => None,
                },
            ),
    {
        let key = match api_key {
            Some(k) => k,
            None => String::new(),
        };
        Settings {
            api_key: key,
            provider: default_provider(),
            base_url: default_base_url(base_url),
            model: default_model(),
            source_lang: default_source(),
            target_lang: default_target(),
            hotkey: default_hotkey(),
            font_size: default_font_size(),
        }
    }

    /// Replaces a hotkey left from earlier releases by `DEFAULT_HOTKEY`;
    /// returns whether it did, that is, whether the settings need writing back.
    pub fn migrate_legacy_hotkey(&mut self) -> (changed: bool)
        ensures
            final(self)@ == migrated(old(self)@),
            changed == (old(self)@.hotkey == LEGACY_DEFAULT_HOTKEY@),
    {
        let legacy = String::from_str(LEGACY_DEFAULT_HOTKEY);
        if self.hotkey == legacy {
            self.hotkey = default_hotkey();
            true
        } else {
            false
        }
    }
}

/// The settings a start-up runs with, from those seeded by the environment and
/// those read from the settings file, if any; the flag says whether the
/// hotkey was migrated, so that the file is to be written back.
pub fn startup_settings(from_env: Settings, stored: Option<Settings>) -> (r: (Settings, bool))
    ensures
        r.0@ == startup_view(
            from_env@,
            match stored {
                Some(s) => Some(s@),
                None => None,
            },
        ),
        r.1 == ((match stored {
            Some(s) => s@,
            None => from_env@,
        }).hotkey == LEGACY_DEFAULT_HOTKEY@),
{
    let mut chosen = match stored {
        Some(s) => s,
        None => from_env,
    };
    let changed = chosen.migrate_legacy_hotkey();
    (chosen, changed)
}

/// Migrating twice is migrating once.
pub proof fn law_migration_idempotent(s: SettingsView)
    ensures
        migrated(migrated(s)) == migrated(s),
{
    reveal_strlit("Alt+Space");
    reveal_strlit("CommandOrControl+Shift+T");
    assert(DEFAULT_HOTKEY@ != LEGACY_DEFAULT_HOTKEY@) by {
        assert(DEFAULT_HOTKEY@.len() != LEGACY_DEFAULT_HOTKEY@.len());
    }
}

/// After start-up the hotkey is never the one of earlier releases, and every
/// other setting is the one that was stored (or seeded).
pub proof fn law_startup_never_legacy(from_env: SettingsView, stored: Option<SettingsView>)
    ensures
        startup_view(from_env, stored).hotkey != LEGACY_DEFAULT_HOTKEY@,
        ({
            let chosen = match stored {
                Some(s) => s,
                None => from_env,
            };
            let r = startup_view(from_env, stored);
            &&& r.api_key == chosen.api_key
            &&& r.provider == chosen.provider
            &&& r.base_url == chosen.base_url
            &&& r.model == chosen.model
            &&& r.source_lang == chosen.source_lang
            &&& r.target_lang == chosen.target_lang
            &&& r.font_size == chosen.font_size
            &&& (chosen.hotkey != LEGACY_DEFAULT_HOTKEY@ ==> r.hotkey == chosen.hotkey)
        }),
{
    reveal_strlit("Alt+Space");
    reveal_strlit("CommandOrControl+Shift+T");
    assert(DEFAULT_HOTKEY@.len() != LEGACY_DEFAULT_HOTKEY@.len());
}

/// The message given when a shortcut cannot be registered, from the
/// registrar's own account of why.
pub open spec fn registration_failed_view(detail: Seq<char>) -> Seq<char> {
    "快捷键注册失败（可能被占用）: "@ + detail
}

/// `registration_failed_view`, as a string.
pub fn registration_failed_message(detail: &str) -> (m: String)
    ensures
        m@ == registration_failed_view(detail@),
{
    concat_strs("快捷键注册失败（可能被占用）: ", detail)
}

/// The message given when the settings file cannot be written.
pub fn write_failed_message(detail: &str) -> (m: String)
    ensures
        m@ == "写入配置失败: "@ + detail@,
{
    concat_strs("写入配置失败: ", detail)
}

/// Commits saved settings once the global shortcut for their hotkey has been
/// registered (`registration` is `Err` with the registrar's account of why it
/// was not). A refused registration leaves the current settings as they were.
pub fn commit_saved(current: &mut Settings, new: Settings, registration: Result<(), String>) -> (r: Result<(), String>)
    ensures
        registration is Ok ==> r is Ok && final(current)@ == new@,
        registration matches Err(e) ==> (r matches Err(m) && m@ == registration_failed_view(e@)),
        registration is Err ==> final(current)@ == old(current)@,
{
    match registration {
        Ok(()) => {
            *current = new;
            Ok(())
        },
        Err(e) => Err(registration_failed_message(e.as_str())),
    }
}

} // verus!
