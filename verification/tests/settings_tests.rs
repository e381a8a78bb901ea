use translate_me::settings::{
    commit_saved, default_base_url, default_model, default_provider, startup_settings, Provider, DEFAULT_BASE_URL, DEFAULT_HOTKEY, LEGACY_DEFAULT_HOTKEY,
};
use translate_me::{default_font_size, default_hotkey, default_source, default_target, Settings};

fn stored(hotkey: &str) -> Settings {
    Settings {
        api_key: "sk-test".to_string(),
        provider: Provider::Anthropic,
        base_url: "https://example.org/v1".to_string(),
        model: "chat-model-b".to_string(),
        source_lang: "Chinese".to_string(),
        target_lang: "Japanese".to_string(),
        hotkey: hotkey.to_string(),
        font_size: 20,
    }
}

#[test]
fn defaults() {
    assert_eq!(default_source(), "auto");
    assert_eq!(default_target(), "English");
    assert_eq!(default_hotkey(), "Alt+Space");
    assert_eq!(default_font_size(), 15);
    assert_eq!(DEFAULT_HOTKEY, "Alt+Space");
    assert_eq!(default_provider(), Provider::OpenAi);
    assert_eq!(default_model(), "deepseek-chat");
}

#[test]
fn base_url_prefers_the_environment() {
    assert_eq!(default_base_url(None), "https://api.deepseek.com/v1");
    assert_eq!(default_base_url(Some("http://localhost:8080".to_string())), "http://localhost:8080");
    assert_eq!(DEFAULT_BASE_URL, "https://api.deepseek.com/v1");
}

#[test]
fn first_run_settings_come_from_the_environment() {
    let s = Settings::from_env(None, None);
    assert_eq!(s.api_key, "");
    assert_eq!(s.base_url, "https://api.deepseek.com/v1");
    assert_eq!(s.source_lang, "auto");
    assert_eq!(s.target_lang, "English");
    assert_eq!(s.hotkey, "Alt+Space");
    assert_eq!(s.font_size, 15);
    assert_eq!(s.provider, Provider::OpenAi);
    assert_eq!(s.model, "deepseek-chat");

    let s = Settings::from_env(Some("sk-1".to_string()), Some("https://proxy/v1".to_string()));
    assert_eq!(s.api_key, "sk-1");
    assert_eq!(s.base_url, "https://proxy/v1");
}

#[test]
fn legacy_hotkey_is_migrated() {
    let mut s = stored(LEGACY_DEFAULT_HOTKEY);
    assert!(s.migrate_legacy_hotkey());
    assert_eq!(s.hotkey, "Alt+Space");
    assert_eq!(s.api_key, "sk-test");
    assert_eq!(s.source_lang, "Chinese");
    assert_eq!(s.font_size, 20);
    assert_eq!(s.provider, Provider::Anthropic);
    assert_eq!(s.model, "chat-model-b");
    // a second migration changes nothing
    assert!(!s.migrate_legacy_hotkey());
    assert_eq!(s.hotkey, "Alt+Space");
}

#[test]
fn other_hotkeys_are_kept() {
    let mut s = stored("Ctrl+Shift+Y");
    assert!(!s.migrate_legacy_hotkey());
    assert_eq!(s.hotkey, "Ctrl+Shift+Y");
    // the comparison is exact: a differently cased legacy value stays
    let mut s = stored("commandorcontrol+shift+t");
    assert!(!s.migrate_legacy_hotkey());
    assert_eq!(s.hotkey, "commandorcontrol+shift+t");
}

#[test]
fn startup_prefers_stored_settings() {
    let env = Settings::from_env(Some("sk-env".to_string()), None);
    let (s, rewrite) = startup_settings(env.clone(), Some(stored("Alt+K")));
    assert_eq!(s.api_key, "sk-test");
    assert_eq!(s.hotkey, "Alt+K");
    assert!(!rewrite);

    let (s, rewrite) = startup_settings(env.clone(), None);
    assert_eq!(s.api_key, "sk-env");
    assert_eq!(s.hotkey, "Alt+Space");
    assert!(!rewrite);

    let (s, rewrite) = startup_settings(env, Some(stored(LEGACY_DEFAULT_HOTKEY)));
    assert_eq!(s.hotkey, "Alt+Space");
    assert_eq!(s.target_lang, "Japanese");
    assert!(rewrite);
}

#[test]
fn a_registered_save_is_read_back() {
    let mut current = stored("Alt+K");
    let new = stored("Ctrl+Shift+Y");
    assert_eq!(commit_saved(&mut current, new, Ok(())), Ok(()));
    assert_eq!(current.hotkey, "Ctrl+Shift+Y");
}

#[test]
fn a_refused_save_changes_nothing() {
    let mut current = stored("Alt+K");
    let mut new = stored("Ctrl+Shift+Y");
    new.api_key = "sk-new".to_string();
    let r = commit_saved(&mut current, new, Err("HotKey already registered".to_string()));
    assert_eq!(r, Err("快捷键注册失败（可能被占用）: HotKey already registered".to_string()));
    assert_eq!(current.hotkey, "Alt+K");
    assert_eq!(current.api_key, "sk-test");
}
