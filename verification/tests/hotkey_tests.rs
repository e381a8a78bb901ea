use translate_me::hotkey::{check_hotkey, startup_shortcut};
use translate_me::settings::{registration_failed_message, write_failed_message};

#[test]
fn accepted_hotkeys() {
    assert!(check_hotkey("Alt+Space").is_ok());
    assert!(check_hotkey("CommandOrControl+Shift+T").is_ok());
    assert!(check_hotkey("shift+alt+KeyQ").is_ok());
}

#[test]
fn refused_hotkeys_name_the_input() {
    for bad in ["", "Alt+", "Shift+KeyQ+Alt", "Alt+NoSuchKey", "Ctrl+A+B"] {
        match check_hotkey(bad) {
            Ok(_) => panic!("{:?} was accepted", bad),
            Err(m) => assert_eq!(m, format!("无法识别的快捷键: {}", bad)),
        }
    }
}

#[test]
fn startup_shortcut_falls_back_to_the_default() {
    let (_, configured) = startup_shortcut("Ctrl+Shift+Y").expect("accepted");
    assert!(configured);
    let (k, configured) = startup_shortcut("not a hotkey").expect("default accepted");
    assert!(!configured);
    let default: global_hotkey::hotkey::HotKey = "Alt+Space".parse().unwrap();
    assert_eq!(k, default);
}

#[test]
fn failure_messages() {
    assert_eq!(registration_failed_message("busy"), "快捷键注册失败（可能被占用）: busy");
    assert_eq!(write_failed_message("denied"), "写入配置失败: denied");
}
