use asus_touchpad_numpad::logger::{LogLevel, Logger};
use asus_touchpad_numpad::sys::keyboard::KeyboardLayout;
use asus_touchpad_numpad::sys::utils::Utils;

#[test]
fn string_to_level_ignores_case() {
    assert_eq!(Logger::string_to_level("debug"), LogLevel::Debug);
    assert_eq!(Logger::string_to_level("DEBUG"), LogLevel::Debug);
    assert_eq!(Logger::string_to_level("Info"), LogLevel::Info);
    assert_eq!(Logger::string_to_level("wArN"), LogLevel::Warn);
    assert_eq!(Logger::string_to_level("ERROR"), LogLevel::Error);
    assert_eq!(Logger::string_to_level("verbose"), LogLevel::Info);
    assert_eq!(Logger::string_to_level(""), LogLevel::Info);
    assert_eq!(Logger::level_from_lowercase("warn"), LogLevel::Warn);
    assert_eq!(Logger::level_from_lowercase("WARN"), LogLevel::Info);
}

#[test]
fn logger_prefixes_messages() {
    let l = Logger::new("asus-touchpad-numpad");
    assert_eq!(l.ident(), "asus-touchpad-numpad");
    assert_eq!(l.format_message("ready"), "asus-touchpad-numpad: ready");
}

#[test]
fn keymap_families() {
    assert_eq!(KeyboardLayout::from_keymap("fr"), KeyboardLayout::Azerty);
    assert_eq!(KeyboardLayout::from_keymap("fr-latin9"), KeyboardLayout::Azerty);
    assert_eq!(KeyboardLayout::from_keymap("be-latin1"), KeyboardLayout::Azerty);
    assert_eq!(KeyboardLayout::from_keymap("us"), KeyboardLayout::Qwerty);
    assert_eq!(KeyboardLayout::from_keymap("FR"), KeyboardLayout::Qwerty);
    assert_eq!(KeyboardLayout::from_keymap(""), KeyboardLayout::Unknown(String::new()));
    assert_eq!(
        KeyboardLayout::from_keymap("undetected"),
        KeyboardLayout::Unknown("undetected".to_string())
    );
    assert_eq!(KeyboardLayout::undetected(), KeyboardLayout::Unknown("undetected".to_string()));
}

#[test]
fn vconsole_keymap_line() {
    assert_eq!(
        KeyboardLayout::from_vconsole("FONT=eurlatgr\nKEYMAP=\"fr-latin9\"\n"),
        Some(KeyboardLayout::Azerty)
    );
    assert_eq!(KeyboardLayout::from_vconsole("KEYMAP='us'"), Some(KeyboardLayout::Qwerty));
    assert_eq!(KeyboardLayout::from_vconsole("FONT=x\n"), None);
    assert_eq!(
        KeyboardLayout::from_vconsole("KEYMAP=\n"),
        Some(KeyboardLayout::Unknown(String::new()))
    );
}

#[test]
fn localectl_keymap_line() {
    let out = "   System Locale: LANG=fr_FR.UTF-8\n       VC Keymap: fr\n      X11 Layout: us\n";
    assert_eq!(KeyboardLayout::from_localectl(out), Some(KeyboardLayout::Azerty));
    let out2 = "      X11 Layout: be\n       VC Keymap: us\n";
    assert_eq!(KeyboardLayout::from_localectl(out2), Some(KeyboardLayout::Azerty));
    assert_eq!(KeyboardLayout::from_localectl("nothing here"), None);
}

#[test]
fn dirname_of_paths() {
    assert_eq!(Utils::get_dirname("/opt/app/numpad"), "/opt/app");
    assert_eq!(Utils::get_dirname("/numpad"), "/");
    assert_eq!(Utils::get_dirname("/"), "/");
    assert_eq!(Utils::get_dirname("numpad"), "/");
    assert_eq!(Utils::dirname_from_parent(Some("")), "/");
    assert_eq!(Utils::file_location("/opt/app/numpad", "config.json"), "/opt/app/config.json");
    assert_eq!(Utils::file_location("numpad", "config.json"), "/config.json");
    assert_eq!(Utils::file_location("/opt/app/numpad", "/etc/x.json"), "/etc/x.json");
    assert_eq!(Utils::dirname_from_parent(Some("/usr/bin")), "/usr/bin");
    assert_eq!(Utils::dirname_from_parent(None), "/");
}

#[test]
fn board_name_is_trimmed_and_lowercased() {
    assert_eq!(Utils::board_name_from_dmi("UX433FA\n"), "ux433fa");
    assert_eq!(Utils::board_name_from_dmi("  G533QR  "), "g533qr");
}
