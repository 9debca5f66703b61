use lingchat_core::keys::{LAST_SAVE_ID_PREFIX, LLM_API_KEY, LLM_PROVIDER, LOG_LLM_REQUEST_BODY};
use lingchat_core::config::{
    last_save_key, last_save_write_needed, recovery_action, settings_backup_path, store_path, stored_id,
    RecoveryAction,
};
use lingchat_core::push_decimal;

#[test]
fn last_save_key_formats_role_id() {
    assert_eq!(last_save_key(7), "game.last_save_id_7");
    assert_eq!(last_save_key(0), "game.last_save_id_0");
    assert_eq!(last_save_key(-12), "game.last_save_id_-12");
    assert_eq!(last_save_key(i32::MAX), "game.last_save_id_2147483647");
    assert_eq!(last_save_key(i32::MIN), "game.last_save_id_-2147483648");
}

#[test]
fn last_save_keys_of_different_roles_differ() {
    assert_ne!(last_save_key(1), last_save_key(11));
    assert_ne!(last_save_key(-1), last_save_key(1));
}

#[test]
fn decimal_matches_display() {
    for v in [0, 1, 9, 10, 99, 100, 12345, -1, -10, -987654, i32::MAX, i32::MIN] {
        let mut s = String::from("x");
        push_decimal(&mut s, v);
        assert_eq!(s, format!("x{}", v));
    }
}

#[test]
fn store_path_joins_data_dir() {
    assert_eq!(store_path("/data/app", '/'), "/data/app/settings.json");
    assert_eq!(store_path("/data/app/", '/'), "/data/app/settings.json");
    assert_eq!(store_path("", '/'), "settings.json");
    let here = std::path::Path::new("/data/app").join("settings.json");
    assert_eq!(store_path("/data/app", std::path::MAIN_SEPARATOR), here.to_string_lossy());
}

#[test]
fn store_path_on_windows_separators() {
    assert_eq!(store_path("C:\\data", '\\'), "C:\\data\\settings.json");
    assert_eq!(store_path("C:\\data\\", '\\'), "C:\\data\\settings.json");
    assert_eq!(store_path("C:/data/", '\\'), "C:/data/settings.json");
    assert_eq!(store_path("C:", '\\'), "C:settings.json");
    assert_eq!(store_path("C:", '/'), "C:/settings.json");
    // on Unix a backslash is an ordinary character
    assert_eq!(store_path("dir\\", '/'), "dir\\/settings.json");
}

#[test]
fn backup_path_sets_extension() {
    assert_eq!(settings_backup_path("/data/app", '/'), "/data/app/settings.json.bak");
    assert_eq!(settings_backup_path("D:\\g", '\\'), "D:\\g\\settings.json.bak");
    let mut p = std::path::PathBuf::from("/data/app").join("settings.json");
    p.set_extension("json.bak");
    assert_eq!(settings_backup_path("/data/app", std::path::MAIN_SEPARATOR), p.to_string_lossy());
}

#[test]
fn stored_ids_are_cut_to_32_bits() {
    assert_eq!(stored_id(Some(42)), Some(42));
    assert_eq!(stored_id(None), None);
    assert_eq!(stored_id(Some(1i64 << 32)), Some(0));
    assert_eq!(stored_id(Some(-1)), Some(-1));
}

#[test]
fn last_save_write_only_when_changed() {
    assert!(last_save_write_needed(None, 3));
    assert!(last_save_write_needed(Some(4), 3));
    assert!(!last_save_write_needed(Some(3), 3));
    // recording then asking again writes nothing
    assert!(!last_save_write_needed(Some(9i32 as i64), 9));
}

#[test]
fn recovery_decisions() {
    let good = Some(String::from("{\"a\": 1}"));
    let bad = Some(String::from("{\"a\": "));
    assert_eq!(recovery_action(false, true, &bad, &good), RecoveryAction::Nothing);
    assert_eq!(recovery_action(true, false, &bad, &good), RecoveryAction::Nothing);
    assert_eq!(recovery_action(true, true, &good, &bad), RecoveryAction::Nothing);
    assert_eq!(recovery_action(true, true, &bad, &good), RecoveryAction::RestoreFromBackup);
    assert_eq!(recovery_action(true, true, &None, &good), RecoveryAction::RestoreFromBackup);
    assert_eq!(recovery_action(true, true, &bad, &bad), RecoveryAction::BackupAlsoDamaged);
    assert_eq!(recovery_action(true, true, &bad, &None), RecoveryAction::BackupAlsoDamaged);
}

#[test]
fn settings_keys_are_dotted_names() {
    assert_eq!(LLM_PROVIDER, "llm.provider");
    assert_eq!(LLM_API_KEY, "llm.api_key");
    assert_eq!(LOG_LLM_REQUEST_BODY, "log.llm_request_body");
    assert!(last_save_key(7).starts_with(LAST_SAVE_ID_PREFIX));
}

#[test]
fn store_path_in_verbatim_directories() {
    assert_eq!(store_path(r"\\?\C:\data", '\\'), r"\\?\C:\data\settings.json");
    assert_eq!(store_path(r"\\?\C:\data\", '\\'), r"\\?\C:\data\settings.json");
    assert_eq!(store_path(r"\\?\C:\a\\b", '\\'), r"\\?\C:\a\b\settings.json");
    assert_eq!(store_path(r"\\?\C:", '\\'), r"\\?\C:\settings.json");
    assert_eq!(store_path(r"\\?\C:\", '\\'), r"\\?\C:\settings.json");
    // only `\` separates the parts of a verbatim path
    assert_eq!(store_path(r"\\?\C:\a/b/", '\\'), r"\\?\C:\a/b/\settings.json");
    assert_eq!(store_path(r"\\?\UNC\srv\share\d", '\\'), r"\\?\UNC\srv\share\d\settings.json");
    assert_eq!(store_path(r"\\?\UNC\srv\share", '\\'), r"\\?\UNC\srv\share\settings.json");
    assert_eq!(store_path(r"\\?\Volume{1}\x", '\\'), r"\\?\Volume{1}\x\settings.json");
    assert_eq!(settings_backup_path(r"\\?\D:\g\", '\\'), r"\\?\D:\g\settings.json.bak");
    // without the `\` after `?` the directory is no verbatim one
    assert_eq!(store_path(r"\\?x", '\\'), r"\\?x\settings.json");
    // on Unix the prefix means nothing
    assert_eq!(store_path(r"\\?\C:\data", '/'), r"\\?\C:\data/settings.json");
}
