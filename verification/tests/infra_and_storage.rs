use scenedeck::infra::error::AppError;
use scenedeck::infra::i18n::{is_c_locale, requests_c_locale};
use scenedeck::storage::atomic::temp_path;
use scenedeck::storage::xdg::{config_path, registry_path};

#[test]
fn constructors_preserve_display_text() {
    assert_eq!(AppError::connection("refused").to_string(), "OBS connection failed: refused");
    assert_eq!(AppError::request("missing scene").to_string(), "OBS request failed: missing scene");
    assert_eq!(AppError::config("bad role").to_string(), "Configuration error: bad role");
    assert_eq!(AppError::storage("keyring locked").to_string(), "Storage error: keyring locked");
}

#[test]
fn notification_title_uses_application_context() {
    assert_eq!(AppError::config("bad role").notification_title(), "SceneDeck error: Configuration error: bad role");
    assert_eq!(
        AppError::request("missing scene").notification_title(),
        "SceneDeck error: OBS request failed: missing scene"
    );
}

#[test]
fn c_and_posix_locales_are_not_treated_as_language_tags() {
    for locale in ["C", "C.UTF-8", "C.utf8", "POSIX", "POSIX@variant"] {
        assert!(is_c_locale(locale), "{locale}");
    }
    for locale in ["en_US.UTF-8", "uk_UA.UTF-8", "ca"] {
        assert!(!is_c_locale(locale), "{locale}");
    }
}

#[test]
fn the_first_set_locale_variable_decides() {
    assert!(requests_c_locale(&vec![None, Some(String::new()), Some("C.UTF-8".to_string())]));
    assert!(!requests_c_locale(&vec![Some("de_DE.UTF-8".to_string()), None, Some("C".to_string())]));
    assert!(!requests_c_locale(&vec![None, None, None]));
}

#[test]
fn the_temporary_is_a_sibling_so_the_rename_stays_on_one_filesystem() {
    // A temporary in the system temp directory would be a different mount
    // on many setups, and `rename` across filesystems fails with EXDEV.
    let path = std::path::Path::new("/some/where/config.json");
    let temp = temp_path("/some/where/config.json");
    assert_eq!(std::path::Path::new(&temp).parent(), path.parent());
    assert_eq!(temp, "/some/where/config.json.new");
}

#[test]
fn config_files_live_under_the_xdg_config_home() {
    let xdg = Some("/home/ada/.cfg".to_string());
    let home = Some("/home/ada".to_string());
    assert_eq!(config_path(&xdg, &home), "/home/ada/.cfg/scenedeck/config.json");
    assert_eq!(registry_path(&xdg, &home), "/home/ada/.cfg/scenedeck/registry.json");
}

#[test]
fn a_blank_xdg_config_home_falls_back_to_home_then_the_current_directory() {
    let home = Some("/home/ada".to_string());
    assert_eq!(config_path(&Some("  ".to_string()), &home), "/home/ada/.config/scenedeck/config.json");
    assert_eq!(config_path(&None, &None), "./scenedeck/config.json");
}
