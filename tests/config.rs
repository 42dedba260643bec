use ai_chat_shell::config::{get_app_config_dir, CONFIG_DIR_UNAVAILABLE};

#[test]
fn resolved_directory_is_returned_verbatim() {
    let path = "/home/user/.config/com.example.shell".to_string();
    let r = get_app_config_dir(Some(path.clone()));
    assert_eq!(r, Ok(path));
    assert!(!r.unwrap().is_empty());
}

#[test]
fn unresolved_directory_is_the_defined_error() {
    let r = get_app_config_dir(None);
    assert_eq!(r, Err("Could not determine app config directory".to_string()));
    assert_eq!(r.unwrap_err(), CONFIG_DIR_UNAVAILABLE);
}
