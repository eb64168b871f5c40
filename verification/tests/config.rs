use job_tracker::action::Action;
use job_tracker::config::{AppConfig, Config};
use job_tracker::keys::{KeyCode, KeyEvent, CONTROL, NONE};

#[test]
fn the_starting_configuration_binds_quit() {
    let config = Config::new();
    let quit = vec![KeyEvent::new(KeyCode::Char('q'), CONTROL)];
    assert_eq!(config.keybindings.get(&quit), Some(&Action::Quit));
    assert_eq!(config.copy().keybindings.get(&quit), Some(&Action::Quit));
    assert_eq!(config.keybindings.get(&vec![KeyEvent::new(KeyCode::Char('q'), NONE)]), None);
}

#[test]
fn the_default_directories_are_empty() {
    let directories = AppConfig::default();
    assert_eq!(directories.data_dir, "");
    assert_eq!(directories.config_dir, "");
}
