use config_bootstrap::{get_config_dir, set_config_dir, set_config_dir_as_path, ConfigFolder, Error};
use std::path::PathBuf;

#[test]
fn unset_directory_is_reported() {
    let folder = ConfigFolder::new();
    assert_eq!(get_config_dir(&folder), Err(Error::DirNeverSpecified));
}

#[test]
fn first_set_wins() {
    let mut folder = ConfigFolder::new();
    assert!(set_config_dir(&mut folder, "myapp".to_string()));
    assert_eq!(get_config_dir(&folder), Ok("myapp".to_string()));
}

#[test]
fn second_set_is_refused_and_keeps_value() {
    let mut folder = ConfigFolder::new();
    assert!(set_config_dir(&mut folder, "first".to_string()));
    assert!(!set_config_dir(&mut folder, "second".to_string()));
    assert!(!set_config_dir(&mut folder, "first".to_string()));
    assert_eq!(get_config_dir(&folder), Ok("first".to_string()));
}

#[test]
fn empty_path_is_accepted_as_a_setting() {
    let mut folder = ConfigFolder::new();
    assert!(set_config_dir(&mut folder, String::new()));
    assert_eq!(get_config_dir(&folder), Ok(String::new()));
    assert!(!set_config_dir(&mut folder, "later".to_string()));
}

#[test]
fn racing_attempts_have_one_winner() {
    let folder = std::sync::Mutex::new(ConfigFolder::new());
    let mut wins = 0;
    for i in 0..8 {
        let mut guard = folder.lock().unwrap();
        if set_config_dir(&mut guard, format!("racer{}", i)) {
            wins += 1;
        }
    }
    assert_eq!(wins, 1);
    assert_eq!(get_config_dir(&folder.lock().unwrap()), Ok("racer0".to_string()));
}

#[test]
fn set_as_path_sets_text() {
    let mut folder = ConfigFolder::new();
    assert!(set_config_dir_as_path(&mut folder, &PathBuf::from(".config/myapp")));
    assert_eq!(get_config_dir(&folder), Ok(".config/myapp".to_string()));
    assert!(!set_config_dir_as_path(&mut folder, &PathBuf::from("other")));
    assert_eq!(get_config_dir(&folder), Ok(".config/myapp".to_string()));
}
