use config_bootstrap::{join_path, path_config_dir, path_config_file, set_config_dir, ConfigFolder, Error};

fn folder_of(dir: &str) -> ConfigFolder {
    let mut folder = ConfigFolder::new();
    assert!(set_config_dir(&mut folder, dir.to_string()));
    folder
}

#[test]
fn paths_under_simulated_home() {
    let folder = folder_of("myapp");
    let home = Some("/home/u".to_string());
    assert_eq!(path_config_dir(&folder, &home), Ok("/home/u/myapp".to_string()));
    assert_eq!(
        path_config_file(&folder, &home, "config.toml"),
        Ok("/home/u/myapp/config.toml".to_string())
    );
}

#[test]
fn file_path_is_dir_path_joined_with_name() {
    let folder = folder_of(".config/tool");
    let home = Some("/root".to_string());
    let dir = path_config_dir(&folder, &home).unwrap();
    for name in ["a.toml", "settings.toml", "", "sub/x.toml"] {
        assert_eq!(path_config_file(&folder, &home, name), Ok(join_path(&dir, name)));
    }
    assert_eq!(dir, "/root/.config/tool");
}

#[test]
fn unset_directory_comes_before_missing_home() {
    let folder = ConfigFolder::new();
    assert_eq!(path_config_dir(&folder, &None), Err(Error::DirNeverSpecified));
    assert_eq!(path_config_file(&folder, &None, "c.toml"), Err(Error::DirNeverSpecified));
    assert_eq!(
        path_config_file(&folder, &Some("/home/u".to_string()), "c.toml"),
        Err(Error::DirNeverSpecified)
    );
}

#[test]
fn missing_home_is_reported() {
    let folder = folder_of("myapp");
    assert_eq!(path_config_dir(&folder, &None), Err(Error::HomeDirUnavailable));
    assert_eq!(path_config_file(&folder, &None, "c.toml"), Err(Error::HomeDirUnavailable));
}

#[test]
fn join_adds_one_separator() {
    assert_eq!(join_path("/home/u", "myapp"), "/home/u/myapp");
    assert_eq!(join_path("/home/u/", "myapp"), "/home/u/myapp");
    assert_eq!(join_path("", "myapp"), "myapp");
    assert_eq!(join_path("/", "etc"), "/etc");
}

#[test]
fn join_with_absolute_segment_replaces() {
    assert_eq!(join_path("/home/u", "/etc/app"), "/etc/app");
    let folder = folder_of("/etc/app");
    assert_eq!(
        path_config_file(&folder, &Some("/home/u".to_string()), "c.toml"),
        Ok("/etc/app/c.toml".to_string())
    );
}

#[test]
fn join_keeps_non_ascii_text() {
    assert_eq!(join_path("/home/zoë", "conf·ig"), "/home/zoë/conf·ig");
}
