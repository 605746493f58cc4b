use config_bootstrap::{set_config_dir, Action, Bootstrap, ConfigFolder, EntryKind, Error, Event, Stage};

fn machine() -> Bootstrap {
    let mut folder = ConfigFolder::new();
    assert!(set_config_dir(&mut folder, "myapp".to_string()));
    Bootstrap::new(&folder, &Some("/home/u".to_string()), "config.toml").unwrap()
}

#[test]
fn bootstrap_resolves_both_paths() {
    let b = machine();
    assert_eq!(b.dir(), "/home/u/myapp");
    assert_eq!(b.file(), "/home/u/myapp/config.toml");
    assert_eq!(b.stage(), Stage::CreateDir);
}

#[test]
fn bootstrap_fails_as_path_resolution_does() {
    let folder = ConfigFolder::new();
    assert!(matches!(
        Bootstrap::new(&folder, &Some("/home/u".to_string()), "c.toml"),
        Err(Error::DirNeverSpecified)
    ));
    let mut set = ConfigFolder::new();
    set_config_dir(&mut set, "myapp".to_string());
    assert!(matches!(Bootstrap::new(&set, &None, "c.toml"), Err(Error::HomeDirUnavailable)));
}

#[test]
fn directory_is_created_before_inspection() {
    let mut b = machine();
    assert_eq!(b.start(), Action::CreateDir("/home/u/myapp".to_string()));
    assert_eq!(
        b.step(Event::DirCreated),
        Action::Inspect("/home/u/myapp/config.toml".to_string())
    );
    assert_eq!(b.stage(), Stage::Inspect);
}

#[test]
fn existing_file_is_opened() {
    let mut b = machine();
    b.step(Event::DirCreated);
    assert_eq!(
        b.step(Event::Found(EntryKind::File)),
        Action::Open("/home/u/myapp/config.toml".to_string())
    );
    assert_eq!(b.stage(), Stage::Finished);
}

#[test]
fn missing_file_writes_default_once_then_exits() {
    let mut b = machine();
    b.step(Event::DirCreated);
    assert_eq!(b.step(Event::Found(EntryKind::Missing)), Action::WriteDefault);
    assert_eq!(b.stage(), Stage::WriteDefault);
    assert_eq!(b.step(Event::DefaultWritten), Action::Fail(Error::ConfigAbsent));
    assert_eq!(b.stage(), Stage::Finished);
}

#[test]
fn directory_in_place_of_file_fails() {
    let mut b = machine();
    b.step(Event::DirCreated);
    assert_eq!(b.step(Event::Found(EntryKind::Other)), Action::Fail(Error::NotAFile));
    assert_eq!(b.stage(), Stage::Finished);
}

#[test]
fn failed_directory_creation_stops() {
    let mut b = machine();
    assert_eq!(b.step(Event::DirCreationFailed), Action::Fail(Error::DirCreationFailed));
    assert_eq!(b.stage(), Stage::Finished);
}
