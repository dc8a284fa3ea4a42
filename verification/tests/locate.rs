use directories::ProjectDirs;
use sourcegen::sources::{
    dir_path, local_directory, path, sources_file, APPLICATION, SOURCES_FILE,
};
use std::path::PathBuf;

#[test]
fn sources_file_lies_in_the_directory() {
    let directory = PathBuf::from("/home/alice/.config/sourcegen");
    let file = sources_file(&directory);
    assert_eq!(file, PathBuf::from("/home/alice/.config/sourcegen/sources.ini"));
    assert_ne!(file, directory);
}

#[test]
fn sources_file_is_named_sources_ini() {
    assert_eq!(SOURCES_FILE, "sources.ini");
    let file = sources_file(&PathBuf::from("relative"));
    assert_eq!(file.file_name().and_then(|name| name.to_str()), Some("sources.ini"));
    assert_eq!(file.parent(), Some(PathBuf::from("relative").as_path()));
}

#[test]
fn directory_is_named_after_the_application() {
    if let Some(directory) = dir_path() {
        assert!(directory.iter().any(|part| part == APPLICATION));
    }
}

#[test]
fn path_is_the_sources_file_of_the_directory() {
    match (dir_path(), path()) {
        (Some(directory), Some(file)) => assert_eq!(file, sources_file(&directory)),
        (None, None) => {}
        _ => panic!("the directory and the file are found together or not at all"),
    }
}

#[test]
fn local_directory_is_none_without_project_directories() {
    assert_eq!(local_directory(None), None);
}

#[test]
fn local_directory_is_that_of_the_project_directories() {
    if let Some(dirs) = ProjectDirs::from("", "", "another-tool") {
        let expected = dirs.config_local_dir().to_path_buf();
        assert_ne!(expected, dirs.cache_dir().to_path_buf());
        assert_eq!(local_directory(Some(dirs)), Some(expected));
    }
}

#[test]
fn directory_is_that_of_the_application() {
    let expected = ProjectDirs::from("", "", APPLICATION)
        .map(|dirs| dirs.config_local_dir().to_path_buf());
    assert_eq!(dir_path(), expected);
    assert_eq!(path(), expected.map(|directory| directory.join("sources.ini")));
}
