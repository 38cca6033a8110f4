use irefined_launcher::iracing::{default_path, get_or_prompt, prompt_for_path, PathError, PathStep};
use std::path::PathBuf;

#[test]
fn test_default_iracing_path() {
    let path = PathBuf::from(default_path());
    assert_eq!(path, PathBuf::from("C:\\Program Files (x86)\\iRacing\\"));
}

#[test]
fn valid_default_is_taken_without_asking() {
    assert_eq!(
        get_or_prompt(true),
        PathStep::Use("C:\\Program Files (x86)\\iRacing\\".to_string())
    );
    assert_eq!(get_or_prompt(false), PathStep::Prompt);
}

#[test]
fn picked_folder_must_hold_an_installation() {
    assert_eq!(prompt_for_path(Some("D:\\sim".to_string()), true), Ok("D:\\sim".to_string()));
    assert_eq!(
        prompt_for_path(Some("D:\\sim".to_string()), false),
        Err(PathError::NotAnInstallation)
    );
    assert_eq!(prompt_for_path(None, true), Err(PathError::NoFolderSelected));
    assert_eq!(prompt_for_path(None, false), Err(PathError::NoFolderSelected));
}

#[test]
fn path_errors_have_messages() {
    assert_eq!(PathError::NoFolderSelected.message(), "No folder selected");
    assert_eq!(
        PathError::NotAnInstallation.message(),
        "Selected folder does not contain iRacing installation"
    );
}
