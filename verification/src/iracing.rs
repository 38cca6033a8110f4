use vstd::prelude::*;

verus! {

/// Where the simulator is installed unless the user says otherwise.
pub const DEFAULT_PATH: &'static str = "C:\\Program Files (x86)\\iRacing\\";

/// The file, relative to the installation folder, whose presence marks an
/// installation.
pub const UI_EXE: &'static str = "ui\\iRacingUI.exe";

/// Why no installation folder could be settled on.
#[derive(Debug, Clone, Copy, PartialEq, Eq, Structural)]
pub enum PathError {
    /// The user closed the folder dialog without choosing.
    NoFolderSelected,
    /// The chosen folder does not hold an installation.
    NotAnInstallation,
}

/// How to settle on the installation folder.
#[derive(Debug, Clone, PartialEq, Eq)]
pub enum PathStep {
    /// Take this folder.
    Use(String),
    /// Ask the user for the folder.
    Prompt,
}

impl PathError {
    /// The message for the user.
    pub fn message(&self) -> (text: String)
        ensures
            text@ == match *self {
                PathError::NoFolderSelected => "No folder selected"@,
                PathError::NotAnInstallation =>
                    "Selected folder does not contain iRacing installation"@,
            },
    {
        match self {
            PathError::NoFolderSelected => String::from_str("No folder selected"),
            PathError::NotAnInstallation => String::from_str(
                "Selected folder does not contain iRacing installation",
            ),
        }
    }
}

/// The default installation folder.
pub fn default_path() -> (path: String)
    ensures
        path@ == DEFAULT_PATH@,
{
    String::from_str(DEFAULT_PATH)
}

/// Settles what the folder dialog gave: a folder that holds an installation
/// is taken, anything else is an error.
pub fn prompt_for_path(picked: Option<String>, picked_is_valid: bool) -> (path: Result<
    String,
    PathError,
>)
    ensures
        path == match picked {
            None => Err::<String, PathError>(PathError::NoFolderSelected),
            Some(folder) => if picked_is_valid {
                Ok(folder)
            } else {
                Err(PathError::NotAnInstallation)
            },
        },
{
    match picked {
        None => Err(PathError::NoFolderSelected),
        Some(folder) => if picked_is_valid {
            Ok(folder)
        } else {
            Err(PathError::NotAnInstallation)
        },
    }
}

/// Takes the default folder where it holds an installation, and asks the
/// user otherwise.
pub fn get_or_prompt(default_is_valid: bool) -> (step: PathStep)
    ensures
        default_is_valid ==> step is Use && step->Use_0@ == DEFAULT_PATH@,
        !default_is_valid ==> step is Prompt,
{
    if default_is_valid {
        PathStep::Use(default_path())
    } else {
        PathStep::Prompt
    }
}

} // verus!
