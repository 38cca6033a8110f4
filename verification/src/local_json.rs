use vstd::prelude::*;

verus! {

/// The settings file that makes the simulator's interface open its
/// discovery service.
pub const LOCAL_JSON: &'static str = "{\n  \"scorpioDebugPort\": 9222\n}\n";

/// How often to look for the installed file after an elevated copy.
pub const INSTALL_CHECKS: u32 = 10;

/// Milliseconds between two such looks.
pub const INSTALL_CHECK_MILLIS: u64 = 200;

/// The text of the settings file to install.
pub fn get_local_json_content() -> (text: &'static str)
    ensures
        text@ == LOCAL_JSON@,
{
    LOCAL_JSON
}

/// The shell command that makes `target_dir` and copies `temp_json` to
/// `target_file`.
pub open spec fn elevation_command_text(
    target_dir: Seq<char>,
    temp_json: Seq<char>,
    target_file: Seq<char>,
) -> Seq<char> {
    "New-Item -ItemType Directory -Force -Path '"@ + target_dir
        + "' | Out-Null; Copy-Item -Path '"@ + temp_json + "' -Destination '"@ + target_file
        + "' -Force"@
}

/// The arguments with which the shell runs `command`.
pub open spec fn elevation_arguments_text(command: Seq<char>) -> Seq<char> {
    "-NoProfile -Command \""@ + command + "\""@
}

/// Builds the shell command for the elevated copy.
pub fn elevation_command(target_dir: &str, temp_json: &str, target_file: &str) -> (command: String)
    ensures
        command@ == elevation_command_text(target_dir@, temp_json@, target_file@),
{
    let mut command = String::from_str("New-Item -ItemType Directory -Force -Path '");
    command.append(target_dir);
    command.append("' | Out-Null; Copy-Item -Path '");
    command.append(temp_json);
    command.append("' -Destination '");
    command.append(target_file);
    command.append("' -Force");
    command
}

/// Builds the shell's arguments for a command.
pub fn elevation_arguments(command: &str) -> (arguments: String)
    ensures
        arguments@ == elevation_arguments_text(command@),
{
    let mut arguments = String::from_str("-NoProfile -Command \"");
    arguments.append(command);
    arguments.append("\"");
    arguments
}

/// Whether the code that the launch of the elevated shell returned means
/// success: any value above 32.
pub fn launch_succeeded(code: i32) -> (ok: bool)
    ensures
        ok == (code > 32),
{
    code > 32
}

} // verus!
