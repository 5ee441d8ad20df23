//! How the desktop talks to the Windows shell: how a path is launched, which
//! key a media command sends, the dialog scripts, and what toggling a window
//! does.
use vstd::prelude::*;
use crate::text::{
    contains_str, ends_with_str, has_prefix, has_substring, has_suffix, push_str,
    starts_with_str, trim_str, trim_ws,
};

verus! {

/// The program that opens a path.
pub enum LaunchProgram {
    /// `cmd /C start "" <path>`.
    ShellStart,
    /// The path itself, run as a program.
    Direct,
    /// The file explorer, on the path.
    Explorer,
}

/// How to open a path, and whether a failure to do so is reported with the
/// path in front of the error.
pub struct LaunchPlan {
    pub program: LaunchProgram,
    pub path_in_error: bool,
}

/// A URI that a browser or the system opens.
pub open spec fn is_uri(p: Seq<char>) -> bool {
    ||| has_prefix(p, "msedge:"@)
    ||| has_prefix(p, "chrome:"@)
    ||| has_prefix(p, "firefox:"@)
    ||| has_prefix(p, "http://"@)
    ||| has_prefix(p, "https://"@)
}

/// A settings page or a system command.
pub open spec fn is_system_target(p: Seq<char>) -> bool {
    ||| has_prefix(p, "ms-settings:"@)
    ||| has_prefix(p, "shutdown"@)
    ||| has_prefix(p, "rundll32"@)
}

pub open spec fn launch_plan_spec(p: Seq<char>, is_folder: bool) -> (LaunchProgram, bool) {
    if is_uri(p) || is_system_target(p) {
        (LaunchProgram::ShellStart, false)
    } else if has_suffix(p, ".exe"@) {
        if has_substring(p, "/"@) || has_substring(p, "\\"@) {
            (LaunchProgram::Direct, true)
        } else {
            (LaunchProgram::ShellStart, true)
        }
    } else if is_folder {
        (LaunchProgram::Explorer, true)
    } else {
        (LaunchProgram::ShellStart, true)
    }
}

/// How to open `path`: URIs, settings pages and system commands go through
/// `start`; a program given with a directory runs directly and a bare
/// program name goes through `start`; a folder opens in the explorer;
/// anything else, shortcuts included, goes through `start`.
pub fn launch_plan(path: &str, is_folder: bool) -> (r: LaunchPlan)
    ensures
        (r.program, r.path_in_error) == launch_plan_spec(path@, is_folder),
{
    let uri = starts_with_str(path, "msedge:") || starts_with_str(path, "chrome:")
        || starts_with_str(path, "firefox:") || starts_with_str(path, "http://")
        || starts_with_str(path, "https://");
    let settings = starts_with_str(path, "ms-settings:");
    let syscmd = starts_with_str(path, "shutdown") || starts_with_str(path, "rundll32");
    let exe = ends_with_str(path, ".exe");
    if uri || settings || syscmd {
        LaunchPlan { program: LaunchProgram::ShellStart, path_in_error: false }
    } else if exe {
        if contains_str(path, "/") || contains_str(path, "\\") {
            LaunchPlan { program: LaunchProgram::Direct, path_in_error: true }
        } else {
            LaunchPlan { program: LaunchProgram::ShellStart, path_in_error: true }
        }
    } else if is_folder {
        LaunchPlan { program: LaunchProgram::Explorer, path_in_error: true }
    } else {
        LaunchPlan { program: LaunchProgram::ShellStart, path_in_error: true }
    }
}

/// The error reported when `path` could not be opened.
pub fn launch_error(path: &str, error: &str) -> (r: String)
    ensures
        r@ == path@ + " açılamadı: "@ + error@,
{
    let mut r = String::new();
    push_str(&mut r, path);
    push_str(&mut r, " açılamadı: ");
    push_str(&mut r, error);
    r
}

/// A media or volume command.
pub enum MediaCommand {
    PlayPause,
    NextTrack,
    PreviousTrack,
    SeekForward,
    SeekBackward,
    VolumeUp,
    VolumeDown,
    Mute,
}

pub open spec fn media_key_spec(c: MediaCommand) -> Seq<char> {
    match c {
        MediaCommand::PlayPause => "[{MEDIA_PLAY_PAUSE}]"@,
        MediaCommand::NextTrack => "[{MEDIA_NEXT_TRACK}]"@,
        MediaCommand::PreviousTrack => "[{MEDIA_PREV_TRACK}]"@,
        MediaCommand::SeekForward => "^({RIGHT})"@,
        MediaCommand::SeekBackward => "^({LEFT})"@,
        MediaCommand::VolumeUp => "{VOLUME_UP}"@,
        MediaCommand::VolumeDown => "{VOLUME_DOWN}"@,
        MediaCommand::Mute => "{VOLUME_MUTE}"@,
    }
}

/// The key sequence, in `SendKeys` notation, that carries out a media
/// command.
pub fn media_key(command: MediaCommand) -> (r: &'static str)
    ensures
        r@ == media_key_spec(command),
{
    match command {
        MediaCommand::PlayPause => "[{MEDIA_PLAY_PAUSE}]",
        MediaCommand::NextTrack => "[{MEDIA_NEXT_TRACK}]",
        MediaCommand::PreviousTrack => "[{MEDIA_PREV_TRACK}]",
        MediaCommand::SeekForward => "^({RIGHT})",
        MediaCommand::SeekBackward => "^({LEFT})",
        MediaCommand::VolumeUp => "{VOLUME_UP}",
        MediaCommand::VolumeDown => "{VOLUME_DOWN}",
        MediaCommand::Mute => "{VOLUME_MUTE}",
    }
}

/// The PowerShell script that sends `key` to the foreground.
pub fn media_key_script(key: &str) -> (r: String)
    ensures
        r@ == "$obj = New-Object -ComObject WScript.Shell; $obj.SendKeys(\""@ + key@ + "\")"@,
{
    let mut r = String::new();
    push_str(&mut r, "$obj = New-Object -ComObject WScript.Shell; $obj.SendKeys(\"");
    push_str(&mut r, key);
    push_str(&mut r, "\")");
    r
}

/// The PowerShell script that asks for a file with an open-file dialog.
pub fn file_dialog_script(title: &str, filter: &str) -> (r: String)
    ensures
        r@ == "Add-Type -AssemblyName System.Windows.Forms; $f = New-Object System.Windows.Forms.OpenFileDialog; $f.Title = '"@
            + title@ + "'; $f.Filter = '"@ + filter@
            + "'; if ($f.ShowDialog() -eq 'OK') { $f.FileName } else { \"\" }"@,
{
    let mut r = String::new();
    push_str(
        &mut r,
        "Add-Type -AssemblyName System.Windows.Forms; $f = New-Object System.Windows.Forms.OpenFileDialog; $f.Title = '",
    );
    push_str(&mut r, title);
    push_str(&mut r, "'; $f.Filter = '");
    push_str(&mut r, filter);
    push_str(&mut r, "'; if ($f.ShowDialog() -eq 'OK') { $f.FileName } else { \"\" }");
    r
}

/// The PowerShell script that asks for a folder with a folder dialog.
pub fn folder_dialog_script(title: &str) -> (r: String)
    ensures
        r@ == "Add-Type -AssemblyName System.Windows.Forms; $f = New-Object System.Windows.Forms.FolderBrowserDialog; $f.Description = '"@
            + title@
            + "'; $f.ShowNewFolderButton = $true; if ($f.ShowDialog() -eq 'OK') { $f.SelectedPath } else { \"\" }"@,
{
    let mut r = String::new();
    push_str(
        &mut r,
        "Add-Type -AssemblyName System.Windows.Forms; $f = New-Object System.Windows.Forms.FolderBrowserDialog; $f.Description = '",
    );
    push_str(&mut r, title);
    push_str(
        &mut r,
        "'; $f.ShowNewFolderButton = $true; if ($f.ShowDialog() -eq 'OK') { $f.SelectedPath } else { \"\" }",
    );
    r
}

/// What a dialog script's output selects: the trimmed output, or nothing
/// when that is empty (the dialog was cancelled).
pub fn dialog_selection(output: &str) -> (r: Option<String>)
    ensures
        trim_ws(output@).len() == 0 ==> r is None,
        trim_ws(output@).len() > 0 ==> (r matches Some(p) && p@ == trim_ws(output@)),
{
    let path = trim_str(output);
    if path.as_str().unicode_len() == 0 {
        None
    } else {
        Some(path)
    }
}

/// What toggling a window does.
pub enum ToggleAction {
    /// The window is shown: hide it.
    Hide,
    /// The window exists but is hidden: show and focus it.
    ShowAndFocus,
    /// There is no such window yet: open it.
    Open,
}

/// What toggling a window does, given whether it exists and whether it is
/// visible.
pub fn window_toggle_action(exists: bool, visible: bool) -> (r: ToggleAction)
    ensures
        !exists ==> r is Open,
        exists && visible ==> r is Hide,
        exists && !visible ==> r is ShowAndFocus,
{
    if exists {
        if visible {
            ToggleAction::Hide
        } else {
            ToggleAction::ShowAndFocus
        }
    } else {
        ToggleAction::Open
    }
}

} // verus!
