use detbar::shell::{
    dialog_selection, file_dialog_script, folder_dialog_script, launch_error, launch_plan, media_key,
    media_key_script, window_toggle_action, LaunchProgram, MediaCommand, ToggleAction,
};

fn plan(path: &str, folder: bool) -> (String, bool) {
    let p = launch_plan(path, folder);
    let prog = match p.program {
        LaunchProgram::ShellStart => "start",
        LaunchProgram::Direct => "direct",
        LaunchProgram::Explorer => "explorer",
    };
    (prog.to_string(), p.path_in_error)
}

#[test]
fn uris_settings_and_commands_go_through_start() {
    assert_eq!(plan("https://example.com", false), ("start".into(), false));
    assert_eq!(plan("http://x", false), ("start".into(), false));
    assert_eq!(plan("msedge:", false), ("start".into(), false));
    assert_eq!(plan("chrome://settings", false), ("start".into(), false));
    assert_eq!(plan("firefox:x", false), ("start".into(), false));
    assert_eq!(plan("ms-settings:display", false), ("start".into(), false));
    assert_eq!(plan("shutdown /s /t 0", false), ("start".into(), false));
    assert_eq!(plan("rundll32.exe user32.dll,LockWorkStation", false), ("start".into(), false));
}

#[test]
fn programs_folders_and_shortcuts() {
    assert_eq!(plan("C:\\Tools\\app.exe", false), ("direct".into(), true));
    assert_eq!(plan("C:/Tools/app.exe", false), ("direct".into(), true));
    assert_eq!(plan("notepad.exe", false), ("start".into(), true));
    assert_eq!(plan("C:\\Users", true), ("explorer".into(), true));
    assert_eq!(plan("C:\\x.exe", true), ("direct".into(), true));
    assert_eq!(plan("C:\\Start\\app.lnk", false), ("start".into(), true));
    assert_eq!(plan("calc", false), ("start".into(), true));
    assert_eq!(plan("APP.EXE", false), ("start".into(), true));
}

#[test]
fn launch_errors_name_the_path() {
    assert_eq!(launch_error("x.exe", "not found"), "x.exe açılamadı: not found");
}

#[test]
fn media_keys() {
    assert_eq!(media_key(MediaCommand::PlayPause), "[{MEDIA_PLAY_PAUSE}]");
    assert_eq!(media_key(MediaCommand::NextTrack), "[{MEDIA_NEXT_TRACK}]");
    assert_eq!(media_key(MediaCommand::PreviousTrack), "[{MEDIA_PREV_TRACK}]");
    assert_eq!(media_key(MediaCommand::SeekForward), "^({RIGHT})");
    assert_eq!(media_key(MediaCommand::SeekBackward), "^({LEFT})");
    assert_eq!(media_key(MediaCommand::VolumeUp), "{VOLUME_UP}");
    assert_eq!(media_key(MediaCommand::VolumeDown), "{VOLUME_DOWN}");
    assert_eq!(media_key(MediaCommand::Mute), "{VOLUME_MUTE}");
}

#[test]
fn media_script() {
    assert_eq!(
        media_key_script("{VOLUME_UP}"),
        "$obj = New-Object -ComObject WScript.Shell; $obj.SendKeys(\"{VOLUME_UP}\")"
    );
}

#[test]
fn dialog_scripts() {
    let expected_file = format!(
        r#"Add-Type -AssemblyName System.Windows.Forms; $f = New-Object System.Windows.Forms.OpenFileDialog; $f.Title = '{}'; $f.Filter = '{}'; if ($f.ShowDialog() -eq 'OK') {{ $f.FileName }} else {{ "" }}"#,
        "Video seç", "Video|*.mp4"
    );
    assert_eq!(file_dialog_script("Video seç", "Video|*.mp4"), expected_file);
    let expected_folder = format!(
        r#"Add-Type -AssemblyName System.Windows.Forms; $f = New-Object System.Windows.Forms.FolderBrowserDialog; $f.Description = '{}'; $f.ShowNewFolderButton = $true; if ($f.ShowDialog() -eq 'OK') {{ $f.SelectedPath }} else {{ "" }}"#,
        "Klasör"
    );
    assert_eq!(folder_dialog_script("Klasör"), expected_folder);
}

#[test]
fn dialog_output() {
    assert_eq!(dialog_selection("  C:\\film.mp4\r\n"), Some("C:\\film.mp4".to_string()));
    assert_eq!(dialog_selection("\r\n"), None);
    assert_eq!(dialog_selection(""), None);
    assert_eq!(dialog_selection("\u{3000}a b\u{85}"), Some("a b".to_string()));
}

#[test]
fn toggle_actions() {
    assert!(matches!(window_toggle_action(false, false), ToggleAction::Open));
    assert!(matches!(window_toggle_action(false, true), ToggleAction::Open));
    assert!(matches!(window_toggle_action(true, true), ToggleAction::Hide));
    assert!(matches!(window_toggle_action(true, false), ToggleAction::ShowAndFocus));
}
