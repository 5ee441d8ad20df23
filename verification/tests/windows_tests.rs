use detbar::windows::{
    background_windows, check_edge_transfer, edge_direction, edge_target_desktop, is_listed_window,
    launch_candidates, windows_to_hide, WindowExtent, WindowInfo,
};

fn win(hwnd: isize, title: &str, class: &str) -> WindowInfo {
    WindowInfo { hwnd, title: title.to_string(), class: class.to_string(), pid: 1, visible: true }
}

#[test]
fn listed_windows() {
    assert!(is_listed_window("Notepad", "Notepad", true));
    assert!(!is_listed_window("Notepad", "Notepad", false));
    assert!(!is_listed_window("", "Notepad", true));
    assert!(!is_listed_window("detbar Desktop", "X", true));
    assert!(!is_listed_window("Settings", "Windows.UI.Core.CoreWindow", true));
    assert!(!is_listed_window("Program Manager", "Progman", true));
    assert!(!is_listed_window("x", "WorkerW", true));
    assert!(is_listed_window("x", "WorkerWx", true));
}

#[test]
fn hide_all_but_excluded() {
    let all = vec![win(1, "a", "c"), win(2, "b", "c"), win(3, "c", "c")];
    assert_eq!(windows_to_hide(&all, &[2]), vec![1, 3]);
    assert_eq!(windows_to_hide(&all, &[]), vec![1, 2, 3]);
}

#[test]
fn launch_candidates_skip_own_and_shell_windows() {
    let all = vec![
        win(1, "Editor", "Chrome_WidgetWin_1"),
        win(2, "detbar", "x"),
        win(3, "", "x"),
        win(4, "w", "WorkerW"),
        win(5, "p", "Progman"),
        win(6, "Shell", "Shell_TrayWnd"),
    ];
    assert_eq!(launch_candidates(&all), vec![1, 6]);
}

#[test]
fn background_windows_by_title() {
    let all = vec![win(1, "detbar Desktop", "x"), win(2, "detbar", "x"), win(3, "detbar Wallpaper", "x")];
    assert_eq!(background_windows(&all), vec![1, 3]);
}

#[test]
fn edge_directions() {
    assert_eq!(edge_direction(1920, 1918), 1);
    assert_eq!(edge_direction(1920, 1917), 0);
    assert_eq!(edge_direction(1920, 2), -1);
    assert_eq!(edge_direction(1920, 3), 0);
    assert_eq!(edge_direction(3, 2), 1);
}

#[test]
fn edge_transfer_picks_first_transferable_window() {
    let wins = vec![win(1, "detbar", "x"), win(2, "Tray", "Shell_TrayWnd"), win(3, "Mail", "x"), win(4, "Other", "x")];
    let ext = vec![
        WindowExtent { right: 10, bottom: 10 },
        WindowExtent { right: 10, bottom: 10 },
        WindowExtent { right: 10, bottom: 10 },
        WindowExtent { right: 10, bottom: 10 },
    ];
    assert_eq!(check_edge_transfer(1920, 1080, 48, true, Some(1919), &wins, &ext), vec![(3, 1)]);
    assert_eq!(check_edge_transfer(1920, 1080, 48, true, Some(0), &wins, &ext), vec![(3, -1)]);
    assert!(check_edge_transfer(1920, 1080, 48, true, Some(500), &wins, &ext).is_empty());
    assert!(check_edge_transfer(1920, 1080, 48, false, Some(1919), &wins, &ext).is_empty());
    assert!(check_edge_transfer(1920, 1080, 48, true, None, &wins, &ext).is_empty());
}

#[test]
fn edge_transfer_skips_windows_without_area() {
    let wins = vec![win(3, "Mail", "x"), win(4, "Other", "x")];
    let ext = vec![WindowExtent { right: 0, bottom: 10 }, WindowExtent { right: 5, bottom: 5 }];
    assert_eq!(check_edge_transfer(1920, 1080, 48, true, Some(1920), &wins, &ext), vec![(4, 1)]);
    let ext = vec![WindowExtent { right: 0, bottom: 10 }, WindowExtent { right: 5, bottom: -1 }];
    assert!(check_edge_transfer(1920, 1080, 48, true, Some(1920), &wins, &ext).is_empty());
}

#[test]
fn edge_target_never_below_first() {
    assert_eq!(edge_target_desktop(0, -1), 0);
    assert_eq!(edge_target_desktop(2, -1), 1);
    assert_eq!(edge_target_desktop(2, 1), 3);
    assert_eq!(edge_target_desktop(0x1_0000_0002, 1), 3);
}
