use detbar::desktop::{Desktop, DesktopManager, ShortcutPosition};

fn windows(m: &DesktopManager, i: usize) -> Vec<isize> {
    m.desktops[i].window_hwnds.clone()
}

fn ids_match_positions(m: &DesktopManager) -> bool {
    m.current < m.desktops.len() && m.desktops.iter().enumerate().all(|(i, d)| d.id == i)
}

#[test]
fn starts_with_three_named_desktops() {
    let m = DesktopManager::new();
    assert_eq!(m.desktops.len(), 3);
    assert_eq!(m.current, 0);
    assert_eq!(m.desktops[0].name, "Ana");
    assert_eq!(m.desktops[1].name, "İş");
    assert_eq!(m.desktops[2].name, "Eğlence");
    assert_eq!(m.desktops[0].widget_ids, vec!["clock".to_string(), "system-monitor".to_string()]);
    assert_eq!(m.desktops[1].widget_ids, vec!["notes".to_string()]);
    assert_eq!(m.desktops[2].widget_ids, vec!["music-player".to_string(), "weather".to_string()]);
    assert!(m.desktops.iter().all(|d| d.window_hwnds.is_empty() && d.shortcuts.is_empty()));
    assert!(ids_match_positions(&m));
}

#[test]
fn assign_window_adds_once() {
    let mut m = DesktopManager::new();
    m.assign_window(10, "a");
    m.assign_window(11, "b");
    m.assign_window(10, "a again");
    assert_eq!(windows(&m, 0), vec![10, 11]);
    assert!(windows(&m, 1).is_empty());
}

#[test]
fn switch_minimizes_old_and_restores_new_live_windows() {
    let mut m = DesktopManager::new();
    m.assign_window(1, "");
    m.assign_window(2, "");
    m.current = 1;
    m.assign_window(3, "");
    m.assign_window(4, "");
    m.current = 0;
    let plan = m.switch_to(1, &[1, 3, 4], 48);
    assert_eq!(m.current, 1);
    assert_eq!(plan.minimize, vec![1]);
    assert_eq!(plan.restore, vec![3, 4]);
    assert_eq!(windows(&m, 0), vec![1]);
    assert_eq!(windows(&m, 1), vec![3, 4]);
}

#[test]
fn switch_to_current_or_missing_desktop_does_nothing() {
    let mut m = DesktopManager::new();
    m.assign_window(1, "");
    let plan = m.switch_to(0, &[], 48);
    assert!(plan.minimize.is_empty() && plan.restore.is_empty());
    assert_eq!(windows(&m, 0), vec![1]);
    let plan = m.switch_to(7, &[], 48);
    assert!(plan.minimize.is_empty() && plan.restore.is_empty());
    assert_eq!(m.current, 0);
    assert_eq!(windows(&m, 0), vec![1]);
}

#[test]
fn switch_forgets_closed_windows_everywhere() {
    let mut m = DesktopManager::new();
    m.assign_window(1, "");
    m.current = 2;
    m.assign_window(5, "");
    m.assign_window(6, "");
    m.current = 0;
    m.switch_to(1, &[6], 48);
    assert!(windows(&m, 0).is_empty());
    assert!(windows(&m, 1).is_empty());
    assert_eq!(windows(&m, 2), vec![6]);
}

#[test]
fn remove_window_takes_it_off_every_desktop() {
    let mut m = DesktopManager::new();
    m.assign_window(1, "");
    m.assign_window(2, "");
    m.desktops[2].window_hwnds.push(1);
    m.remove_window(1);
    assert_eq!(windows(&m, 0), vec![2]);
    assert!(windows(&m, 2).is_empty());
    m.remove_window(99);
    assert_eq!(windows(&m, 0), vec![2]);
}

#[test]
fn move_window_leaves_one_copy_on_target() {
    let mut m = DesktopManager::new();
    m.assign_window(1, "");
    m.assign_window(2, "");
    m.desktops[1].window_hwnds.push(1);
    m.move_window_to_desktop(1, 2);
    assert_eq!(windows(&m, 0), vec![2]);
    assert!(windows(&m, 1).is_empty());
    assert_eq!(windows(&m, 2), vec![1]);
}

#[test]
fn move_window_to_missing_desktop_only_removes() {
    let mut m = DesktopManager::new();
    m.assign_window(1, "");
    m.move_window_to_desktop(1, 5);
    assert!(m.desktops.iter().all(|d| d.window_hwnds.is_empty()));
}

#[test]
fn create_desktop_appends_with_next_id() {
    let mut m = DesktopManager::new();
    m.create_desktop("Dördüncü".to_string());
    assert_eq!(m.desktops.len(), 4);
    assert_eq!(m.desktops[3].id, 3);
    assert_eq!(m.desktops[3].name, "Dördüncü");
    assert!(ids_match_positions(&m));
}

#[test]
fn delete_desktop_renumbers_and_follows_current() {
    let mut m = DesktopManager::new();
    m.current = 2;
    assert!(m.delete_desktop(0).is_ok());
    assert_eq!(m.desktops.len(), 2);
    assert_eq!(m.desktops[0].name, "İş");
    assert_eq!(m.desktops[1].name, "Eğlence");
    assert_eq!(m.desktops[0].id, 0);
    assert_eq!(m.desktops[1].id, 1);
    assert_eq!(m.current, 1);
    assert_eq!(m.desktops[m.current].name, "Eğlence");
}

#[test]
fn delete_current_last_desktop_moves_current_back() {
    let mut m = DesktopManager::new();
    m.current = 2;
    assert!(m.delete_desktop(2).is_ok());
    assert_eq!(m.current, 1);
    assert!(ids_match_positions(&m));
}

#[test]
fn delete_desktop_errors() {
    let mut m = DesktopManager::new();
    assert_eq!(m.delete_desktop(3), Err("Geçersiz masaüstü".to_string()));
    assert_eq!(m.desktops.len(), 3);
    assert!(m.delete_desktop(1).is_ok());
    assert!(m.delete_desktop(1).is_ok());
    assert_eq!(m.delete_desktop(0), Err("Son masaüstü silinemez".to_string()));
    assert_eq!(m.desktops.len(), 1);
    assert_eq!(m.desktops[0].name, "Ana");
}

#[test]
fn delete_undoes_create() {
    let mut m = DesktopManager::new();
    m.current = 1;
    m.create_desktop("x".to_string());
    assert!(m.delete_desktop(3).is_ok());
    assert_eq!(m.desktops.len(), 3);
    assert_eq!(m.current, 1);
    let names: Vec<&str> = m.desktops.iter().map(|d: &Desktop| d.name.as_str()).collect();
    assert_eq!(names, vec!["Ana", "İş", "Eğlence"]);
}

#[test]
fn rename_desktop_only_existing() {
    let mut m = DesktopManager::new();
    m.rename_desktop(1, "Kod".to_string());
    m.rename_desktop(9, "Yok".to_string());
    assert_eq!(m.desktops[1].name, "Kod");
    assert_eq!(m.desktops.len(), 3);
}

#[test]
fn shortcuts_fill_six_column_grid() {
    let mut m = DesktopManager::new();
    for i in 0..7 {
        m.add_shortcut(0, format!("s{}", i), "p".to_string(), "i".to_string());
    }
    let s = &m.desktops[0].shortcuts;
    assert_eq!(s.len(), 7);
    assert!(matches!(s[0].position, ShortcutPosition::Grid { column: 0, row: 0 }));
    assert!(matches!(s[5].position, ShortcutPosition::Grid { column: 5, row: 0 }));
    assert!(matches!(s[6].position, ShortcutPosition::Grid { column: 0, row: 1 }));
    assert_eq!(s[6].name, "s6");
    m.add_shortcut(7, "no".to_string(), "p".to_string(), "i".to_string());
    assert_eq!(m.desktops.iter().map(|d| d.shortcuts.len()).sum::<usize>(), 7);
}

#[test]
fn shortcut_position_update_and_delete() {
    let mut m = DesktopManager::new();
    m.add_shortcut(1, "a".to_string(), "pa".to_string(), "ia".to_string());
    m.add_shortcut(1, "b".to_string(), "pb".to_string(), "ib".to_string());
    let x = 12.5f64;
    let y = 300.25f64;
    m.update_shortcut_position(1, 1, x.to_bits(), y.to_bits());
    match m.desktops[1].shortcuts[1].position {
        ShortcutPosition::Free { x_bits, y_bits } => {
            assert_eq!(f64::from_bits(x_bits), 12.5);
            assert_eq!(f64::from_bits(y_bits), 300.25);
        }
        _ => panic!("position not updated"),
    }
    m.update_shortcut_position(1, 5, 0, 0);
    m.delete_shortcut(1, 0);
    assert_eq!(m.desktops[1].shortcuts.len(), 1);
    assert_eq!(m.desktops[1].shortcuts[0].name, "b");
    m.delete_shortcut(1, 3);
    assert_eq!(m.desktops[1].shortcuts.len(), 1);
}

#[test]
fn promote_master_on_current_desktop() {
    let mut m = DesktopManager::new();
    m.assign_window(1, "");
    m.assign_window(2, "");
    m.assign_window(3, "");
    m.promote_master(3);
    assert_eq!(windows(&m, 0), vec![3, 1, 2]);
    m.promote_master(3);
    assert_eq!(windows(&m, 0), vec![3, 1, 2]);
}

#[test]
fn windows_to_tile_keeps_open_windows_in_order() {
    let mut m = DesktopManager::new();
    m.assign_window(1, "");
    m.assign_window(2, "");
    m.assign_window(3, "");
    assert_eq!(m.windows_to_tile(&[3, 1, 8]), vec![1, 3]);
}

#[test]
fn new_windows_follow_remembered_desktop_then_auto_assign() {
    let mut m = DesktopManager::new();
    m.assign_window(1, "");
    let cur = m.place_new_windows(&[1, 20, 21, 22, 23], &[Some(2), Some(2), None, Some(9), Some(-1)], true);
    assert_eq!(windows(&m, 0), vec![1, 21, 22, 23]);
    assert_eq!(windows(&m, 2), vec![20]);
    assert_eq!(cur, vec![1, 21, 22, 23]);
}

#[test]
fn new_windows_without_auto_assign_only_go_to_remembered_desktops() {
    let mut m = DesktopManager::new();
    let cur = m.place_new_windows(&[5, 6], &[None, Some(1)], false);
    assert!(cur.is_empty());
    assert_eq!(windows(&m, 1), vec![6]);
}
