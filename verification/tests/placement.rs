use codex_overlay::overlay::{
    clamp_width, menu_action, startup_pinned, toggle_placement_action, tray_tip_due, tray_tip_recorded, window_height, MenuAction,
    PlacementToggle,
};
use codex_overlay::placement::{centered_position, intersects, restore_position, MonitorInfo};

fn monitor(name: &str, x: i32, y: i32, width: u32, height: u32) -> MonitorInfo {
    MonitorInfo { name: Some(name.to_string()), x, y, width, height }
}

#[test]
fn rectangles_intersect() {
    assert!(intersects(10, 10, 100, 40, 0, 0, 1920, 1080));
    assert!(!intersects(1920, 10, 100, 40, 0, 0, 1920, 1080));
    assert!(intersects(-50, 0, 100, 40, -1920, 0, 1920, 1080));
    assert!(!intersects(0, 1080, 100, 40, 0, 0, 1920, 1080));
}

#[test]
fn saved_position_on_its_monitor_is_kept() {
    let monitors = vec![monitor("A", 0, 0, 1920, 1080), monitor("B", -1920, 0, 1920, 1080)];
    let r = restore_position(-1500, 300, &Some("B".to_string()), 370, 42, &monitors);
    assert_eq!(r, Some((-1500, 300)));
}

#[test]
fn removed_monitor_recovers_to_an_available_one() {
    let monitors = vec![monitor("A", 0, 0, 1920, 1080)];
    let r = restore_position(-1500, 300, &Some("B".to_string()), 370, 42, &monitors);
    assert_eq!(r, Some((775, 24)));
}

#[test]
fn overlapping_monitor_is_chosen_when_name_is_gone() {
    let monitors = vec![monitor("A", 0, 0, 1920, 1080), monitor("C", 1920, 0, 2560, 1440)];
    let r = restore_position(2000, 100, &Some("B".to_string()), 370, 42, &monitors);
    assert_eq!(r, Some((2000, 100)));
}

#[test]
fn named_monitor_not_overlapped_is_centred() {
    let monitors = vec![monitor("A", 0, 0, 1920, 1080), monitor("C", 1920, 0, 2560, 1440)];
    let r = restore_position(100, 100, &Some("C".to_string()), 370, 42, &monitors);
    assert_eq!(r, Some((1920 + 1095, 24)));
}

#[test]
fn no_monitor_means_no_position() {
    assert_eq!(restore_position(0, 0, &None, 370, 42, &Vec::new()), None);
}

#[test]
fn unnamed_monitors_match_a_missing_name() {
    let monitors = vec![monitor("A", 0, 0, 800, 600), MonitorInfo { name: None, x: 800, y: 0, width: 800, height: 600 }];
    assert_eq!(restore_position(0, 0, &None, 370, 42, &monitors), Some((800 + 215, 24)));
}

#[test]
fn centring_on_narrow_monitor() {
    assert_eq!(centered_position(&monitor("A", 10, 20, 300, 200), 370), (10, 44));
    assert_eq!(centered_position(&monitor("A", 0, 0, 1920, 1080), 370), (775, 24));
}

#[test]
fn overlay_sizes() {
    assert_eq!(clamp_width(100), 300);
    assert_eq!(clamp_width(400), 400);
    assert_eq!(clamp_width(9999), 520);
    assert_eq!(window_height(true), 180);
    assert_eq!(window_height(false), 42);
    assert_eq!(toggle_placement_action(true), PlacementToggle::EnterPlacement);
    assert_eq!(toggle_placement_action(false), PlacementToggle::Pin);
}

#[test]
fn tray_menu_ids() {
    assert_eq!(menu_action("settings"), MenuAction::Settings);
    assert_eq!(menu_action("edit-position"), MenuAction::EditPosition);
    assert_eq!(menu_action("refresh"), MenuAction::Refresh);
    assert_eq!(menu_action("details"), MenuAction::Details);
    assert_eq!(menu_action("toggle-visible"), MenuAction::ToggleVisible);
    assert_eq!(menu_action("autostart"), MenuAction::Autostart);
    assert_eq!(menu_action("quit"), MenuAction::Quit);
    assert_eq!(menu_action("title"), MenuAction::Ignore);
}

#[test]
fn tray_tip_is_shown_once() {
    assert!(tray_tip_due(false));
    assert!(!tray_tip_due(true));
    assert!(tray_tip_recorded(false, true));
    assert!(!tray_tip_recorded(false, false));
    assert!(tray_tip_recorded(true, false));
}

#[test]
fn pinned_state_comes_back_with_the_position() {
    assert!(startup_pinned(true, Some(true)));
    assert!(!startup_pinned(true, Some(false)));
    assert!(!startup_pinned(false, Some(true)));
    assert!(!startup_pinned(true, None));
}
