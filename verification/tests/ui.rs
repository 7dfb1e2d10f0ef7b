use tanakai::config::ThemeColors;
use tanakai::photon::layer::PhotonLayer;
use tanakai::ui::theme::{get_color, parse_color, Rgb};
use tanakai::ui::tray::{action_for_menu_entry, first_existing, TrayAction};
use tanakai::ui::window::{window_manager_step, WindowAction, WindowMessage};
use tanakai::ui::{status_color_name, SidebarItem, StatusType};
use tanakai::utils::text::{same_text, split_text};

#[test]
fn a_status_is_shown_in_the_colour_of_its_kind() {
    assert_eq!(status_color_name(StatusType::Success), "success");
    assert_eq!(status_color_name(StatusType::Warning), "warning");
    assert_eq!(status_color_name(StatusType::Error), "error");
    assert_eq!(status_color_name(StatusType::Info), "primary");
}

#[test]
fn a_sidebar_item_holds_its_fields() {
    let item = SidebarItem { text: "Dashboard".to_string(), icon: Some("d"), selected: true };
    assert_eq!(item.text, "Dashboard");
    assert_eq!(item.icon, Some("d"));
    assert!(item.selected);
}

#[test]
fn the_window_manager_follows_its_messages() {
    assert_eq!(window_manager_step(Some(WindowMessage::MinimizeToTray)), WindowAction::Minimize);
    assert_eq!(window_manager_step(Some(WindowMessage::RestoreFromTray)), WindowAction::Restore);
    assert_eq!(window_manager_step(Some(WindowMessage::Exit)), WindowAction::Stop);
    assert_eq!(window_manager_step(None), WindowAction::Stop);
}

#[test]
fn a_menu_entry_stands_for_its_action() {
    assert_eq!(action_for_menu_entry(true, false, false), Some(TrayAction::ShowInfo));
    assert_eq!(action_for_menu_entry(false, true, false), Some(TrayAction::Restore));
    assert_eq!(action_for_menu_entry(false, false, true), Some(TrayAction::Exit));
    assert_eq!(action_for_menu_entry(false, false, false), None);
    assert_eq!(action_for_menu_entry(true, true, true), Some(TrayAction::ShowInfo));
    assert_eq!(action_for_menu_entry(false, true, true), Some(TrayAction::Restore));
}

#[test]
fn the_icon_is_taken_from_the_first_place_that_has_it() {
    assert_eq!(first_existing(&vec![false, true, true]), Some(1));
    assert_eq!(first_existing(&vec![true]), Some(0));
    assert_eq!(first_existing(&vec![false, false]), None);
    assert_eq!(first_existing(&Vec::new()), None);
}

#[test]
fn a_colour_is_read_from_six_hexadecimal_digits() {
    assert_eq!(parse_color("#00ff00"), Some(Rgb { red: 0, green: 255, blue: 0 }));
    assert_eq!(parse_color("#1a2B3c"), Some(Rgb { red: 0x1a, green: 0x2b, blue: 0x3c }));
    assert_eq!(parse_color("#ffffff and more"), Some(Rgb { red: 255, green: 255, blue: 255 }));
    assert_eq!(parse_color("x000000"), Some(Rgb { red: 0, green: 0, blue: 0 }));
    assert_eq!(parse_color("#+a+b+c"), Some(Rgb { red: 10, green: 11, blue: 12 }));
}

#[test]
fn what_is_no_colour_is_read_as_nothing() {
    assert_eq!(parse_color(""), None);
    assert_eq!(parse_color("#00ff0"), None);
    assert_eq!(parse_color("#00fg00"), None);
    assert_eq!(parse_color("#-1ff00"), None);
    assert_eq!(parse_color("# 0ff00"), None);
    assert_eq!(parse_color("\u{e9}00ff00"), None);
    assert_eq!(parse_color("#00\u{e9}f00"), None);
}

#[test]
fn the_theme_gives_the_colour_of_a_name() {
    let colors = ThemeColors::default();
    assert_eq!(get_color(&colors, "primary"), Some(Rgb { red: 0, green: 255, blue: 0 }));
    assert_eq!(get_color(&colors, "secondary"), Some(Rgb { red: 255, green: 0, blue: 255 }));
    assert_eq!(get_color(&colors, "background"), Some(Rgb { red: 0, green: 0, blue: 0 }));
    assert_eq!(get_color(&colors, "surface"), Some(Rgb { red: 26, green: 26, blue: 26 }));
    assert_eq!(get_color(&colors, "text"), Some(Rgb { red: 255, green: 255, blue: 255 }));
    assert_eq!(get_color(&colors, "accent"), Some(Rgb { red: 0, green: 255, blue: 255 }));
    assert_eq!(get_color(&colors, "error"), Some(Rgb { red: 255, green: 0, blue: 0 }));
    assert_eq!(get_color(&colors, "warning"), Some(Rgb { red: 255, green: 255, blue: 0 }));
    assert_eq!(get_color(&colors, "success"), Some(Rgb { red: 0, green: 255, blue: 0 }));
}

#[test]
fn an_unknown_name_is_white_and_a_bad_colour_is_nothing() {
    let mut colors = ThemeColors::default();
    assert_eq!(get_color(&colors, "Primary"), Some(Rgb { red: 255, green: 255, blue: 255 }));
    assert_eq!(get_color(&colors, ""), Some(Rgb { red: 255, green: 255, blue: 255 }));
    colors.accent = "blue".to_string();
    assert_eq!(get_color(&colors, "accent"), None);
    assert_eq!(get_color(&colors, "error"), Some(Rgb { red: 255, green: 0, blue: 0 }));
}

#[test]
fn a_text_is_split_at_every_separator() {
    assert_eq!(split_text("a-b", '-'), vec!["a", "b"]);
    assert_eq!(split_text("", '-'), vec![""]);
    assert_eq!(split_text("-", '-'), vec!["", ""]);
    assert_eq!(split_text("ab", '-'), vec!["ab"]);
    assert_eq!(split_text("-a--\u{e9}-", '-'), vec!["", "a", "", "\u{e9}", ""]);
}

#[test]
fn texts_are_compared_by_their_characters() {
    assert!(same_text("abc", "abc"));
    assert!(same_text("", ""));
    assert!(!same_text("abc", "abd"));
    assert!(!same_text("abc", "ab"));
}

#[test]
fn the_layer_drops_stale_fragments_on_request() {
    let frame = |id: u8, number: u8| {
        let mut packet = vec![1, 0, 0, 1, 0, 0, 0, 0, 0, 0, 0, 0, 2, 18];
        packet.extend_from_slice(&[id, 0, 0, 0, 2, 0, 0, 0, number, 0, 0, 0, 2, 0, 0, 0]);
        packet.extend_from_slice(&[40 + number, 0]);
        packet
    };
    let mut layer = PhotonLayer::new();
    assert!(layer.process_packet(&frame(1, 0)).unwrap().is_empty());
    for _ in 0..1025 {
        assert!(layer.process_packet(&frame(2, 0)).unwrap().is_empty());
    }
    layer.clean_old_entries();
    assert!(layer.process_packet(&frame(1, 1)).unwrap().is_empty());
    assert_eq!(layer.process_packet(&frame(2, 1)).unwrap().len(), 1);
}
