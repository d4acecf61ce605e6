use menubar::accel::{Accelerator, Modifiers};
use menubar::keycode::KeyCode;
use menubar::menu::Menu;
use menubar::label::{display_label, first_tab_segment, strip_mnemonic};
use menubar::native_item::{AboutMetadata, NativeMenuItem, about_dialog_text};

fn ctrl() -> Modifiers {
    Modifiers { ctrl: true, shift: false, alt: false, meta: false }
}

#[test]
fn submenu_title_strips_mnemonic() {
    let mut menu = Menu::new();
    let file = menu.add_submenu("&File", true);
    assert_eq!(file.label(&menu), "File");
    let edit = menu.add_submenu("E&dit", true);
    assert_eq!(edit.label(&menu), "Edit");
}

#[test]
fn submenu_set_label_strips_mnemonic() {
    let mut menu = Menu::new();
    let sub = menu.add_submenu("File", true);
    sub.set_label(&mut menu, "&Archive");
    assert_eq!(sub.label(&menu), "Archive");
}

#[test]
fn submenu_enabled_flag() {
    let mut menu = Menu::new();
    let sub = menu.add_submenu("File", false);
    assert!(!sub.enabled(&menu));
    sub.set_enabled(&mut menu, true);
    assert!(sub.enabled(&menu));
}

#[test]
fn item_label_reads_back_exactly() {
    let mut menu = Menu::new();
    let sub = menu.add_submenu("File", true);
    let item = sub.add_item(
        &mut menu,
        "Save",
        true,
        Some(Accelerator::new(ctrl(), KeyCode::KeyS)),
    );
    assert_eq!(item.label(&menu), "Save");
    assert_eq!(item.label_with_accel(&menu), "Save\tCtrl+S");
    item.set_label(&mut menu, "Store");
    assert_eq!(item.label(&menu), "Store");
    assert_eq!(item.label_with_accel(&menu), "Store\tCtrl+S");
}

#[test]
fn item_without_accelerator_has_plain_title() {
    let mut menu = Menu::new();
    let sub = menu.add_submenu("File", true);
    let item = sub.add_item(&mut menu, "Open", true, None);
    assert_eq!(item.label(&menu), "Open");
    assert_eq!(item.label_with_accel(&menu), "Open");
}

#[test]
fn item_ids_strictly_increase() {
    let mut menu = Menu::new();
    let sub = menu.add_submenu("File", true);
    let a = sub.add_item(&mut menu, "A", true, None);
    let b = sub.add_item(&mut menu, "B", true, None);
    let c = sub.add_check_item(&mut menu, "C", true, false, None);
    assert!(a.id() >= 1000);
    assert!(a.id() < b.id());
    assert!(b.id() < c.id());
}

#[test]
fn accelerator_table_tracks_items() {
    let mut menu = Menu::new();
    let sub = menu.add_submenu("File", true);
    let save = sub.add_item(
        &mut menu,
        "Save",
        true,
        Some(Accelerator::new(ctrl(), KeyCode::KeyS)),
    );
    let _open = sub.add_item(&mut menu, "Open", true, None);
    let quit = sub.add_item(
        &mut menu,
        "Quit",
        true,
        Some(Accelerator::new(ctrl(), KeyCode::KeyQ)),
    );
    let table = menu.haccel();
    assert_eq!(table.len(), 2);
    assert_eq!(table[0].cmd, save.id());
    assert_eq!(table[0].vk, 0x53);
    assert_eq!(table[0].flags, 0x01 | 0x08);
    assert_eq!(table[1].cmd, quit.id());
    assert_eq!(table[1].vk, 0x51);
}

#[test]
fn string_accelerator_is_parsed_at_construction() {
    let mut menu = Menu::new();
    let sub = menu.add_submenu("File", true);
    let item = sub.add_text_item(&mut menu, "Save", true, Some("Ctrl+S")).unwrap();
    assert_eq!(item.label_with_accel(&menu), "Save\tCtrl+S");
    let before = menu.entries_len();
    let bad = sub.add_text_item(&mut menu, "Broken", true, Some("Ctrl+Nope"));
    assert!(bad.is_err());
    assert_eq!(menu.entries_len(), before);
}

#[test]
fn native_item_catalog_labels() {
    assert_eq!(NativeMenuItem::Copy.label(), "Copy");
    assert_eq!(NativeMenuItem::SelectAll.label(), "Select All");
    assert_eq!(NativeMenuItem::Separator.label(), "");
    let about = NativeMenuItem::About("MyApp".to_string(), AboutMetadata::new());
    assert_eq!(about.label(), "About MyApp");
}

#[test]
fn native_item_default_accelerators() {
    let copy = NativeMenuItem::Copy.default_accelerator().unwrap();
    assert_eq!(copy.render(), "Ctrl+C");
    let redo = NativeMenuItem::Redo.default_accelerator().unwrap();
    assert_eq!(redo.render(), "Ctrl+Shift+Z");
    assert!(NativeMenuItem::Separator.default_accelerator().is_none());
    assert!(NativeMenuItem::Zoom.default_accelerator().is_none());
}

#[test]
fn about_dialog_follows_fixed_template() {
    let meta = AboutMetadata {
        version: Some("1.2.0".to_string()),
        authors: Some(vec!["Ada".to_string(), "Grace".to_string()]),
        comments: Some("A menu demo.".to_string()),
        license: Some("MIT".to_string()),
        website: Some("https://example.org".to_string()),
        website_label: None,
        copyright: Some("(c) 2024".to_string()),
    };
    let text = about_dialog_text("MyApp", &meta);
    assert_eq!(
        text,
        "MyApp\nVersion: 1.2.0\nBy: Ada, Grace\n\nA menu demo.\nLicense: MIT\nWebsite: https://example.org\n(c) 2024"
    );
}

#[test]
fn about_dialog_skips_absent_fields() {
    let mut meta = AboutMetadata::new();
    meta.version = Some("0.1".to_string());
    assert_eq!(about_dialog_text("Tool", &meta), "Tool\nVersion: 0.1");
    assert_eq!(about_dialog_text("Tool", &AboutMetadata::new()), "Tool");
}

#[test]
fn menu_attachment_lifecycle() {
    let mut menu = Menu::new();
    assert!(!menu.is_attached(7));
    menu.init_for_hwnd(7);
    assert!(menu.is_attached(7));
    assert!(menu.is_visible_for(7));
    menu.hide_for_hwnd(7);
    assert!(menu.is_attached(7));
    assert!(!menu.is_visible_for(7));
    menu.show_for_hwnd(7);
    assert!(menu.is_visible_for(7));
    menu.remove_for_hwnd(7);
    assert!(!menu.is_attached(7));
}

#[test]
fn attachment_is_per_window() {
    let mut menu = Menu::new();
    menu.init_for_hwnd(1);
    menu.init_for_hwnd(2);
    menu.hide_for_hwnd(1);
    assert!(!menu.is_visible_for(1));
    assert!(menu.is_visible_for(2));
    menu.remove_for_hwnd(2);
    assert!(menu.is_attached(1));
    assert!(!menu.is_attached(2));
}

#[test]
fn display_title_read_back_strips_suffix() {
    let a = Accelerator::new(ctrl(), KeyCode::KeyS);
    let title = display_label("Save", &Some(a));
    assert_eq!(title, "Save\tCtrl+S");
    assert_eq!(first_tab_segment(&title), "Save");
    assert_eq!(first_tab_segment("Plain"), "Plain");
    assert_eq!(strip_mnemonic("&Save &All"), "Save All");
    assert_eq!(strip_mnemonic("Plain"), "Plain");
}
