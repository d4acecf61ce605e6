use menubar::dispatch::{
    DispatchAction, EditCommand, KeyInput, StandardAction, VK_CONTROL, dispatch_activation,
    edit_command_inputs,
};
use menubar::events::{EventRouter, MenuEvent};
use menubar::menu::Menu;
use menubar::native_item::{AboutMetadata, NativeMenuItem};

#[test]
fn save_item_scenario() {
    let mut menu = Menu::new();
    let mut router = EventRouter::new();
    let file = menu.add_submenu("File", true);
    let save = file.add_text_item(&mut menu, "Save", true, Some("Ctrl+S")).unwrap();
    assert_eq!(save.label(&menu), "Save");
    assert!(save.enabled(&menu));
    assert_eq!(save.label_with_accel(&menu), "Save\tCtrl+S");

    let action = dispatch_activation(&mut menu, &mut router, save.id());
    assert_eq!(action, DispatchAction::Event(MenuEvent { id: save.id() }));
    assert_eq!(router.try_recv(), Some(MenuEvent { id: save.id() }));
    assert_eq!(router.try_recv(), None);
}

#[test]
fn quit_item_never_publishes() {
    let mut menu = Menu::new();
    let mut router = EventRouter::new();
    let file = menu.add_submenu("File", true);
    file.add_native_item(&mut menu, NativeMenuItem::Quit);
    let action = dispatch_activation(&mut menu, &mut router, 308);
    assert_eq!(action, DispatchAction::Native(StandardAction::Quit));
    assert_eq!(router.try_recv(), None);
}

#[test]
fn check_item_toggles_on_activation() {
    let mut menu = Menu::new();
    let mut router = EventRouter::new();
    let format = menu.add_submenu("Format", true);
    let bold = format.add_check_item(&mut menu, "Bold", true, false, None);
    assert!(!bold.checked(&menu));

    dispatch_activation(&mut menu, &mut router, bold.id());
    assert!(bold.checked(&menu));

    bold.set_enabled(&mut menu, false);
    assert!(!bold.enabled(&menu));
    assert!(bold.checked(&menu));
}

#[test]
fn check_item_toggled_twice_restores_state() {
    let mut menu = Menu::new();
    let mut router = EventRouter::new();
    let format = menu.add_submenu("Format", true);
    let bold = format.add_check_item(&mut menu, "Bold", true, false, None);
    dispatch_activation(&mut menu, &mut router, bold.id());
    dispatch_activation(&mut menu, &mut router, bold.id());
    assert!(!bold.checked(&menu));
    assert_eq!(router.try_recv(), Some(MenuEvent { id: bold.id() }));
    assert_eq!(router.try_recv(), Some(MenuEvent { id: bold.id() }));
    assert_eq!(router.try_recv(), None);
}

#[test]
fn native_range_dispatches_to_standard_actions() {
    let mut menu = Menu::new();
    let mut router = EventRouter::new();
    let expected = [
        (301, DispatchAction::Native(StandardAction::Edit(EditCommand::Copy))),
        (302, DispatchAction::Native(StandardAction::Edit(EditCommand::Cut))),
        (303, DispatchAction::Native(StandardAction::Edit(EditCommand::Paste))),
        (304, DispatchAction::Native(StandardAction::Edit(EditCommand::SelectAll))),
        (305, DispatchAction::Native(StandardAction::NoOp)),
        (306, DispatchAction::Native(StandardAction::MinimizeWindow)),
        (307, DispatchAction::Native(StandardAction::CloseWindow)),
        (308, DispatchAction::Native(StandardAction::Quit)),
    ];
    for (id, want) in expected {
        assert!(NativeMenuItem::is_native(id));
        assert_eq!(dispatch_activation(&mut menu, &mut router, id), want);
    }
    assert_eq!(router.try_recv(), None);
}

#[test]
fn fixed_ids_roundtrip() {
    for id in 301..=308u64 {
        let item = NativeMenuItem::from_id(id);
        assert_eq!(item.id(), id);
    }
    assert!(!NativeMenuItem::is_native(300));
    assert!(!NativeMenuItem::is_native(309));
    assert!(!NativeMenuItem::is_native(1000));
}

#[test]
fn unknown_ids_fall_through() {
    let mut menu = Menu::new();
    let mut router = EventRouter::new();
    let file = menu.add_submenu("File", true);
    file.add_item(&mut menu, "Open", true, None);
    assert_eq!(dispatch_activation(&mut menu, &mut router, 50), DispatchAction::FallThrough);
    assert_eq!(dispatch_activation(&mut menu, &mut router, 500), DispatchAction::FallThrough);
    assert_eq!(dispatch_activation(&mut menu, &mut router, 99999), DispatchAction::FallThrough);
    assert_eq!(router.try_recv(), None);
}

#[test]
fn submenu_id_is_not_a_custom_event() {
    let mut menu = Menu::new();
    let mut router = EventRouter::new();
    let file = menu.add_submenu("File", true);
    assert_eq!(dispatch_activation(&mut menu, &mut router, file.id), DispatchAction::FallThrough);
    assert_eq!(router.try_recv(), None);
}

#[test]
fn about_item_dispatches_to_dialog() {
    let mut menu = Menu::new();
    let mut router = EventRouter::new();
    let help = menu.add_submenu("Help", true);
    let mut meta = AboutMetadata::new();
    meta.version = Some("2.0".to_string());
    help.add_native_item(&mut menu, NativeMenuItem::About("MyApp".to_string(), meta));
    let about_id = menu.entry_id_at(menu.entries_len() - 1);
    assert!((400..1000).contains(&about_id));
    let action = dispatch_activation(&mut menu, &mut router, about_id);
    assert_eq!(action, DispatchAction::ShowAbout(about_id));
    assert_eq!(router.try_recv(), None);
    let text = menu.about_dialog_text(about_id).unwrap();
    assert_eq!(text, "MyApp\nVersion: 2.0");
    assert!(menu.about_dialog_text(999).is_none());
}

#[test]
fn edit_commands_synthesize_ctrl_chord() {
    let inputs = edit_command_inputs(EditCommand::Copy);
    assert_eq!(
        inputs,
        vec![
            KeyInput { vk: VK_CONTROL, pressed: true },
            KeyInput { vk: 0x43, pressed: true },
            KeyInput { vk: 0x43, pressed: false },
            KeyInput { vk: VK_CONTROL, pressed: false },
        ]
    );
    assert_eq!(edit_command_inputs(EditCommand::Cut)[1].vk, 0x58);
    assert_eq!(edit_command_inputs(EditCommand::Paste)[1].vk, 0x56);
    assert_eq!(edit_command_inputs(EditCommand::SelectAll)[1].vk, 0x41);
}

#[test]
fn router_is_fifo_in_publish_order() {
    let mut router = EventRouter::new();
    router.send(MenuEvent { id: 1001 });
    router.send(MenuEvent { id: 1002 });
    router.send(MenuEvent { id: 1003 });
    assert_eq!(router.try_recv(), Some(MenuEvent { id: 1001 }));
    router.send(MenuEvent { id: 1004 });
    assert_eq!(router.try_recv(), Some(MenuEvent { id: 1002 }));
    assert_eq!(router.try_recv(), Some(MenuEvent { id: 1003 }));
    assert_eq!(router.try_recv(), Some(MenuEvent { id: 1004 }));
    assert_eq!(router.try_recv(), None);
}
