//! Activation dispatch: from a native "item activated" notification to
//! exactly one outcome.
//!
//! The notification carries only an identifier. An identifier in the
//! native-standard range 301..=308 resolves to the built-in behavior of
//! that item; an allocated identifier resolves through the registry to a
//! published `MenuEvent` (toggling a checkable item's state first) or to
//! the About dialog; anything else falls through to the toolkit's default
//! handling. Exactly one of these happens per notification.

use vstd::prelude::*;

use crate::events::EventRouter;
use crate::events::MenuEvent;
use crate::menu::ABOUT_ID_LIMIT;
use crate::menu::ABOUT_ID_START;
use crate::menu::CUSTOM_ID_START;
use crate::menu::CheckMenuItem;
use crate::menu::EntryKind;
use crate::menu::Menu;
use crate::menu::MenuEntry;
use crate::menu::lemma_find_id_at;
use crate::menu::spec_find_registered;
use crate::native_item::NATIVE_ID_FIRST;
use crate::native_item::NATIVE_ID_LAST;
use crate::native_item::NativeMenuItem;

verus! {

/// Virtual-key code of the Ctrl key, the modifier held around every
/// synthesized edit keystroke.
pub const VK_CONTROL: u16 = 0x11;

/// The clipboard-editing commands that, lacking a direct programmatic
/// call, are carried out by synthesizing a keystroke at the OS input
/// layer.
#[derive(Clone, Copy, Debug, PartialEq, Eq, Structural)]
pub enum EditCommand {
    Copy,
    Cut,
    Paste,
    SelectAll,
}

/// One step of a synthesized input sequence: a virtual key going down or
/// up.
#[derive(Clone, Copy, Debug, PartialEq, Eq, Structural)]
pub struct KeyInput {
    pub vk: u16,
    pub pressed: bool,
}

/// The virtual key whose Ctrl chord carries out an edit command.
pub open spec fn spec_edit_vk(cmd: EditCommand) -> u16 {
    match cmd {
        EditCommand::Copy => 0x43,  // C
        EditCommand::Cut => 0x58,  // X
        EditCommand::Paste => 0x56,  // V
        EditCommand::SelectAll => 0x41,  // A
    }
}

/// The synthesized sequence for an edit command: Ctrl down, the command's
/// key down, the key up, Ctrl up.
pub open spec fn spec_edit_inputs(cmd: EditCommand) -> Seq<KeyInput> {
    seq![
        KeyInput { vk: VK_CONTROL, pressed: true },
        KeyInput { vk: spec_edit_vk(cmd), pressed: true },
        KeyInput { vk: spec_edit_vk(cmd), pressed: false },
        KeyInput { vk: VK_CONTROL, pressed: false },
    ]
}

/// Builds the four-step input sequence that carries out an edit command
/// on the OS-focused control. Deliberately fire-and-forget: the caller
/// sends it and gets no completion signal.
pub fn edit_command_inputs(cmd: EditCommand) -> (r: Vec<KeyInput>)
    ensures
        r@ == spec_edit_inputs(cmd),
{
    let vk: u16 = match cmd {
        EditCommand::Copy => 0x43,
        EditCommand::Cut => 0x58,
        EditCommand::Paste => 0x56,
        EditCommand::SelectAll => 0x41,
    };
    let mut r: Vec<KeyInput> = Vec::new();
    r.push(KeyInput { vk: VK_CONTROL, pressed: true });
    r.push(KeyInput { vk, pressed: true });
    r.push(KeyInput { vk, pressed: false });
    r.push(KeyInput { vk: VK_CONTROL, pressed: false });
    proof {
        assert(r@ =~= spec_edit_inputs(cmd));
    }
    r
}

/// The built-in behavior behind a native-standard identifier.
#[derive(Clone, Copy, Debug, PartialEq, Eq, Structural)]
pub enum StandardAction {
    /// Synthesize the edit command's keystroke chord.
    Edit(EditCommand),
    /// Minimize the notifying window.
    MinimizeWindow,
    /// Close the notifying window.
    CloseWindow,
    /// Terminate the application.
    Quit,
    /// Nothing to carry out (a separator's identifier never arrives from
    /// a working toolkit).
    NoOp,
}

/// Which built-in behavior a native-standard item stands for.
pub open spec fn spec_standard_action(item: NativeMenuItem) -> StandardAction {
    match item {
        NativeMenuItem::Copy => StandardAction::Edit(EditCommand::Copy),
        NativeMenuItem::Cut => StandardAction::Edit(EditCommand::Cut),
        NativeMenuItem::Paste => StandardAction::Edit(EditCommand::Paste),
        NativeMenuItem::SelectAll => StandardAction::Edit(EditCommand::SelectAll),
        NativeMenuItem::Minimize => StandardAction::MinimizeWindow,
        NativeMenuItem::CloseWindow => StandardAction::CloseWindow,
        NativeMenuItem::Quit => StandardAction::Quit,
        _ => StandardAction::NoOp,
    }
}

/// What a notification resolved to.
#[derive(Clone, Copy, Debug, PartialEq, Eq, Structural)]
pub enum DispatchAction {
    /// A custom item: this event was published on the router.
    Event(MenuEvent),
    /// A native-standard item: the caller performs this built-in
    /// behavior.
    Native(StandardAction),
    /// An About item: the caller shows the About dialog of the item with
    /// this identifier, rendered from its stored metadata.
    ShowAbout(u64),
    /// No known identifier: hand the notification to default processing.
    FallThrough,
}

/// `s` with the checked flag of slot `j` flipped.
pub open spec fn spec_toggle_checked(s: Seq<MenuEntry>, j: int) -> Seq<MenuEntry> {
    s.update(j, MenuEntry { checked: !s[j].checked, ..s[j] })
}

/// Flipping a checkable item's state twice restores the registry exactly:
/// activating a checkable item twice leaves its state as it began.
pub proof fn lemma_check_toggle_involution(s: Seq<MenuEntry>, j: int)
    requires
        0 <= j < s.len(),
    ensures
        spec_toggle_checked(spec_toggle_checked(s, j), j) == s,
{
    assert(spec_toggle_checked(spec_toggle_checked(s, j), j) =~= s);
}

/// No identifier classifies into two categories at once: the
/// native-standard range, the About range and the custom range are
/// pairwise disjoint.
pub proof fn lemma_id_ranges_disjoint(id: u64)
    ensures
        !(NATIVE_ID_FIRST <= id <= NATIVE_ID_LAST && ABOUT_ID_START <= id < ABOUT_ID_LIMIT),
        !(NATIVE_ID_FIRST <= id <= NATIVE_ID_LAST && id >= CUSTOM_ID_START),
        !(ABOUT_ID_START <= id < ABOUT_ID_LIMIT && id >= CUSTOM_ID_START),
{
}

/// Resolves one activation notification. Exactly one of the four
/// outcomes happens:
/// - an identifier in the native-standard range resolves to its built-in
///   behavior and publishes nothing;
/// - an allocated identifier of a custom item publishes exactly one
///   `MenuEvent`, first flipping the item's checked state if it is
///   checkable;
/// - an allocated identifier of an About item resolves to its dialog;
/// - any other identifier falls through, changing nothing.
pub fn dispatch_activation(menu: &mut Menu, router: &mut EventRouter, id: u64) -> (r:
    DispatchAction)
    requires
        old(menu).wf(),
    ensures
        final(menu).wf(),
        NATIVE_ID_FIRST <= id <= NATIVE_ID_LAST ==> {
            &&& r == DispatchAction::Native(
                spec_standard_action(NativeMenuItem::spec_from_id(id)),
            )
            &&& *final(menu) == *old(menu)
            &&& *final(router) == *old(router)
        },
        !(NATIVE_ID_FIRST <= id <= NATIVE_ID_LAST) ==> match spec_find_registered(
            old(menu).spec_entries(),
            id,
        ) {
            Some(j) => {
                let e = old(menu).spec_entries()[j];
                match e.kind {
                    EntryKind::Text => {
                        &&& r == DispatchAction::Event(MenuEvent { id })
                        &&& *final(menu) == *old(menu)
                        &&& final(router).pending_events() == old(router).pending_events().push(
                            MenuEvent { id },
                        )
                        &&& final(router).delivered_events() == old(router).delivered_events()
                    },
                    EntryKind::Check => {
                        &&& r == DispatchAction::Event(MenuEvent { id })
                        &&& final(menu).spec_entries() == spec_toggle_checked(
                            old(menu).spec_entries(),
                            j,
                        )
                        &&& final(menu).spec_accels() == old(menu).spec_accels()
                        &&& final(menu).spec_attached() == old(menu).spec_attached()
                        &&& final(menu).spec_custom_next() == old(menu).spec_custom_next()
                        &&& final(menu).spec_about_next() == old(menu).spec_about_next()
                        &&& final(router).pending_events() == old(router).pending_events().push(
                            MenuEvent { id },
                        )
                        &&& final(router).delivered_events() == old(router).delivered_events()
                    },
                    EntryKind::Native(n) => match n {
                        NativeMenuItem::About(_, _) => {
                            &&& r == DispatchAction::ShowAbout(id)
                            &&& *final(menu) == *old(menu)
                            &&& *final(router) == *old(router)
                        },
                        _ => {
                            &&& r == DispatchAction::FallThrough
                            &&& *final(menu) == *old(menu)
                            &&& *final(router) == *old(router)
                        },
                    },
                    EntryKind::Submenu => {
                        &&& r == DispatchAction::FallThrough
                        &&& *final(menu) == *old(menu)
                        &&& *final(router) == *old(router)
                    },
                }
            },
            None => {
                &&& r == DispatchAction::FallThrough
                &&& *final(menu) == *old(menu)
                &&& *final(router) == *old(router)
            },
        },
{
    if NATIVE_ID_FIRST <= id && id <= NATIVE_ID_LAST {
        let item = NativeMenuItem::from_id(id);
        let action = match item {
            NativeMenuItem::Copy => StandardAction::Edit(EditCommand::Copy),
            NativeMenuItem::Cut => StandardAction::Edit(EditCommand::Cut),
            NativeMenuItem::Paste => StandardAction::Edit(EditCommand::Paste),
            NativeMenuItem::SelectAll => StandardAction::Edit(EditCommand::SelectAll),
            NativeMenuItem::Minimize => StandardAction::MinimizeWindow,
            NativeMenuItem::CloseWindow => StandardAction::CloseWindow,
            NativeMenuItem::Quit => StandardAction::Quit,
            _ => StandardAction::NoOp,
        };
        return DispatchAction::Native(action);
    }
    if id < ABOUT_ID_START {
        return DispatchAction::FallThrough;
    }
    let n = menu.entries_len();
    let mut k: usize = 0;
    while k < n && menu.entry_id_at(k) != id
        invariant
            menu.wf(),
            *menu == *old(menu),
            n == menu.spec_entries().len(),
            k <= n,
            forall|i: int| 0 <= i < k ==> menu.spec_entries()[i].id != id,
        decreases n - k,
    {
        k = k + 1;
    }
    proof {
        lemma_find_id_at(menu.spec_entries(), id, k as int);
    }
    if k == n {
        return DispatchAction::FallThrough;
    }
    match menu.entry_kind_at(k) {
        EntryKind::Text => {
            router.send(MenuEvent { id });
            DispatchAction::Event(MenuEvent { id })
        },
        EntryKind::Check => {
            let item = CheckMenuItem { pos: k, id };
            let was = item.checked(menu);
            item.set_checked(menu, !was);
            proof {
                assert(menu.spec_entries() =~= spec_toggle_checked(
                    old(menu).spec_entries(),
                    k as int,
                ));
            }
            router.send(MenuEvent { id });
            DispatchAction::Event(MenuEvent { id })
        },
        EntryKind::Native(n2) => match n2 {
            NativeMenuItem::About(_, _) => DispatchAction::ShowAbout(id),
            _ => DispatchAction::FallThrough,
        },
        EntryKind::Submenu => DispatchAction::FallThrough,
    }
}

} // verus!
