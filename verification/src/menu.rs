//! The menu tree and its registry.
//!
//! A `Menu` owns the whole model: every submenu and item lives in one
//! append-only registry of entries, each holding the state the native
//! toolkit would mirror (label, enabled flag, check state, accelerator)
//! together with its activation identifier. `Submenu`, `TextMenuItem` and
//! `CheckMenuItem` are light handles into that registry; every operation
//! goes through the owning `Menu`, so two handles to one item always see
//! the same state.
//!
//! Identifiers are partitioned: custom items (and submenus) draw
//! process-unique identifiers from 1000 upward, About items from the
//! disjoint range 400..1000, and the native-standard items keep their
//! fixed constants 301..=308. The registry, populated at creation time, is
//! what dispatch consults; well-formedness ties each entry's identifier to
//! its category, so no identifier can classify two ways.

use vstd::prelude::*;

use crate::accel::AccelEntry;
use crate::accel::AccelParseError;
use crate::accel::Accelerator;
use crate::accel::accel_entry;
use crate::accel::spec_accel_entry;
use crate::accel::spec_parse;
use crate::counter::Counter;
use crate::label::spec_mnemonic_free;
use crate::label::spec_strip_mnemonic;
use crate::label::strip_mnemonic;
use crate::native_item::NativeMenuItem;

verus! {

/// First identifier of the custom range: items and submenus created by the
/// application.
pub const CUSTOM_ID_START: u64 = 1000;

/// First identifier of the About range.
pub const ABOUT_ID_START: u64 = 400;

/// One past the last identifier of the About range; no custom identifier
/// lies below it.
pub const ABOUT_ID_LIMIT: u64 = 1000;

/// What one registry slot stands for.
#[derive(Clone, Debug)]
pub enum EntryKind {
    /// The item that opens a nested submenu.
    Submenu,
    /// A custom text item.
    Text,
    /// A custom checkable item.
    Check,
    /// A native-standard item, About metadata included.
    Native(NativeMenuItem),
}

impl EntryKind {
    /// Whether an activation of this entry belongs to the application: a
    /// custom text or checkable item.
    pub open spec fn is_custom(&self) -> bool {
        self is Text || self is Check
    }
}

/// One registry slot: a menu item and the state the native toolkit mirrors
/// for it.
#[derive(Clone, Debug)]
pub struct MenuEntry {
    /// The identifier an activation notification carries.
    pub id: u64,
    /// The registry slot of the submenu this entry sits in; `None` at the
    /// top level.
    pub parent: Option<usize>,
    pub kind: EntryKind,
    /// The label text; an accelerator suffix is never part of it.
    pub label: String,
    pub enabled: bool,
    pub checked: bool,
    pub accel: Option<Accelerator>,
}

impl MenuEntry {
    /// Whether this entry puts a record in the accelerator table.
    pub open spec fn registers_accel(&self) -> bool {
        self.kind.is_custom() && self.accel is Some
    }

    /// The accelerator-table record this entry registers.
    pub open spec fn accel_record(&self) -> AccelEntry
        recommends
            self.accel is Some,
    {
        spec_accel_entry(self.accel->0, self.id)
    }
}

/// Structural soundness of the registry slot `j`: a parent is an earlier
/// submenu slot (so ownership is tree-shaped, with no cycles), a submenu's
/// own title carries no mnemonic marker and no accelerator, and a
/// native-standard entry shows its catalog label and default accelerator.
pub open spec fn spec_entry_wf(s: Seq<MenuEntry>, j: int) -> bool {
    let e = s[j];
    &&& match e.parent {
        Some(p) => p < j && s[p as int].kind is Submenu,
        None => true,
    }
    &&& match e.kind {
        EntryKind::Submenu => spec_mnemonic_free(e.label@) && e.accel is None,
        EntryKind::Text => true,
        EntryKind::Check => true,
        EntryKind::Native(n) => e.label@ == n.spec_label() && e.accel
            == n.spec_default_accelerator(),
    }
}

/// Each entry's identifier lies in the range its category owns, bounded by
/// that category's high-water mark.
pub open spec fn spec_entry_id_in_range(e: MenuEntry, custom_next: u64, about_next: u64) -> bool {
    match e.kind {
        EntryKind::Native(n) => match n {
            NativeMenuItem::About(_, _) => ABOUT_ID_START <= e.id < about_next,
            _ => e.id == n.spec_fixed_id(),
        },
        _ => CUSTOM_ID_START <= e.id < custom_next,
    }
}

/// The entry draws its identifier from the custom counter: a submenu or a
/// custom item.
pub open spec fn spec_custom_category(e: MenuEntry) -> bool {
    !(e.kind is Native)
}

/// The entry draws its identifier from the About range.
pub open spec fn spec_about_category(e: MenuEntry) -> bool {
    match e.kind {
        EntryKind::Native(n) => n matches NativeMenuItem::About(_, _),
        _ => false,
    }
}

/// The registry is well formed: every slot is structurally sound, every
/// identifier sits in its category's range, identifiers strictly increase
/// within each allocating category, and no two allocated identifiers
/// coincide.
pub open spec fn spec_entries_wf(s: Seq<MenuEntry>, custom_next: u64, about_next: u64) -> bool {
    &&& forall|j: int| 0 <= j < s.len() ==> spec_entry_wf(s, j)
    &&& forall|j: int|
        0 <= j < s.len() ==> spec_entry_id_in_range(#[trigger] s[j], custom_next, about_next)
    &&& forall|i: int, j: int|
        0 <= i < j < s.len() && s[i].id >= ABOUT_ID_START && s[j].id >= ABOUT_ID_START ==> s[i].id
            != s[j].id
    &&& forall|i: int, j: int|
        0 <= i < j < s.len() && spec_custom_category(#[trigger] s[i]) && spec_custom_category(
            #[trigger] s[j],
        ) ==> s[i].id < s[j].id
    &&& forall|i: int, j: int|
        0 <= i < j < s.len() && spec_about_category(#[trigger] s[i]) && spec_about_category(
            #[trigger] s[j],
        ) ==> s[i].id < s[j].id
}

/// Some accelerated custom entry of `s` registers exactly the record
/// `rec`.
pub open spec fn spec_record_from_entry(s: Seq<MenuEntry>, rec: AccelEntry) -> bool {
    exists|j: int|
        0 <= j < s.len() && (#[trigger] s[j]).registers_accel() && rec == s[j].accel_record()
}

/// The table `t` holds the record `rec`.
pub open spec fn spec_table_has_record(t: Seq<AccelEntry>, rec: AccelEntry) -> bool {
    exists|i: int| 0 <= i < t.len() && t[i] == rec
}

/// The accelerator table and the registry are in sync: every table record
/// comes from exactly one accelerated custom entry, and every accelerated
/// custom entry has its record in the table.
pub open spec fn spec_accels_wf(s: Seq<MenuEntry>, t: Seq<AccelEntry>) -> bool {
    &&& forall|i: int| 0 <= i < t.len() ==> spec_record_from_entry(s, #[trigger] t[i])
    &&& forall|i1: int, i2: int| 0 <= i1 < i2 < t.len() ==> t[i1].cmd != t[i2].cmd
    &&& forall|j: int|
        0 <= j < s.len() && (#[trigger] s[j]).registers_accel() ==> spec_table_has_record(
            t,
            s[j].accel_record(),
        )
}


/// The first registry slot carrying identifier `id`, if any.
pub open spec fn spec_find_id(s: Seq<MenuEntry>, id: u64) -> Option<int>
    decreases s.len(),
{
    if s.len() == 0 {
        None
    } else if s[0].id == id {
        Some(0)
    } else {
        match spec_find_id(s.drop_first(), id) {
            Some(j) => Some(j + 1),
            None => None,
        }
    }
}

/// The registry slot an allocated identifier resolves to; identifiers
/// below the allocated ranges never consult the registry.
pub open spec fn spec_find_registered(s: Seq<MenuEntry>, id: u64) -> Option<int> {
    if id >= ABOUT_ID_START {
        spec_find_id(s, id)
    } else {
        None
    }
}

/// A linear scan that stopped at `k` agrees with `spec_find_id`.
pub proof fn lemma_find_id_at(s: Seq<MenuEntry>, id: u64, k: int)
    requires
        0 <= k <= s.len(),
        forall|i: int| 0 <= i < k ==> s[i].id != id,
        k < s.len() ==> s[k].id == id,
    ensures
        spec_find_id(s, id) == (if k == s.len() {
            None::<int>
        } else {
            Some(k)
        }),
    decreases k,
{
    if s.len() == 0 {
    } else if k == 0 {
    } else {
        lemma_find_id_at(s.drop_first(), id, k - 1);
    }
}

/// One window the menu bar is attached to, and whether it is currently
/// shown there.
#[derive(Clone, Copy, Debug, PartialEq, Eq, Structural)]
pub struct Attachment {
    pub window: isize,
    pub visible: bool,
}

/// Some attachment of `s` is for window `w`.
pub open spec fn spec_attached_has(s: Seq<Attachment>, w: isize) -> bool {
    exists|k: int| 0 <= k < s.len() && (#[trigger] s[k]).window == w
}

/// Window `w` is attached and currently shown.
pub open spec fn spec_attached_visible(s: Seq<Attachment>, w: isize) -> bool {
    exists|k: int| 0 <= k < s.len() && (#[trigger] s[k]).window == w && s[k].visible
}

/// The root of a menu tree. It owns the registry of all submenus and
/// items, the derived accelerator table, and the set of windows it is
/// attached to.
pub struct Menu {
    counter: Counter,
    about_counter: Counter,
    entries: Vec<MenuEntry>,
    accels: Vec<AccelEntry>,
    attached: Vec<Attachment>,
}

impl Menu {
    /// The registry: every entry ever added, in creation order.
    pub closed spec fn spec_entries(&self) -> Seq<MenuEntry> {
        self.entries@
    }

    /// The derived native accelerator table.
    pub closed spec fn spec_accels(&self) -> Seq<AccelEntry> {
        self.accels@
    }

    /// The windows this menu is attached to.
    pub closed spec fn spec_attached(&self) -> Seq<Attachment> {
        self.attached@
    }

    /// The custom category's high-water mark: the next identifier a custom
    /// item or submenu will receive.
    pub closed spec fn spec_custom_next(&self) -> u64 {
        self.counter.next_id()
    }

    /// The About category's high-water mark.
    pub closed spec fn spec_about_next(&self) -> u64 {
        self.about_counter.next_id()
    }

    /// The whole model is well formed.
    pub closed spec fn wf(&self) -> bool {
        &&& self.counter.wf()
        &&& self.counter.start_id() == CUSTOM_ID_START
        &&& self.about_counter.wf()
        &&& self.about_counter.start_id() == ABOUT_ID_START
        &&& self.about_counter.next_id() <= ABOUT_ID_LIMIT
        &&& spec_entries_wf(self.entries@, self.counter.next_id(), self.about_counter.next_id())
        &&& spec_accels_wf(self.entries@, self.accels@)
        &&& forall|i: int, j: int|
            0 <= i < j < self.attached@.len() ==> self.attached@[i].window
                != self.attached@[j].window
    }

    /// What well-formedness guarantees, in terms of the public views: the
    /// registry, the accelerator table and the category marks obey the
    /// range and sync rules above.
    pub proof fn lemma_wf_facts(&self)
        requires
            self.wf(),
        ensures
            spec_entries_wf(self.spec_entries(), self.spec_custom_next(), self.spec_about_next()),
            spec_accels_wf(self.spec_entries(), self.spec_accels()),
            self.spec_custom_next() >= CUSTOM_ID_START,
            ABOUT_ID_START <= self.spec_about_next() <= ABOUT_ID_LIMIT,
    {
        crate::counter::lemma_counter_bounds(&self.counter);
        crate::counter::lemma_counter_bounds(&self.about_counter);
    }

    /// A fresh, empty menu, attached to nothing.
    pub fn new() -> (r: Menu)
        ensures
            r.wf(),
            r.spec_entries() == Seq::<MenuEntry>::empty(),
            r.spec_accels() == Seq::<AccelEntry>::empty(),
            r.spec_attached() == Seq::<Attachment>::empty(),
            r.spec_custom_next() == CUSTOM_ID_START,
            r.spec_about_next() == ABOUT_ID_START,
    {
        Menu {
            counter: Counter::new_with_start(CUSTOM_ID_START),
            about_counter: Counter::new_with_start(ABOUT_ID_START),
            entries: Vec::new(),
            accels: Vec::new(),
            attached: Vec::new(),
        }
    }

    /// Adds a top-level submenu with the given title (mnemonic markers
    /// stripped) and enabled state.
    pub fn add_submenu(&mut self, label: &str, enabled: bool) -> (r: Submenu)
        requires
            old(self).wf(),
            old(self).spec_custom_next() < u64::MAX,
        ensures
            final(self).wf(),
            submenu_added(old(self), final(self), None, label@, enabled, r),
    {
        push_submenu_entry(self, None, label, enabled)
    }

    /// The derived native accelerator table, one record for each
    /// accelerated custom item.
    pub fn haccel(&self) -> (r: &Vec<AccelEntry>)
        ensures
            r@ == self.spec_accels(),
    {
        &self.accels
    }

    /// How many entries the registry holds.
    pub fn entries_len(&self) -> (r: usize)
        ensures
            r == self.spec_entries().len(),
    {
        self.entries.len()
    }

    /// The identifier of registry slot `k`.
    pub fn entry_id_at(&self, k: usize) -> (r: u64)
        requires
            k < self.spec_entries().len(),
        ensures
            r == self.spec_entries()[k as int].id,
    {
        self.entries[k].id
    }

    /// The kind of registry slot `k`.
    pub fn entry_kind_at(&self, k: usize) -> (r: &EntryKind)
        requires
            k < self.spec_entries().len(),
        ensures
            *r == self.spec_entries()[k as int].kind,
    {
        &self.entries[k].kind
    }

    /// Renders the About dialog text for the About item with the given
    /// identifier, from its stored application name and metadata; `None`
    /// when no About item owns the identifier.
    pub fn about_dialog_text(&self, id: u64) -> (r: Option<String>)
        requires
            self.wf(),
        ensures
            match spec_find_registered(self.spec_entries(), id) {
                Some(j) => match self.spec_entries()[j].kind {
                    EntryKind::Native(n) => match n {
                        NativeMenuItem::About(name, meta) => r matches Some(t) && t@
                            == crate::native_item::spec_about_dialog_text(name@, meta),
                        _ => r is None,
                    },
                    _ => r is None,
                },
                None => r is None,
            },
    {
        if id < ABOUT_ID_START {
            return None;
        }
        let n = self.entries.len();
        let mut k: usize = 0;
        while k < n && self.entries[k].id != id
            invariant
                n == self.spec_entries().len(),
                k <= n,
                forall|i: int| 0 <= i < k ==> self.spec_entries()[i].id != id,
            decreases n - k,
        {
            k = k + 1;
        }
        proof {
            lemma_find_id_at(self.spec_entries(), id, k as int);
        }
        if k == n {
            return None;
        }
        match &self.entries[k].kind {
            EntryKind::Native(n2) => match n2 {
                NativeMenuItem::About(name, meta) => Some(
                    crate::native_item::about_dialog_text(name.as_str(), meta),
                ),
                _ => None,
            },
            _ => None,
        }
    }

    /// The slot of the attachment for `window`, if any.
    fn find_attachment(&self, window: isize) -> (r: Option<usize>)
        ensures
            match r {
                Some(k) => k < self.spec_attached().len() && self.spec_attached()[k as int].window
                    == window,
                None => forall|k: int|
                    0 <= k < self.spec_attached().len() ==> (#[trigger] self.spec_attached()[k]).window
                        != window,
            },
    {
        let mut k: usize = 0;
        let n = self.attached.len();
        while k < n
            invariant
                n == self.spec_attached().len(),
                k <= n,
                forall|i: int| 0 <= i < k ==> (#[trigger] self.spec_attached()[i]).window != window,
            decreases n - k,
        {
            if self.attached[k].window == window {
                return Some(k);
            }
            k = k + 1;
        }
        None
    }

    /// Whether this menu is attached to `window`.
    pub fn is_attached(&self, window: isize) -> (r: bool)
        ensures
            r == spec_attached_has(self.spec_attached(), window),
    {
        match self.find_attachment(window) {
            Some(_) => true,
            None => false,
        }
    }

    /// Whether this menu is attached to `window` and currently shown.
    pub fn is_visible_for(&self, window: isize) -> (r: bool)
        requires
            self.wf(),
        ensures
            r == spec_attached_visible(self.spec_attached(), window),
    {
        match self.find_attachment(window) {
            Some(k) => {
                proof {
                    if !self.spec_attached()[k as int].visible {
                        assert forall|i: int|
                            0 <= i < self.spec_attached().len() && (#[trigger] self.spec_attached()[i]).window
                                == window implies !self.spec_attached()[i].visible by {
                            if i != k {
                                assert(self.spec_attached()[i].window
                                    != self.spec_attached()[k as int].window);
                            }
                        }
                    }
                }
                self.attached[k].visible
            },
            None => false,
        }
    }

    /// Attaches this menu as the menu bar of `window` and installs the
    /// activation hook there, exactly once: attaching an already attached
    /// window only makes the menu visible again.
    pub fn init_for_hwnd(&mut self, window: isize)
        requires
            old(self).wf(),
        ensures
            final(self).wf(),
            menu_content_unchanged(old(self), final(self)),
            spec_attached_has(final(self).spec_attached(), window),
            spec_attached_visible(final(self).spec_attached(), window),
            forall|w: isize|
                w != window ==> spec_attached_has(final(self).spec_attached(), w)
                    == spec_attached_has(old(self).spec_attached(), w),
            forall|w: isize|
                w != window ==> spec_attached_visible(final(self).spec_attached(), w)
                    == spec_attached_visible(old(self).spec_attached(), w),
    {
        let ghost pre = self.attached@;
        match self.find_attachment(window) {
            Some(k) => {
                self.attached[k].visible = true;
                proof {
                    lemma_attach_set_visible(pre, k as int, true);
                }
            },
            None => {
                self.attached.push(Attachment { window, visible: true });
                proof {
                    assert forall|i: int| 0 <= i < pre.len() implies (#[trigger] pre[i]).window
                        != window by {
                        assert(old(self).spec_attached()[i].window != window);
                    }
                    lemma_attach_push(pre, Attachment { window, visible: true });
                }
            },
        }
    }

    /// Detaches this menu from `window` and uninstalls the hook there.
    pub fn remove_for_hwnd(&mut self, window: isize)
        requires
            old(self).wf(),
        ensures
            final(self).wf(),
            menu_content_unchanged(old(self), final(self)),
            !spec_attached_has(final(self).spec_attached(), window),
            forall|w: isize|
                w != window ==> spec_attached_has(final(self).spec_attached(), w)
                    == spec_attached_has(old(self).spec_attached(), w),
            forall|w: isize|
                w != window ==> spec_attached_visible(final(self).spec_attached(), w)
                    == spec_attached_visible(old(self).spec_attached(), w),
    {
        let ghost pre = self.attached@;
        match self.find_attachment(window) {
            Some(k) => {
                self.attached.remove(k);
                proof {
                    lemma_attach_remove(pre, k as int);
                }
            },
            None => {},
        }
    }

    /// Hides the menu bar on `window` without detaching it; the hook
    /// stays installed.
    pub fn hide_for_hwnd(&mut self, window: isize)
        requires
            old(self).wf(),
        ensures
            final(self).wf(),
            menu_content_unchanged(old(self), final(self)),
            forall|w: isize|
                spec_attached_has(final(self).spec_attached(), w) == spec_attached_has(
                    old(self).spec_attached(),
                    w,
                ),
            !spec_attached_visible(final(self).spec_attached(), window),
            forall|w: isize|
                w != window ==> spec_attached_visible(final(self).spec_attached(), w)
                    == spec_attached_visible(old(self).spec_attached(), w),
    {
        let ghost pre = self.attached@;
        match self.find_attachment(window) {
            Some(k) => {
                self.attached[k].visible = false;
                proof {
                    lemma_attach_set_visible(pre, k as int, false);
                }
            },
            None => {},
        }
    }

    /// Shows the menu bar again on an attached `window`; on a window the
    /// menu is not attached to it does nothing.
    pub fn show_for_hwnd(&mut self, window: isize)
        requires
            old(self).wf(),
        ensures
            final(self).wf(),
            menu_content_unchanged(old(self), final(self)),
            forall|w: isize|
                spec_attached_has(final(self).spec_attached(), w) == spec_attached_has(
                    old(self).spec_attached(),
                    w,
                ),
            spec_attached_has(old(self).spec_attached(), window) ==> spec_attached_visible(
                final(self).spec_attached(),
                window,
            ),
            forall|w: isize|
                w != window ==> spec_attached_visible(final(self).spec_attached(), w)
                    == spec_attached_visible(old(self).spec_attached(), w),
    {
        let ghost pre = self.attached@;
        match self.find_attachment(window) {
            Some(k) => {
                self.attached[k].visible = true;
                proof {
                    lemma_attach_set_visible(pre, k as int, true);
                }
            },
            None => {},
        }
    }
}


/// The registry, the accelerator table and both category marks are
/// untouched.
pub open spec fn menu_content_unchanged(pre: &Menu, post: &Menu) -> bool {
    &&& post.spec_entries() == pre.spec_entries()
    &&& post.spec_accels() == pre.spec_accels()
    &&& post.spec_custom_next() == pre.spec_custom_next()
    &&& post.spec_about_next() == pre.spec_about_next()
}

/// What adding a submenu does: one new registry slot holding a submenu
/// entry with the stripped title, a fresh custom identifier, and nothing
/// else changed.
pub open spec fn submenu_added(
    pre: &Menu,
    post: &Menu,
    parent: Option<usize>,
    label: Seq<char>,
    enabled: bool,
    r: Submenu,
) -> bool {
    let e = post.spec_entries().last();
    &&& r.pos == pre.spec_entries().len()
    &&& r.id == pre.spec_custom_next()
    &&& r.valid(post)
    &&& post.spec_entries().len() == pre.spec_entries().len() + 1
    &&& forall|j: int|
        0 <= j < pre.spec_entries().len() ==> post.spec_entries()[j] == pre.spec_entries()[j]
    &&& e.id == r.id
    &&& e.parent == parent
    &&& e.kind is Submenu
    &&& e.label@ == spec_strip_mnemonic(label)
    &&& e.enabled == enabled
    &&& e.checked == false
    &&& e.accel is None
    &&& post.spec_custom_next() == pre.spec_custom_next() + 1
    &&& post.spec_about_next() == pre.spec_about_next()
    &&& post.spec_accels() == pre.spec_accels()
    &&& post.spec_attached() == pre.spec_attached()
}

/// Appending one entry whose identifier is fresh for its category keeps
/// the registry well formed under the advanced category marks.
proof fn lemma_entries_wf_push(
    s: Seq<MenuEntry>,
    cn: u64,
    an: u64,
    cn2: u64,
    an2: u64,
    e: MenuEntry,
)
    requires
        spec_entries_wf(s, cn, an),
        cn >= CUSTOM_ID_START,
        an >= ABOUT_ID_START,
        an2 <= ABOUT_ID_LIMIT,
        cn <= cn2,
        an <= an2,
        spec_entry_wf(s.push(e), s.len() as int),
        spec_entry_id_in_range(e, cn2, an2),
        match e.kind {
            EntryKind::Native(n) => match n {
                NativeMenuItem::About(_, _) => e.id == an && an < an2,
                _ => true,
            },
            _ => e.id == cn && cn < cn2,
        },
    ensures
        spec_entries_wf(s.push(e), cn2, an2),
{
    let s2 = s.push(e);
    let last = s.len() as int;
    assert forall|j: int| 0 <= j < s2.len() implies spec_entry_wf(s2, j) by {
        if j < last {
            assert(spec_entry_wf(s, j));
            assert(s2[j] == s[j]);
            match s2[j].parent {
                Some(p) => {
                    assert(s2[p as int] == s[p as int]);
                },
                None => {},
            }
        }
    }
    assert forall|j: int| 0 <= j < s2.len() implies spec_entry_id_in_range(
        #[trigger] s2[j],
        cn2,
        an2,
    ) by {
        if j < last {
            assert(s2[j] == s[j]);
            assert(spec_entry_id_in_range(s[j], cn, an));
        }
    }
    assert forall|i: int, j: int|
        0 <= i < j < s2.len() && s2[i].id >= ABOUT_ID_START && s2[j].id
            >= ABOUT_ID_START implies s2[i].id != s2[j].id by {
        if j < last {
            assert(s2[i] == s[i] && s2[j] == s[j]);
        } else {
            assert(s2[i] == s[i]);
            assert(spec_entry_id_in_range(s[i], cn, an));
        }
    }
    assert forall|i: int, j: int|
        0 <= i < j < s2.len() && spec_custom_category(#[trigger] s2[i]) && spec_custom_category(
            #[trigger] s2[j],
        ) implies s2[i].id < s2[j].id by {
        if j < last {
            assert(s2[i] == s[i] && s2[j] == s[j]);
        } else {
            assert(s2[i] == s[i]);
            assert(spec_entry_id_in_range(s[i], cn, an));
        }
    }
    assert forall|i: int, j: int|
        0 <= i < j < s2.len() && spec_about_category(#[trigger] s2[i]) && spec_about_category(
            #[trigger] s2[j],
        ) implies s2[i].id < s2[j].id by {
        if j < last {
            assert(s2[i] == s[i] && s2[j] == s[j]);
        } else {
            assert(s2[i] == s[i]);
            assert(spec_entry_id_in_range(s[i], cn, an));
        }
    }
}

/// Appending an entry that registers no accelerator keeps the table in
/// sync.
proof fn lemma_accels_push_nonregistering(s: Seq<MenuEntry>, t: Seq<AccelEntry>, e: MenuEntry)
    requires
        spec_accels_wf(s, t),
        !e.registers_accel(),
    ensures
        spec_accels_wf(s.push(e), t),
{
    let s2 = s.push(e);
    assert forall|i: int| 0 <= i < t.len() implies spec_record_from_entry(s2, #[trigger] t[i]) by {
        let j = choose|j: int|
            0 <= j < s.len() && (#[trigger] s[j]).registers_accel() && t[i]
                == s[j].accel_record();
        assert(s2[j] == s[j]);
        assert(s2[j].registers_accel() && t[i] == s2[j].accel_record());
    }
    assert forall|j: int|
        0 <= j < s2.len() && (#[trigger] s2[j]).registers_accel() implies spec_table_has_record(
        t,
        s2[j].accel_record(),
    ) by {
        assert(j < s.len() && s2[j] == s[j]);
        assert(spec_table_has_record(t, s[j].accel_record()));
    }
}

/// Appends a submenu entry, either at the top level or inside an existing
/// submenu, and re-establishes well-formedness.
fn push_submenu_entry(menu: &mut Menu, parent: Option<usize>, label: &str, enabled: bool) -> (r:
    Submenu)
    requires
        old(menu).wf(),
        old(menu).spec_custom_next() < u64::MAX,
        match parent {
            Some(p) => p < old(menu).spec_entries().len() && old(menu).spec_entries()[p as int].kind
                is Submenu,
            None => true,
        },
    ensures
        final(menu).wf(),
        submenu_added(old(menu), final(menu), parent, label@, enabled, r),
{
    let id = menu.counter.next();
    let pos = menu.entries.len();
    let title = strip_mnemonic(label);
    let entry = MenuEntry {
        id,
        parent,
        kind: EntryKind::Submenu,
        label: title,
        enabled,
        checked: false,
        accel: None,
    };
    let ghost pre_entries = menu.entries@;
    let ghost cn = old(menu).spec_custom_next();
    let ghost an = old(menu).spec_about_next();
    menu.entries.push(entry);
    proof {
        crate::counter::lemma_counter_bounds(&old(menu).counter);
        crate::counter::lemma_counter_bounds(&old(menu).about_counter);
        crate::label::lemma_strip_mnemonic_free(label@);
        assert(spec_entry_wf(pre_entries.push(entry), pre_entries.len() as int));
        lemma_entries_wf_push(pre_entries, cn, an, (cn + 1) as u64, an, entry);
        lemma_accels_push_nonregistering(pre_entries, menu.accels@, entry);
    }
    Submenu { pos, id }
}

/// A handle to a submenu: the registry slot of the item that opens it,
/// and that item's identifier.
#[derive(Clone, Copy, Debug, PartialEq, Eq, Structural)]
pub struct Submenu {
    pub pos: usize,
    pub id: u64,
}

impl Submenu {
    /// The handle points at a submenu entry of `m` with its identifier.
    pub open spec fn valid(&self, m: &Menu) -> bool {
        &&& self.pos < m.spec_entries().len()
        &&& m.spec_entries()[self.pos as int].kind is Submenu
        &&& m.spec_entries()[self.pos as int].id == self.id
    }

    /// The submenu's title, exactly as stored: mnemonic-free.
    pub fn label(&self, menu: &Menu) -> (r: String)
        requires
            menu.wf(),
            self.valid(menu),
        ensures
            r@ == menu.spec_entries()[self.pos as int].label@,
    {
        menu.entries[self.pos].label.clone()
    }

    /// Whether the submenu is enabled.
    pub fn enabled(&self, menu: &Menu) -> (r: bool)
        requires
            menu.wf(),
            self.valid(menu),
        ensures
            r == menu.spec_entries()[self.pos as int].enabled,
    {
        menu.entries[self.pos].enabled
    }

    /// Adds a nested submenu.
    pub fn add_submenu(&self, menu: &mut Menu, label: &str, enabled: bool) -> (r: Submenu)
        requires
            old(menu).wf(),
            self.valid(old(menu)),
            old(menu).spec_custom_next() < u64::MAX,
        ensures
            final(menu).wf(),
            submenu_added(old(menu), final(menu), Some(self.pos), label@, enabled, r),
    {
        push_submenu_entry(menu, Some(self.pos), label, enabled)
    }

    /// Renames the submenu. Mnemonic markers are stripped: a submenu's own
    /// title never shows one.
    pub fn set_label(&self, menu: &mut Menu, label: &str)
        requires
            old(menu).wf(),
            self.valid(old(menu)),
        ensures
            final(menu).wf(),
            self.valid(final(menu)),
            spec_updated_at(old(menu).spec_entries(), final(menu).spec_entries(), self.pos as int),
            same_entry_except_label(
                old(menu).spec_entries()[self.pos as int],
                final(menu).spec_entries()[self.pos as int],
            ),
            final(menu).spec_entries()[self.pos as int].label@ == spec_strip_mnemonic(label@),
            final(menu).spec_accels() == old(menu).spec_accels(),
            final(menu).spec_attached() == old(menu).spec_attached(),
            final(menu).spec_custom_next() == old(menu).spec_custom_next(),
            final(menu).spec_about_next() == old(menu).spec_about_next(),
    {
        let ghost pre_entries = menu.entries@;
        let ghost cn = old(menu).spec_custom_next();
        let ghost an = old(menu).spec_about_next();
        let title = strip_mnemonic(label);
        menu.entries[self.pos].label = title;
        proof {
            crate::label::lemma_strip_mnemonic_free(label@);
            let j = self.pos as int;
            let s2 = menu.entries@;
            assert(spec_entry_wf(pre_entries, j));
            assert(spec_entry_wf(pre_entries.update(j, s2[j]), j));
            lemma_entries_wf_update(pre_entries, cn, an, j, s2[j]);
            lemma_accels_update_same_record(pre_entries, menu.accels@, j, s2[j]);
        }
    }

    /// Enables or disables the submenu (the native "grayed" state of the
    /// item that opens it).
    pub fn set_enabled(&self, menu: &mut Menu, enabled: bool)
        requires
            old(menu).wf(),
            self.valid(old(menu)),
        ensures
            final(menu).wf(),
            self.valid(final(menu)),
            spec_updated_at(old(menu).spec_entries(), final(menu).spec_entries(), self.pos as int),
            same_entry_except_enabled(
                old(menu).spec_entries()[self.pos as int],
                final(menu).spec_entries()[self.pos as int],
            ),
            final(menu).spec_entries()[self.pos as int].enabled == enabled,
            final(menu).spec_accels() == old(menu).spec_accels(),
            final(menu).spec_attached() == old(menu).spec_attached(),
            final(menu).spec_custom_next() == old(menu).spec_custom_next(),
            final(menu).spec_about_next() == old(menu).spec_about_next(),
    {
        let ghost pre_entries = menu.entries@;
        let ghost cn = old(menu).spec_custom_next();
        let ghost an = old(menu).spec_about_next();
        menu.entries[self.pos].enabled = enabled;
        proof {
            let j = self.pos as int;
            let s2 = menu.entries@;
            assert(spec_entry_wf(pre_entries, j));
            assert(spec_entry_wf(pre_entries.update(j, s2[j]), j));
            lemma_entries_wf_update(pre_entries, cn, an, j, s2[j]);
            lemma_accels_update_same_record(pre_entries, menu.accels@, j, s2[j]);
        }
    }

    /// Adds a text item with the given label, enabled state and optional
    /// accelerator, allocating a fresh identifier and registering the
    /// accelerator with the owning menu's table.
    pub fn add_item(
        &self,
        menu: &mut Menu,
        label: &str,
        enabled: bool,
        accelerator: Option<Accelerator>,
    ) -> (r: TextMenuItem)
        requires
            old(menu).wf(),
            self.valid(old(menu)),
            old(menu).spec_custom_next() < u64::MAX,
        ensures
            final(menu).wf(),
            r.valid(final(menu)),
            custom_item_added(
                old(menu),
                final(menu),
                self.pos,
                false,
                label@,
                enabled,
                false,
                accelerator,
                r.id,
                r.pos,
            ),
    {
        let (id, pos) = push_custom_item(menu, self.pos, false, label, enabled, false, accelerator);
        TextMenuItem { pos, id }
    }

    /// Adds a text item whose accelerator is given in the textual shortcut
    /// form. A malformed accelerator string is reported at construction
    /// time and the menu is left unchanged.
    pub fn add_text_item(
        &self,
        menu: &mut Menu,
        label: &str,
        enabled: bool,
        accelerator: Option<&str>,
    ) -> (r: Result<TextMenuItem, AccelParseError>)
        requires
            old(menu).wf(),
            self.valid(old(menu)),
            old(menu).spec_custom_next() < u64::MAX,
        ensures
            final(menu).wf(),
            match accelerator {
                None => r matches Ok(item) && item.valid(final(menu)) && custom_item_added(
                    old(menu),
                    final(menu),
                    self.pos,
                    false,
                    label@,
                    enabled,
                    false,
                    None,
                    item.id,
                    item.pos,
                ),
                Some(text) => match spec_parse(text@) {
                    Ok(a) => r matches Ok(item) && item.valid(final(menu)) && custom_item_added(
                        old(menu),
                        final(menu),
                        self.pos,
                        false,
                        label@,
                        enabled,
                        false,
                        Some(a),
                        item.id,
                        item.pos,
                    ),
                    Err(e) => r == Err::<TextMenuItem, AccelParseError>(e) && *final(menu) == *old(
                        menu,
                    ),
                },
            },
    {
        let accel = match accelerator {
            None => None,
            Some(text) => match Accelerator::parse(text) {
                Ok(a) => Some(a),
                Err(e) => {
                    return Err(e);
                },
            },
        };
        Ok(self.add_item(menu, label, enabled, accel))
    }

    /// Adds a checkable item with the given label, enabled state, initial
    /// checked state and optional accelerator.
    pub fn add_check_item(
        &self,
        menu: &mut Menu,
        label: &str,
        enabled: bool,
        checked: bool,
        accelerator: Option<Accelerator>,
    ) -> (r: CheckMenuItem)
        requires
            old(menu).wf(),
            self.valid(old(menu)),
            old(menu).spec_custom_next() < u64::MAX,
        ensures
            final(menu).wf(),
            r.valid(final(menu)),
            custom_item_added(
                old(menu),
                final(menu),
                self.pos,
                true,
                label@,
                enabled,
                checked,
                accelerator,
                r.id,
                r.pos,
            ),
    {
        let (id, pos) = push_custom_item(menu, self.pos, true, label, enabled, checked, accelerator);
        CheckMenuItem { pos, id }
    }

    /// Adds one of the platform-standard items: its catalog label, its
    /// default accelerator, and its fixed identifier — or, for About, a
    /// fresh identifier from the About range, keyed to the stored metadata
    /// for later dialog rendering.
    pub fn add_native_item(&self, menu: &mut Menu, item: NativeMenuItem)
        requires
            old(menu).wf(),
            self.valid(old(menu)),
            item matches NativeMenuItem::About(_, _) ==> old(menu).spec_about_next()
                < ABOUT_ID_LIMIT,
        ensures
            final(menu).wf(),
            native_item_added(old(menu), final(menu), self.pos, item),
    {
        let id: u64 = match &item {
            NativeMenuItem::About(_, _) => menu.about_counter.next(),
            NativeMenuItem::Copy => 301,
            NativeMenuItem::Cut => 302,
            NativeMenuItem::Paste => 303,
            NativeMenuItem::SelectAll => 304,
            NativeMenuItem::Separator => 305,
            NativeMenuItem::Minimize => 306,
            NativeMenuItem::CloseWindow => 307,
            NativeMenuItem::Quit => 308,
            _ => 0,
        };
        let title = item.label();
        let accel = item.default_accelerator();
        let ghost gitem = item;
        let entry = MenuEntry {
            id,
            parent: Some(self.pos),
            kind: EntryKind::Native(item),
            label: title,
            enabled: true,
            checked: false,
            accel,
        };
        let ghost pre_entries = old(menu).spec_entries();
        let ghost cn = old(menu).spec_custom_next();
        let ghost an = old(menu).spec_about_next();
        let ghost an2 = menu.about_counter.next_id();
        let ghost ge = entry;
        menu.entries.push(entry);
        proof {
            crate::counter::lemma_counter_bounds(&old(menu).counter);
            crate::counter::lemma_counter_bounds(&old(menu).about_counter);
            assert(spec_entry_wf(pre_entries.push(ge), pre_entries.len() as int));
            assert(spec_entry_id_in_range(ge, cn, an2));
            lemma_entries_wf_push(pre_entries, cn, an, cn, an2, ge);
            lemma_accels_push_nonregistering(pre_entries, menu.accels@, ge);
        }
    }
}

/// `b` is `a` with at most the label changed.
pub open spec fn same_entry_except_label(a: MenuEntry, b: MenuEntry) -> bool {
    &&& b.id == a.id
    &&& b.parent == a.parent
    &&& b.kind == a.kind
    &&& b.enabled == a.enabled
    &&& b.checked == a.checked
    &&& b.accel == a.accel
}

/// `b` is `a` with at most the enabled flag changed.
pub open spec fn same_entry_except_enabled(a: MenuEntry, b: MenuEntry) -> bool {
    &&& b.id == a.id
    &&& b.parent == a.parent
    &&& b.kind == a.kind
    &&& b.label == a.label
    &&& b.checked == a.checked
    &&& b.accel == a.accel
}

/// `b` is `a` with at most the checked flag changed.
pub open spec fn same_entry_except_checked(a: MenuEntry, b: MenuEntry) -> bool {
    &&& b.id == a.id
    &&& b.parent == a.parent
    &&& b.kind == a.kind
    &&& b.label == a.label
    &&& b.enabled == a.enabled
    &&& b.accel == a.accel
}

/// `post` is `pre` with only slot `j` replaced.
pub open spec fn spec_updated_at(pre: Seq<MenuEntry>, post: Seq<MenuEntry>, j: int) -> bool {
    &&& post.len() == pre.len()
    &&& forall|k: int| 0 <= k < pre.len() && k != j ==> post[k] == pre[k]
}

/// Replacing a slot without touching its identifier, kind, parent or
/// accelerator keeps the registry well formed, provided the new slot is
/// itself structurally sound.
proof fn lemma_entries_wf_update(s: Seq<MenuEntry>, cn: u64, an: u64, j: int, e2: MenuEntry)
    requires
        spec_entries_wf(s, cn, an),
        0 <= j < s.len(),
        e2.id == s[j].id,
        e2.parent == s[j].parent,
        e2.kind == s[j].kind,
        e2.accel == s[j].accel,
        spec_entry_wf(s.update(j, e2), j),
    ensures
        spec_entries_wf(s.update(j, e2), cn, an),
{
    let s2 = s.update(j, e2);
    assert forall|k: int| 0 <= k < s2.len() implies spec_entry_wf(s2, k) by {
        if k != j {
            assert(spec_entry_wf(s, k));
            assert(s2[k] == s[k]);
            match s2[k].parent {
                Some(p) => {
                    assert(s2[p as int].kind == s[p as int].kind);
                },
                None => {},
            }
        }
    }
    assert forall|k: int| 0 <= k < s2.len() implies spec_entry_id_in_range(
        #[trigger] s2[k],
        cn,
        an,
    ) by {
        assert(spec_entry_id_in_range(s[k], cn, an));
        if k != j {
            assert(s2[k] == s[k]);
        }
    }
    assert forall|i1: int, i2: int|
        0 <= i1 < i2 < s2.len() && s2[i1].id >= ABOUT_ID_START && s2[i2].id
            >= ABOUT_ID_START implies s2[i1].id != s2[i2].id by {
        assert(s2[i1].id == s[i1].id && s2[i2].id == s[i2].id);
    }
    assert forall|i1: int, i2: int|
        0 <= i1 < i2 < s2.len() && spec_custom_category(#[trigger] s2[i1])
            && spec_custom_category(#[trigger] s2[i2]) implies s2[i1].id < s2[i2].id by {
        assert(s2[i1].id == s[i1].id && s2[i2].id == s[i2].id);
        assert(s2[i1].kind == s[i1].kind && s2[i2].kind == s[i2].kind);
        assert(spec_custom_category(s[i1]) && spec_custom_category(s[i2]));
    }
    assert forall|i1: int, i2: int|
        0 <= i1 < i2 < s2.len() && spec_about_category(#[trigger] s2[i1]) && spec_about_category(
            #[trigger] s2[i2],
        ) implies s2[i1].id < s2[i2].id by {
        assert(s2[i1].id == s[i1].id && s2[i2].id == s[i2].id);
        assert(s2[i1].kind == s[i1].kind && s2[i2].kind == s[i2].kind);
        assert(spec_about_category(s[i1]) && spec_about_category(s[i2]));
    }
}

/// Replacing a slot without touching what it registers keeps the
/// accelerator table in sync.
proof fn lemma_accels_update_same_record(
    s: Seq<MenuEntry>,
    t: Seq<AccelEntry>,
    j: int,
    e2: MenuEntry,
)
    requires
        spec_accels_wf(s, t),
        0 <= j < s.len(),
        e2.registers_accel() == s[j].registers_accel(),
        e2.registers_accel() ==> e2.accel_record() == s[j].accel_record(),
    ensures
        spec_accels_wf(s.update(j, e2), t),
{
    let s2 = s.update(j, e2);
    assert forall|i: int| 0 <= i < t.len() implies spec_record_from_entry(s2, #[trigger] t[i]) by {
        let w = choose|w: int|
            0 <= w < s.len() && (#[trigger] s[w]).registers_accel() && t[i]
                == s[w].accel_record();
        if w == j {
            assert(s2[j].registers_accel() && t[i] == s2[j].accel_record());
        } else {
            assert(s2[w] == s[w]);
        }
    }
    assert forall|k: int|
        0 <= k < s2.len() && (#[trigger] s2[k]).registers_accel() implies spec_table_has_record(
        t,
        s2[k].accel_record(),
    ) by {
        if k == j {
            assert(s[j].registers_accel());
            assert(spec_table_has_record(t, s[j].accel_record()));
        } else {
            assert(s2[k] == s[k]);
            assert(spec_table_has_record(t, s[k].accel_record()));
        }
    }
}

/// Appending an accelerated custom entry extends the table with exactly
/// its record.
proof fn lemma_accels_push_registering(
    s: Seq<MenuEntry>,
    t: Seq<AccelEntry>,
    e: MenuEntry,
    cn: u64,
    an: u64,
)
    requires
        spec_accels_wf(s, t),
        spec_entries_wf(s, cn, an),
        e.registers_accel(),
        e.id == cn,
    ensures
        spec_accels_wf(s.push(e), t.push(e.accel_record())),
{
    let s2 = s.push(e);
    let t2 = t.push(e.accel_record());
    let last = s.len() as int;
    assert forall|i: int| 0 <= i < t2.len() implies spec_record_from_entry(s2, #[trigger] t2[i]) by {
        if i < t.len() {
            let w = choose|w: int|
                0 <= w < s.len() && (#[trigger] s[w]).registers_accel() && t[i]
                    == s[w].accel_record();
            assert(s2[w] == s[w]);
            assert(s2[w].registers_accel() && t2[i] == s2[w].accel_record());
        } else {
            assert(s2[last].registers_accel() && t2[i] == s2[last].accel_record());
        }
    }
    assert forall|i1: int, i2: int| 0 <= i1 < i2 < t2.len() implies t2[i1].cmd != t2[i2].cmd by {
        if i2 == t.len() as int {
            let w = choose|w: int|
                0 <= w < s.len() && (#[trigger] s[w]).registers_accel() && t[i1]
                    == s[w].accel_record();
            assert(spec_entry_id_in_range(s[w], cn, an));
            assert(t2[i1].cmd == s[w].id);
            assert(t2[i2].cmd == cn);
        }
    }
    assert forall|k: int|
        0 <= k < s2.len() && (#[trigger] s2[k]).registers_accel() implies spec_table_has_record(
        t2,
        s2[k].accel_record(),
    ) by {
        if k < last {
            assert(s2[k] == s[k]);
            let w = choose|w: int| 0 <= w < t.len() && t[w] == s[k].accel_record();
            assert(t2[w] == s2[k].accel_record());
        } else {
            assert(t2[t.len() as int] == s2[k].accel_record());
        }
    }
}

/// What adding a custom item does: one new registry slot with a fresh
/// custom identifier, the accelerator (if any) registered in the table,
/// and nothing else changed.
pub open spec fn custom_item_added(
    pre: &Menu,
    post: &Menu,
    parent: usize,
    check: bool,
    label: Seq<char>,
    enabled: bool,
    checked: bool,
    accel: Option<Accelerator>,
    id: u64,
    pos: usize,
) -> bool {
    let e = post.spec_entries().last();
    &&& pos == pre.spec_entries().len()
    &&& id == pre.spec_custom_next()
    &&& post.spec_entries().len() == pre.spec_entries().len() + 1
    &&& forall|j: int|
        0 <= j < pre.spec_entries().len() ==> post.spec_entries()[j] == pre.spec_entries()[j]
    &&& e.id == id
    &&& e.parent == Some(parent)
    &&& e.kind == (if check {
        EntryKind::Check
    } else {
        EntryKind::Text
    })
    &&& e.label@ == label
    &&& e.enabled == enabled
    &&& e.checked == checked
    &&& e.accel == accel
    &&& post.spec_custom_next() == pre.spec_custom_next() + 1
    &&& post.spec_about_next() == pre.spec_about_next()
    &&& post.spec_accels() == (match accel {
        Some(a) => pre.spec_accels().push(spec_accel_entry(a, id)),
        None => pre.spec_accels(),
    })
    &&& post.spec_attached() == pre.spec_attached()
}

/// Appends a custom text or checkable item under an existing submenu,
/// allocating its identifier and registering its accelerator.
fn push_custom_item(
    menu: &mut Menu,
    parent: usize,
    check: bool,
    label: &str,
    enabled: bool,
    checked: bool,
    accel: Option<Accelerator>,
) -> (r: (u64, usize))
    requires
        old(menu).wf(),
        old(menu).spec_custom_next() < u64::MAX,
        parent < old(menu).spec_entries().len(),
        old(menu).spec_entries()[parent as int].kind is Submenu,
    ensures
        final(menu).wf(),
        custom_item_added(
            old(menu),
            final(menu),
            parent,
            check,
            label@,
            enabled,
            checked,
            accel,
            r.0,
            r.1,
        ),
{
    let id = menu.counter.next();
    let pos = menu.entries.len();
    let entry = MenuEntry {
        id,
        parent: Some(parent),
        kind: if check {
            EntryKind::Check
        } else {
            EntryKind::Text
        },
        label: String::from_str(label),
        enabled,
        checked,
        accel,
    };
    let ghost pre_entries = menu.entries@;
    let ghost pre_accels = menu.accels@;
    let ghost ge = entry;
    let ghost cn = old(menu).spec_custom_next();
    let ghost an = old(menu).spec_about_next();
    menu.entries.push(entry);
    match accel {
        Some(a) => {
            let rec = accel_entry(&a, id);
            menu.accels.push(rec);
        },
        None => {},
    }
    proof {
        crate::counter::lemma_counter_bounds(&old(menu).counter);
        crate::counter::lemma_counter_bounds(&old(menu).about_counter);
        assert(spec_entry_wf(pre_entries.push(ge), pre_entries.len() as int));
        lemma_entries_wf_push(pre_entries, cn, an, (cn + 1) as u64, an, ge);
        match accel {
            Some(a) => {
                lemma_accels_push_registering(pre_entries, pre_accels, ge, cn, an);
            },
            None => {
                lemma_accels_push_nonregistering(pre_entries, pre_accels, ge);
            },
        }
    }
    (id, pos)
}


/// What adding a native-standard item does: one new registry slot holding
/// the catalog entry, enabled, with its category's identifier, and nothing
/// else changed.
pub open spec fn native_item_added(
    pre: &Menu,
    post: &Menu,
    parent: usize,
    item: NativeMenuItem,
) -> bool {
    let e = post.spec_entries().last();
    &&& post.spec_entries().len() == pre.spec_entries().len() + 1
    &&& forall|j: int|
        0 <= j < pre.spec_entries().len() ==> post.spec_entries()[j] == pre.spec_entries()[j]
    &&& e.parent == Some(parent)
    &&& e.kind == EntryKind::Native(item)
    &&& e.label@ == item.spec_label()
    &&& e.enabled == true
    &&& e.checked == false
    &&& e.accel == item.spec_default_accelerator()
    &&& (match item {
        NativeMenuItem::About(_, _) => e.id == pre.spec_about_next() && post.spec_about_next()
            == pre.spec_about_next() + 1,
        _ => e.id == item.spec_fixed_id() && post.spec_about_next() == pre.spec_about_next(),
    })
    &&& post.spec_custom_next() == pre.spec_custom_next()
    &&& post.spec_accels() == pre.spec_accels()
    &&& post.spec_attached() == pre.spec_attached()
}

/// A handle to a custom text item.
#[derive(Clone, Copy, Debug, PartialEq, Eq, Structural)]
pub struct TextMenuItem {
    pub pos: usize,
    pub id: u64,
}

impl TextMenuItem {
    /// The handle points at a text entry of `m` with its identifier.
    pub open spec fn valid(&self, m: &Menu) -> bool {
        &&& self.pos < m.spec_entries().len()
        &&& m.spec_entries()[self.pos as int].kind is Text
        &&& m.spec_entries()[self.pos as int].id == self.id
    }

    /// The item's process-unique identifier, as carried by its activation
    /// events.
    pub fn id(&self) -> (r: u64)
        ensures
            r == self.id,
    {
        self.id
    }

    /// The item's label, exactly as set: the accelerator suffix of the
    /// displayed title is never part of it.
    pub fn label(&self, menu: &Menu) -> (r: String)
        requires
            menu.wf(),
            self.valid(menu),
        ensures
            r@ == menu.spec_entries()[self.pos as int].label@,
    {
        menu.entries[self.pos].label.clone()
    }

    /// The combined title the native item displays: the label and, after a
    /// tab, the rendered accelerator when the item has one.
    pub fn label_with_accel(&self, menu: &Menu) -> (r: String)
        requires
            menu.wf(),
            self.valid(menu),
        ensures
            r@ == crate::label::spec_display_label(
                menu.spec_entries()[self.pos as int].label@,
                menu.spec_entries()[self.pos as int].accel,
            ),
    {
        let e = &menu.entries[self.pos];
        crate::label::display_label(e.label.as_str(), &e.accel)
    }

    /// Replaces the label; the displayed title keeps the accelerator
    /// suffix in sync automatically.
    pub fn set_label(&self, menu: &mut Menu, label: &str)
        requires
            old(menu).wf(),
            self.valid(old(menu)),
        ensures
            final(menu).wf(),
            self.valid(final(menu)),
            spec_updated_at(old(menu).spec_entries(), final(menu).spec_entries(), self.pos as int),
            same_entry_except_label(
                old(menu).spec_entries()[self.pos as int],
                final(menu).spec_entries()[self.pos as int],
            ),
            final(menu).spec_entries()[self.pos as int].label@ == label@,
            final(menu).spec_accels() == old(menu).spec_accels(),
            final(menu).spec_attached() == old(menu).spec_attached(),
            final(menu).spec_custom_next() == old(menu).spec_custom_next(),
            final(menu).spec_about_next() == old(menu).spec_about_next(),
    {
        let ghost pre_entries = menu.entries@;
        let ghost cn = old(menu).spec_custom_next();
        let ghost an = old(menu).spec_about_next();
        menu.entries[self.pos].label = String::from_str(label);
        proof {
            let j = self.pos as int;
            let s2 = menu.entries@;
            assert(spec_entry_wf(pre_entries, j));
            assert(spec_entry_wf(pre_entries.update(j, s2[j]), j));
            lemma_entries_wf_update(pre_entries, cn, an, j, s2[j]);
            lemma_accels_update_same_record(pre_entries, menu.accels@, j, s2[j]);
        }
    }

    /// Whether the item is enabled.
    pub fn enabled(&self, menu: &Menu) -> (r: bool)
        requires
            menu.wf(),
            self.valid(menu),
        ensures
            r == menu.spec_entries()[self.pos as int].enabled,
    {
        menu.entries[self.pos].enabled
    }

    /// Enables or disables the item.
    pub fn set_enabled(&self, menu: &mut Menu, enabled: bool)
        requires
            old(menu).wf(),
            self.valid(old(menu)),
        ensures
            final(menu).wf(),
            self.valid(final(menu)),
            spec_updated_at(old(menu).spec_entries(), final(menu).spec_entries(), self.pos as int),
            same_entry_except_enabled(
                old(menu).spec_entries()[self.pos as int],
                final(menu).spec_entries()[self.pos as int],
            ),
            final(menu).spec_entries()[self.pos as int].enabled == enabled,
            final(menu).spec_accels() == old(menu).spec_accels(),
            final(menu).spec_attached() == old(menu).spec_attached(),
            final(menu).spec_custom_next() == old(menu).spec_custom_next(),
            final(menu).spec_about_next() == old(menu).spec_about_next(),
    {
        let ghost pre_entries = menu.entries@;
        let ghost cn = old(menu).spec_custom_next();
        let ghost an = old(menu).spec_about_next();
        menu.entries[self.pos].enabled = enabled;
        proof {
            let j = self.pos as int;
            let s2 = menu.entries@;
            assert(spec_entry_wf(pre_entries, j));
            assert(spec_entry_wf(pre_entries.update(j, s2[j]), j));
            lemma_entries_wf_update(pre_entries, cn, an, j, s2[j]);
            lemma_accels_update_same_record(pre_entries, menu.accels@, j, s2[j]);
        }
    }
}

/// A handle to a custom checkable item.
#[derive(Clone, Copy, Debug, PartialEq, Eq, Structural)]
pub struct CheckMenuItem {
    pub pos: usize,
    pub id: u64,
}

impl CheckMenuItem {
    /// The handle points at a checkable entry of `m` with its identifier.
    pub open spec fn valid(&self, m: &Menu) -> bool {
        &&& self.pos < m.spec_entries().len()
        &&& m.spec_entries()[self.pos as int].kind is Check
        &&& m.spec_entries()[self.pos as int].id == self.id
    }

    /// The item's process-unique identifier, as carried by its activation
    /// events.
    pub fn id(&self) -> (r: u64)
        ensures
            r == self.id,
    {
        self.id
    }

    /// The item's label, exactly as set.
    pub fn label(&self, menu: &Menu) -> (r: String)
        requires
            menu.wf(),
            self.valid(menu),
        ensures
            r@ == menu.spec_entries()[self.pos as int].label@,
    {
        menu.entries[self.pos].label.clone()
    }

    /// The combined title the native item displays.
    pub fn label_with_accel(&self, menu: &Menu) -> (r: String)
        requires
            menu.wf(),
            self.valid(menu),
        ensures
            r@ == crate::label::spec_display_label(
                menu.spec_entries()[self.pos as int].label@,
                menu.spec_entries()[self.pos as int].accel,
            ),
    {
        let e = &menu.entries[self.pos];
        crate::label::display_label(e.label.as_str(), &e.accel)
    }

    /// Replaces the label; the displayed title keeps the accelerator
    /// suffix in sync automatically.
    pub fn set_label(&self, menu: &mut Menu, label: &str)
        requires
            old(menu).wf(),
            self.valid(old(menu)),
        ensures
            final(menu).wf(),
            self.valid(final(menu)),
            spec_updated_at(old(menu).spec_entries(), final(menu).spec_entries(), self.pos as int),
            same_entry_except_label(
                old(menu).spec_entries()[self.pos as int],
                final(menu).spec_entries()[self.pos as int],
            ),
            final(menu).spec_entries()[self.pos as int].label@ == label@,
            final(menu).spec_accels() == old(menu).spec_accels(),
            final(menu).spec_attached() == old(menu).spec_attached(),
            final(menu).spec_custom_next() == old(menu).spec_custom_next(),
            final(menu).spec_about_next() == old(menu).spec_about_next(),
    {
        let ghost pre_entries = menu.entries@;
        let ghost cn = old(menu).spec_custom_next();
        let ghost an = old(menu).spec_about_next();
        menu.entries[self.pos].label = String::from_str(label);
        proof {
            let j = self.pos as int;
            let s2 = menu.entries@;
            assert(spec_entry_wf(pre_entries, j));
            assert(spec_entry_wf(pre_entries.update(j, s2[j]), j));
            lemma_entries_wf_update(pre_entries, cn, an, j, s2[j]);
            lemma_accels_update_same_record(pre_entries, menu.accels@, j, s2[j]);
        }
    }

    /// Whether the item is enabled.
    pub fn enabled(&self, menu: &Menu) -> (r: bool)
        requires
            menu.wf(),
            self.valid(menu),
        ensures
            r == menu.spec_entries()[self.pos as int].enabled,
    {
        menu.entries[self.pos].enabled
    }

    /// Enables or disables the item; the checked state is untouched.
    pub fn set_enabled(&self, menu: &mut Menu, enabled: bool)
        requires
            old(menu).wf(),
            self.valid(old(menu)),
        ensures
            final(menu).wf(),
            self.valid(final(menu)),
            spec_updated_at(old(menu).spec_entries(), final(menu).spec_entries(), self.pos as int),
            same_entry_except_enabled(
                old(menu).spec_entries()[self.pos as int],
                final(menu).spec_entries()[self.pos as int],
            ),
            final(menu).spec_entries()[self.pos as int].enabled == enabled,
            final(menu).spec_accels() == old(menu).spec_accels(),
            final(menu).spec_attached() == old(menu).spec_attached(),
            final(menu).spec_custom_next() == old(menu).spec_custom_next(),
            final(menu).spec_about_next() == old(menu).spec_about_next(),
    {
        let ghost pre_entries = menu.entries@;
        let ghost cn = old(menu).spec_custom_next();
        let ghost an = old(menu).spec_about_next();
        menu.entries[self.pos].enabled = enabled;
        proof {
            let j = self.pos as int;
            let s2 = menu.entries@;
            assert(spec_entry_wf(pre_entries, j));
            assert(spec_entry_wf(pre_entries.update(j, s2[j]), j));
            lemma_entries_wf_update(pre_entries, cn, an, j, s2[j]);
            lemma_accels_update_same_record(pre_entries, menu.accels@, j, s2[j]);
        }
    }

    /// Whether the item is checked.
    pub fn checked(&self, menu: &Menu) -> (r: bool)
        requires
            menu.wf(),
            self.valid(menu),
        ensures
            r == menu.spec_entries()[self.pos as int].checked,
    {
        menu.entries[self.pos].checked
    }

    /// Sets the checked state, as an application does to override the
    /// automatic toggle after an activation.
    pub fn set_checked(&self, menu: &mut Menu, checked: bool)
        requires
            old(menu).wf(),
            self.valid(old(menu)),
        ensures
            final(menu).wf(),
            self.valid(final(menu)),
            spec_updated_at(old(menu).spec_entries(), final(menu).spec_entries(), self.pos as int),
            same_entry_except_checked(
                old(menu).spec_entries()[self.pos as int],
                final(menu).spec_entries()[self.pos as int],
            ),
            final(menu).spec_entries()[self.pos as int].checked == checked,
            final(menu).spec_accels() == old(menu).spec_accels(),
            final(menu).spec_attached() == old(menu).spec_attached(),
            final(menu).spec_custom_next() == old(menu).spec_custom_next(),
            final(menu).spec_about_next() == old(menu).spec_about_next(),
    {
        let ghost pre_entries = menu.entries@;
        let ghost cn = old(menu).spec_custom_next();
        let ghost an = old(menu).spec_about_next();
        menu.entries[self.pos].checked = checked;
        proof {
            let j = self.pos as int;
            let s2 = menu.entries@;
            assert(spec_entry_wf(pre_entries, j));
            assert(spec_entry_wf(pre_entries.update(j, s2[j]), j));
            lemma_entries_wf_update(pre_entries, cn, an, j, s2[j]);
            lemma_accels_update_same_record(pre_entries, menu.accels@, j, s2[j]);
        }
    }
}

/// Windows attached by `s` are pairwise distinct.
pub open spec fn spec_attached_unique(s: Seq<Attachment>) -> bool {
    forall|i: int, j: int| 0 <= i < j < s.len() ==> s[i].window != s[j].window
}

/// Setting the visibility flag of one attachment changes no window's
/// attachedness and no other window's visibility.
proof fn lemma_attach_set_visible(s: Seq<Attachment>, k: int, v: bool)
    requires
        spec_attached_unique(s),
        0 <= k < s.len(),
    ensures
        spec_attached_unique(s.update(k, Attachment { window: s[k].window, visible: v })),
        forall|w: isize|
            spec_attached_has(
                s.update(k, Attachment { window: s[k].window, visible: v }),
                w,
            ) == spec_attached_has(s, w),
        spec_attached_visible(s.update(k, Attachment { window: s[k].window, visible: v }), s[k].window)
            == v,
        forall|w: isize|
            w != s[k].window ==> spec_attached_visible(
                s.update(k, Attachment { window: s[k].window, visible: v }),
                w,
            ) == spec_attached_visible(s, w),
{
    let s2 = s.update(k, Attachment { window: s[k].window, visible: v });
    assert forall|w: isize| spec_attached_has(s2, w) == spec_attached_has(s, w) by {
        if spec_attached_has(s, w) {
            let i = choose|i: int| 0 <= i < s.len() && (#[trigger] s[i]).window == w;
            assert(s2[i].window == w);
        }
        if spec_attached_has(s2, w) {
            let i = choose|i: int| 0 <= i < s2.len() && (#[trigger] s2[i]).window == w;
            assert(s[i].window == w);
        }
    }
    if v {
        assert(s2[k].window == s[k].window && s2[k].visible);
    } else {
        assert forall|i: int|
            0 <= i < s2.len() && (#[trigger] s2[i]).window == s[k].window implies !s2[i].visible by {
            if i != k {
                assert(s[i].window == s[k].window);
            }
        }
    }
    assert forall|w: isize| w != s[k].window implies spec_attached_visible(s2, w)
        == spec_attached_visible(s, w) by {
        if spec_attached_visible(s, w) {
            let i = choose|i: int|
                0 <= i < s.len() && (#[trigger] s[i]).window == w && s[i].visible;
            assert(s2[i].window == w && s2[i].visible);
        }
        if spec_attached_visible(s2, w) {
            let i = choose|i: int|
                0 <= i < s2.len() && (#[trigger] s2[i]).window == w && s2[i].visible;
            assert(s[i].window == w && s[i].visible);
        }
    }
}

/// Attaching a window not yet present changes no other window's state.
proof fn lemma_attach_push(s: Seq<Attachment>, a: Attachment)
    requires
        spec_attached_unique(s),
        forall|i: int| 0 <= i < s.len() ==> (#[trigger] s[i]).window != a.window,
    ensures
        spec_attached_unique(s.push(a)),
        spec_attached_has(s.push(a), a.window),
        spec_attached_visible(s.push(a), a.window) == a.visible,
        forall|w: isize|
            w != a.window ==> spec_attached_has(s.push(a), w) == spec_attached_has(s, w),
        forall|w: isize|
            w != a.window ==> spec_attached_visible(s.push(a), w) == spec_attached_visible(s, w),
{
    let s2 = s.push(a);
    let last = s.len() as int;
    assert(s2[last] == a);
    if a.visible {
        assert(spec_attached_visible(s2, a.window));
    } else {
        assert forall|i: int|
            0 <= i < s2.len() && (#[trigger] s2[i]).window == a.window implies !s2[i].visible by {
            if i < last {
                assert(s[i].window != a.window);
            }
        }
    }
    assert forall|w: isize| w != a.window implies spec_attached_has(s2, w) == spec_attached_has(
        s,
        w,
    ) by {
        if spec_attached_has(s, w) {
            let i = choose|i: int| 0 <= i < s.len() && (#[trigger] s[i]).window == w;
            assert(s2[i].window == w);
        }
        if spec_attached_has(s2, w) {
            let i = choose|i: int| 0 <= i < s2.len() && (#[trigger] s2[i]).window == w;
            assert(i < last && s[i].window == w);
        }
    }
    assert forall|w: isize| w != a.window implies spec_attached_visible(s2, w)
        == spec_attached_visible(s, w) by {
        if spec_attached_visible(s, w) {
            let i = choose|i: int|
                0 <= i < s.len() && (#[trigger] s[i]).window == w && s[i].visible;
            assert(s2[i].window == w && s2[i].visible);
        }
        if spec_attached_visible(s2, w) {
            let i = choose|i: int|
                0 <= i < s2.len() && (#[trigger] s2[i]).window == w && s2[i].visible;
            assert(i < last && s[i].window == w && s[i].visible);
        }
    }
}

/// Detaching one window changes no other window's state.
proof fn lemma_attach_remove(s: Seq<Attachment>, k: int)
    requires
        spec_attached_unique(s),
        0 <= k < s.len(),
    ensures
        spec_attached_unique(s.remove(k)),
        !spec_attached_has(s.remove(k), s[k].window),
        forall|w: isize|
            w != s[k].window ==> spec_attached_has(s.remove(k), w) == spec_attached_has(s, w),
        forall|w: isize|
            w != s[k].window ==> spec_attached_visible(s.remove(k), w) == spec_attached_visible(
                s,
                w,
            ),
{
    let s2 = s.remove(k);
    assert forall|i: int, j: int| 0 <= i < j < s2.len() implies s2[i].window != s2[j].window by {
        let i0 = if i < k { i } else { i + 1 };
        let j0 = if j < k { j } else { j + 1 };
        assert(s2[i] == s[i0] && s2[j] == s[j0]);
    }
    assert forall|i: int|
        0 <= i < s2.len() implies (#[trigger] s2[i]).window != s[k].window by {
        let i0 = if i < k { i } else { i + 1 };
        assert(s2[i] == s[i0]);
    }
    assert forall|w: isize| w != s[k].window implies spec_attached_has(s2, w) == spec_attached_has(
        s,
        w,
    ) by {
        if spec_attached_has(s, w) {
            let i = choose|i: int| 0 <= i < s.len() && (#[trigger] s[i]).window == w;
            let i2 = if i < k { i } else { i - 1 };
            assert(s2[i2] == s[i]);
        }
        if spec_attached_has(s2, w) {
            let i = choose|i: int| 0 <= i < s2.len() && (#[trigger] s2[i]).window == w;
            let i0 = if i < k { i } else { i + 1 };
            assert(s[i0] == s2[i]);
        }
    }
    assert forall|w: isize| w != s[k].window implies spec_attached_visible(s2, w)
        == spec_attached_visible(s, w) by {
        if spec_attached_visible(s, w) {
            let i = choose|i: int|
                0 <= i < s.len() && (#[trigger] s[i]).window == w && s[i].visible;
            let i2 = if i < k { i } else { i - 1 };
            assert(s2[i2] == s[i]);
        }
        if spec_attached_visible(s2, w) {
            let i = choose|i: int|
                0 <= i < s2.len() && (#[trigger] s2[i]).window == w && s2[i].visible;
            let i0 = if i < k { i } else { i + 1 };
            assert(s[i0] == s2[i]);
        }
    }
}

/// Identifiers strictly increase with creation order within each
/// allocating category: later-created submenus and custom items carry
/// larger identifiers, and so do later-created About items.
pub proof fn lemma_ids_increase_within_category(m: &Menu)
    requires
        m.wf(),
    ensures
        forall|i: int, j: int|
            0 <= i < j < m.spec_entries().len() && spec_custom_category(
                #[trigger] m.spec_entries()[i],
            ) && spec_custom_category(#[trigger] m.spec_entries()[j])
                ==> m.spec_entries()[i].id < m.spec_entries()[j].id,
        forall|i: int, j: int|
            0 <= i < j < m.spec_entries().len() && spec_about_category(
                #[trigger] m.spec_entries()[i],
            ) && spec_about_category(#[trigger] m.spec_entries()[j]) ==> m.spec_entries()[i].id
                < m.spec_entries()[j].id,
{
    m.lemma_wf_facts();
}

/// The displayed accelerator suffix and the registered table record for
/// an item always agree: both are derived from the one stored
/// accelerator, and the table holds exactly that item's record.
pub proof fn lemma_accelerator_state_in_sync(m: &Menu, j: int)
    requires
        m.wf(),
        0 <= j < m.spec_entries().len(),
        m.spec_entries()[j].registers_accel(),
    ensures
        spec_table_has_record(m.spec_accels(), m.spec_entries()[j].accel_record()),
        crate::label::spec_display_label(
            m.spec_entries()[j].label@,
            m.spec_entries()[j].accel,
        ) == m.spec_entries()[j].label@ + "\t"@ + crate::accel::spec_render(
            m.spec_entries()[j].accel->0,
        ),
{
    m.lemma_wf_facts();
}

/// Identifier uniqueness across the whole registry: no two entries with
/// allocated identifiers (custom or About) ever share one, however many
/// item-creation calls were made.
pub proof fn lemma_item_ids_unique(m: &Menu)
    requires
        m.wf(),
    ensures
        forall|i: int, j: int|
            0 <= i < j < m.spec_entries().len() && m.spec_entries()[i].id >= ABOUT_ID_START
                && m.spec_entries()[j].id >= ABOUT_ID_START ==> m.spec_entries()[i].id
                != m.spec_entries()[j].id,
{
    m.lemma_wf_facts();
}

} // verus!
