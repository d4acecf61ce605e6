//! The catalog of native-standard menu items.
//!
//! A `NativeMenuItem` is one of the closed set of platform-standard actions
//! a menu can offer. Each has a catalog label and a fixed default
//! accelerator; the eight that are activated through the native command
//! path additionally occupy the fixed identifier range 301 through 308,
//! disjoint from every allocated identifier, so a notification's
//! identifier alone classifies it.

use vstd::prelude::*;

use crate::accel::Accelerator;
use crate::accel::Modifiers;
use crate::keycode::KeyCode;

verus! {

/// Free-form metadata shown by the About dialog.
#[derive(Clone, Debug)]
pub struct AboutMetadata {
    pub version: Option<String>,
    pub authors: Option<Vec<String>>,
    pub comments: Option<String>,
    pub license: Option<String>,
    pub website: Option<String>,
    pub website_label: Option<String>,
    pub copyright: Option<String>,
}

impl AboutMetadata {
    /// Metadata with every field absent.
    pub fn new() -> (r: AboutMetadata)
        ensures
            r.version is None,
            r.authors is None,
            r.comments is None,
            r.license is None,
            r.website is None,
            r.website_label is None,
            r.copyright is None,
    {
        AboutMetadata {
            version: None,
            authors: None,
            comments: None,
            license: None,
            website: None,
            website_label: None,
            copyright: None,
        }
    }
}

/// A platform-standard menu item. The About variant carries the
/// application name and the metadata its dialog shows.
#[derive(Clone, Debug)]
pub enum NativeMenuItem {
    Separator,
    About(String, AboutMetadata),
    CloseWindow,
    Quit,
    Hide,
    HideOthers,
    ShowAll,
    ToggleFullScreen,
    Minimize,
    Zoom,
    Copy,
    Cut,
    Paste,
    Undo,
    Redo,
    SelectAll,
    Services,
}

/// Smallest identifier of the native-standard range.
pub const NATIVE_ID_FIRST: u64 = 301;

/// Largest identifier of the native-standard range.
pub const NATIVE_ID_LAST: u64 = 308;

impl NativeMenuItem {
    /// Whether this variant owns one of the fixed identifiers 301..=308:
    /// the items dispatched through the native command path.
    pub open spec fn has_fixed_id(&self) -> bool {
        match *self {
            NativeMenuItem::Copy => true,
            NativeMenuItem::Cut => true,
            NativeMenuItem::Paste => true,
            NativeMenuItem::SelectAll => true,
            NativeMenuItem::Separator => true,
            NativeMenuItem::Minimize => true,
            NativeMenuItem::CloseWindow => true,
            NativeMenuItem::Quit => true,
            _ => false,
        }
    }

    /// The fixed identifier of a variant of the native command path; zero
    /// for the variants outside it.
    pub open spec fn spec_fixed_id(&self) -> u64 {
        match *self {
            NativeMenuItem::Copy => 301,
            NativeMenuItem::Cut => 302,
            NativeMenuItem::Paste => 303,
            NativeMenuItem::SelectAll => 304,
            NativeMenuItem::Separator => 305,
            NativeMenuItem::Minimize => 306,
            NativeMenuItem::CloseWindow => 307,
            NativeMenuItem::Quit => 308,
            _ => 0,
        }
    }

    /// The fixed identifier of this item. Only the variants of the native
    /// command path have one.
    pub fn id(&self) -> (r: u64)
        requires
            self.has_fixed_id(),
        ensures
            r == self.spec_fixed_id(),
            NATIVE_ID_FIRST <= r <= NATIVE_ID_LAST,
    {
        match *self {
            NativeMenuItem::Copy => 301,
            NativeMenuItem::Cut => 302,
            NativeMenuItem::Paste => 303,
            NativeMenuItem::SelectAll => 304,
            NativeMenuItem::Separator => 305,
            NativeMenuItem::Minimize => 306,
            NativeMenuItem::CloseWindow => 307,
            _ => 308,
        }
    }

    /// Whether an identifier lies in the native-standard range.
    pub fn is_native(id: u64) -> (r: bool)
        ensures
            r == (NATIVE_ID_FIRST <= id <= NATIVE_ID_LAST),
    {
        NATIVE_ID_FIRST <= id && id <= NATIVE_ID_LAST
    }

    /// The variant owning a fixed identifier.
    pub open spec fn spec_from_id(id: u64) -> NativeMenuItem {
        if id == 301 {
            NativeMenuItem::Copy
        } else if id == 302 {
            NativeMenuItem::Cut
        } else if id == 303 {
            NativeMenuItem::Paste
        } else if id == 304 {
            NativeMenuItem::SelectAll
        } else if id == 305 {
            NativeMenuItem::Separator
        } else if id == 306 {
            NativeMenuItem::Minimize
        } else if id == 307 {
            NativeMenuItem::CloseWindow
        } else {
            NativeMenuItem::Quit
        }
    }

    /// Maps an identifier of the native-standard range back to its item.
    pub fn from_id(id: u64) -> (r: NativeMenuItem)
        requires
            NATIVE_ID_FIRST <= id <= NATIVE_ID_LAST,
        ensures
            r == NativeMenuItem::spec_from_id(id),
            r.has_fixed_id(),
            r.spec_fixed_id() == id,
    {
        if id == 301 {
            NativeMenuItem::Copy
        } else if id == 302 {
            NativeMenuItem::Cut
        } else if id == 303 {
            NativeMenuItem::Paste
        } else if id == 304 {
            NativeMenuItem::SelectAll
        } else if id == 305 {
            NativeMenuItem::Separator
        } else if id == 306 {
            NativeMenuItem::Minimize
        } else if id == 307 {
            NativeMenuItem::CloseWindow
        } else {
            NativeMenuItem::Quit
        }
    }

    /// The fixed default accelerator of this item, with the primary
    /// modifier rendered as Ctrl in this platform-neutral catalog.
    pub open spec fn spec_default_accelerator(&self) -> Option<Accelerator> {
        let ctrl = Modifiers { ctrl: true, shift: false, alt: false, meta: false };
        let ctrl_shift = Modifiers { ctrl: true, shift: true, alt: false, meta: false };
        let alt = Modifiers { ctrl: false, shift: false, alt: true, meta: false };
        match *self {
            NativeMenuItem::CloseWindow => Some(Accelerator { mods: ctrl, key: KeyCode::KeyW }),
            NativeMenuItem::Quit => Some(Accelerator { mods: ctrl, key: KeyCode::KeyQ }),
            NativeMenuItem::Hide => Some(Accelerator { mods: ctrl, key: KeyCode::KeyH }),
            NativeMenuItem::HideOthers => Some(Accelerator { mods: alt, key: KeyCode::KeyH }),
            NativeMenuItem::ToggleFullScreen => Some(Accelerator { mods: ctrl, key: KeyCode::KeyF }),
            NativeMenuItem::Minimize => Some(Accelerator { mods: ctrl, key: KeyCode::KeyM }),
            NativeMenuItem::Copy => Some(Accelerator { mods: ctrl, key: KeyCode::KeyC }),
            NativeMenuItem::Cut => Some(Accelerator { mods: ctrl, key: KeyCode::KeyX }),
            NativeMenuItem::Paste => Some(Accelerator { mods: ctrl, key: KeyCode::KeyV }),
            NativeMenuItem::Undo => Some(Accelerator { mods: ctrl, key: KeyCode::KeyZ }),
            NativeMenuItem::Redo => Some(Accelerator { mods: ctrl_shift, key: KeyCode::KeyZ }),
            NativeMenuItem::SelectAll => Some(Accelerator { mods: ctrl, key: KeyCode::KeyA }),
            _ => None,
        }
    }

    /// Returns the fixed default accelerator of this item, if it has one.
    pub fn default_accelerator(&self) -> (r: Option<Accelerator>)
        ensures
            r == self.spec_default_accelerator(),
    {
        let ctrl = Modifiers { ctrl: true, shift: false, alt: false, meta: false };
        let ctrl_shift = Modifiers { ctrl: true, shift: true, alt: false, meta: false };
        let alt = Modifiers { ctrl: false, shift: false, alt: true, meta: false };
        match *self {
            NativeMenuItem::CloseWindow => Some(Accelerator { mods: ctrl, key: KeyCode::KeyW }),
            NativeMenuItem::Quit => Some(Accelerator { mods: ctrl, key: KeyCode::KeyQ }),
            NativeMenuItem::Hide => Some(Accelerator { mods: ctrl, key: KeyCode::KeyH }),
            NativeMenuItem::HideOthers => Some(Accelerator { mods: alt, key: KeyCode::KeyH }),
            NativeMenuItem::ToggleFullScreen => Some(Accelerator { mods: ctrl, key: KeyCode::KeyF }),
            NativeMenuItem::Minimize => Some(Accelerator { mods: ctrl, key: KeyCode::KeyM }),
            NativeMenuItem::Copy => Some(Accelerator { mods: ctrl, key: KeyCode::KeyC }),
            NativeMenuItem::Cut => Some(Accelerator { mods: ctrl, key: KeyCode::KeyX }),
            NativeMenuItem::Paste => Some(Accelerator { mods: ctrl, key: KeyCode::KeyV }),
            NativeMenuItem::Undo => Some(Accelerator { mods: ctrl, key: KeyCode::KeyZ }),
            NativeMenuItem::Redo => Some(Accelerator { mods: ctrl_shift, key: KeyCode::KeyZ }),
            NativeMenuItem::SelectAll => Some(Accelerator { mods: ctrl, key: KeyCode::KeyA }),
            _ => None,
        }
    }

    /// The catalog label of this item.
    pub open spec fn spec_label(&self) -> Seq<char> {
        match *self {
            NativeMenuItem::Separator => ""@,
            NativeMenuItem::About(name, _) => "About "@ + name@,
            NativeMenuItem::CloseWindow => "Close Window"@,
            NativeMenuItem::Quit => "Quit"@,
            NativeMenuItem::Hide => "Hide"@,
            NativeMenuItem::HideOthers => "Hide Others"@,
            NativeMenuItem::ShowAll => "Show All"@,
            NativeMenuItem::ToggleFullScreen => "Toggle Full Screen"@,
            NativeMenuItem::Minimize => "Minimize"@,
            NativeMenuItem::Zoom => "Zoom"@,
            NativeMenuItem::Copy => "Copy"@,
            NativeMenuItem::Cut => "Cut"@,
            NativeMenuItem::Paste => "Paste"@,
            NativeMenuItem::Undo => "Undo"@,
            NativeMenuItem::Redo => "Redo"@,
            NativeMenuItem::SelectAll => "Select All"@,
            NativeMenuItem::Services => "Services"@,
        }
    }

    /// Builds the catalog label of this item, e.g. `About <application>`
    /// for the About variant.
    pub fn label(&self) -> (r: String)
        ensures
            r@ == self.spec_label(),
    {
        match self {
            NativeMenuItem::Separator => String::from_str(""),
            NativeMenuItem::About(name, _) => String::from_str("About ").concat(name.as_str()),
            NativeMenuItem::CloseWindow => String::from_str("Close Window"),
            NativeMenuItem::Quit => String::from_str("Quit"),
            NativeMenuItem::Hide => String::from_str("Hide"),
            NativeMenuItem::HideOthers => String::from_str("Hide Others"),
            NativeMenuItem::ShowAll => String::from_str("Show All"),
            NativeMenuItem::ToggleFullScreen => String::from_str("Toggle Full Screen"),
            NativeMenuItem::Minimize => String::from_str("Minimize"),
            NativeMenuItem::Zoom => String::from_str("Zoom"),
            NativeMenuItem::Copy => String::from_str("Copy"),
            NativeMenuItem::Cut => String::from_str("Cut"),
            NativeMenuItem::Paste => String::from_str("Paste"),
            NativeMenuItem::Undo => String::from_str("Undo"),
            NativeMenuItem::Redo => String::from_str("Redo"),
            NativeMenuItem::SelectAll => String::from_str("Select All"),
            NativeMenuItem::Services => String::from_str("Services"),
        }
    }
}

/// Fixed identifiers and their items are in exact correspondence: mapping
/// an item's identifier back yields the item, and mapping any identifier
/// of the range forward and back yields the identifier.
pub proof fn lemma_fixed_id_bijective()
    ensures
        forall|item: NativeMenuItem|
            item.has_fixed_id() ==> NativeMenuItem::spec_from_id(#[trigger] item.spec_fixed_id())
                == item,
        forall|id: u64|
            NATIVE_ID_FIRST <= id <= NATIVE_ID_LAST ==> (#[trigger] NativeMenuItem::spec_from_id(
                id,
            )).spec_fixed_id() == id,
{
}

/// The given parts joined by the separator.
pub open spec fn spec_join(parts: Seq<Seq<char>>, sep: Seq<char>) -> Seq<char>
    decreases parts.len(),
{
    if parts.len() == 0 {
        Seq::empty()
    } else if parts.len() == 1 {
        parts[0]
    } else {
        parts[0] + sep + spec_join(parts.drop_first(), sep)
    }
}

/// Joins the strings from index `i` on with the separator.
fn join_from(parts: &Vec<String>, sep: &str, i: usize) -> (r: String)
    requires
        i <= parts.len(),
    ensures
        r@ == spec_join(parts.deep_view().skip(i as int), sep@),
    decreases parts.len() - i,
{
    let n = parts.len();
    if i == n {
        proof {
            assert(parts.deep_view().skip(i as int) =~= Seq::<Seq<char>>::empty());
        }
        String::new()
    } else if i == n - 1 {
        proof {
            assert(parts.deep_view().skip(i as int) =~= seq![parts.deep_view()[i as int]]);
        }
        parts[i].clone()
    } else {
        let mut s = parts[i].clone();
        s.append(sep);
        let rest = join_from(parts, sep, i + 1);
        s.append(rest.as_str());
        proof {
            let dv = parts.deep_view();
            assert(dv.skip(i as int)[0] == dv[i as int]);
            assert(dv.skip(i as int).drop_first() =~= dv.skip(i as int + 1));
            assert(s@ == dv.skip(i as int)[0] + sep@ + spec_join(
                dv.skip(i as int).drop_first(),
                sep@,
            ));
        }
        s
    }
}

/// The fixed textual template of the About dialog for a given application
/// name and metadata: the name, then one line per present field.
pub open spec fn spec_about_dialog_text(name: Seq<char>, m: AboutMetadata) -> Seq<char> {
    let t1 = name + (match m.version {
        Some(v) => "\nVersion: "@ + v@,
        None => Seq::<char>::empty(),
    });
    let t2 = t1 + (match m.authors {
        Some(authors) => "\nBy: "@ + spec_join(authors.deep_view(), ", "@),
        None => Seq::<char>::empty(),
    });
    let t3 = t2 + (match m.comments {
        Some(c) => "\n\n"@ + c@,
        None => Seq::<char>::empty(),
    });
    let t4 = t3 + (match m.license {
        Some(l) => "\nLicense: "@ + l@,
        None => Seq::<char>::empty(),
    });
    let t5 = t4 + (match m.website {
        Some(w) => "\n"@ + (match m.website_label {
            Some(l) => l@,
            None => "Website"@,
        }) + ": "@ + w@,
        None => Seq::<char>::empty(),
    });
    t5 + (match m.copyright {
        Some(c) => "\n"@ + c@,
        None => Seq::<char>::empty(),
    })
}

/// Renders the About dialog's text from the application name and the
/// stored metadata, following the fixed template.
/// Appends `prefix` and the value when the field is present.
fn append_opt_line(s: &mut String, prefix: &str, value: &Option<String>)
    ensures
        final(s)@ == old(s)@ + (match value {
            Some(v) => prefix@ + v@,
            None => Seq::<char>::empty(),
        }),
{
    match value {
        Some(v) => {
            s.append(prefix);
            s.append(v.as_str());
            proof {
                assert(s@ =~= old(s)@ + (prefix@ + v@));
            }
        },
        None => {
            proof {
                assert(s@ =~= old(s)@ + Seq::<char>::empty());
            }
        },
    }
}

/// Appends the authors line when the list is present.
fn append_authors_line(s: &mut String, authors: &Option<Vec<String>>)
    ensures
        final(s)@ == old(s)@ + (match authors {
            Some(list) => "\nBy: "@ + spec_join(list.deep_view(), ", "@),
            None => Seq::<char>::empty(),
        }),
{
    match authors {
        Some(list) => {
            s.append("\nBy: ");
            let joined = join_from(list, ", ", 0);
            s.append(joined.as_str());
            proof {
                assert(list.deep_view().skip(0) =~= list.deep_view());
                assert(s@ =~= old(s)@ + ("\nBy: "@ + spec_join(list.deep_view(), ", "@)));
            }
        },
        None => {
            proof {
                assert(s@ =~= old(s)@ + Seq::<char>::empty());
            }
        },
    }
}

/// Appends the website line when the address is present, titled by the
/// label when one was given.
fn append_website_line(s: &mut String, website: &Option<String>, label: &Option<String>)
    ensures
        final(s)@ == old(s)@ + (match website {
            Some(w) => "\n"@ + (match label {
                Some(l) => l@,
                None => "Website"@,
            }) + ": "@ + w@,
            None => Seq::<char>::empty(),
        }),
{
    match website {
        Some(w) => {
            s.append("\n");
            match label {
                Some(l) => s.append(l.as_str()),
                None => s.append("Website"),
            }
            s.append(": ");
            s.append(w.as_str());
            proof {
                assert(s@ =~= old(s)@ + ("\n"@ + (match label {
                    Some(l) => l@,
                    None => "Website"@,
                }) + ": "@ + w@));
            }
        },
        None => {
            proof {
                assert(s@ =~= old(s)@ + Seq::<char>::empty());
            }
        },
    }
}

/// Renders the About dialog's text from the application name and the
/// stored metadata, following the fixed template.
pub fn about_dialog_text(name: &str, m: &AboutMetadata) -> (r: String)
    ensures
        r@ == spec_about_dialog_text(name@, *m),
{
    let mut s = String::from_str(name);
    append_opt_line(&mut s, "\nVersion: ", &m.version);
    append_authors_line(&mut s, &m.authors);
    append_opt_line(&mut s, "\n\n", &m.comments);
    append_opt_line(&mut s, "\nLicense: ", &m.license);
    append_website_line(&mut s, &m.website, &m.website_label);
    append_opt_line(&mut s, "\n", &m.copyright);
    s
}

} // verus!
