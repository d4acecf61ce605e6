//! The accelerator codec.
//!
//! An accelerator is an immutable (key, modifier-set) pair. It has a
//! canonical textual rendering — modifier tokens joined by `+` and
//! terminated by exactly one key token, as in `Ctrl+Shift+Z` — and a native
//! accelerator-table rendering (virtual key, modifier bitmask, command
//! identifier). The parser reads the textual form back, matching tokens
//! case-insensitively; parsing the canonical rendering of any accelerator
//! recovers exactly that accelerator.

use vstd::prelude::*;

use crate::keycode::KeyCode;
use crate::keycode::key_of_token;
use crate::keycode::lemma_key_token_roundtrip;
use crate::keycode::spec_key_of_token;
use crate::keycode::spec_token_has_no_separator;
use crate::keycode::spec_upper_char;
use crate::keycode::upper_char;

verus! {

/// The closed set of modifier keys an accelerator can require: Ctrl,
/// Shift, Alt (Option), and the platform's command key (Cmd/Super).
#[derive(Clone, Copy, Debug, PartialEq, Eq, Structural)]
pub struct Modifiers {
    pub ctrl: bool,
    pub shift: bool,
    pub alt: bool,
    pub meta: bool,
}

impl Modifiers {
    /// The empty modifier set.
    pub open spec fn spec_empty() -> Modifiers {
        Modifiers { ctrl: false, shift: false, alt: false, meta: false }
    }

    pub fn empty() -> (r: Modifiers)
        ensures
            r == Modifiers::spec_empty(),
    {
        Modifiers { ctrl: false, shift: false, alt: false, meta: false }
    }

    /// The union of two modifier sets.
    pub open spec fn spec_union(self, other: Modifiers) -> Modifiers {
        Modifiers {
            ctrl: self.ctrl || other.ctrl,
            shift: self.shift || other.shift,
            alt: self.alt || other.alt,
            meta: self.meta || other.meta,
        }
    }

    pub fn union(self, other: Modifiers) -> (r: Modifiers)
        ensures
            r == self.spec_union(other),
    {
        Modifiers {
            ctrl: self.ctrl || other.ctrl,
            shift: self.shift || other.shift,
            alt: self.alt || other.alt,
            meta: self.meta || other.meta,
        }
    }
}

/// An immutable keyboard shortcut: a modifier set plus one key. Equality
/// is structural.
#[derive(Clone, Copy, Debug, PartialEq, Eq, Structural)]
pub struct Accelerator {
    pub mods: Modifiers,
    pub key: KeyCode,
}

/// Why an accelerator string failed to parse.
#[derive(Clone, Copy, Debug, PartialEq, Eq, Structural)]
pub enum AccelParseError {
    /// A token before the last is not one of the modifier tokens
    /// `Ctrl`, `Shift`, `Alt`, `Cmd`.
    UnrecognizedModifier,
    /// The final token names no supported key (or is empty).
    UnrecognizedKey,
}

/// The modifier set named by one token, compared case-insensitively
/// against `Ctrl`, `Shift`, `Alt` and `Cmd`.
pub open spec fn spec_modifier_of_token(t: Seq<char>) -> Option<Modifiers> {
    if t.len() == 4 && spec_upper_char(t[0]) == 'C' && spec_upper_char(t[1]) == 'T'
        && spec_upper_char(t[2]) == 'R' && spec_upper_char(t[3]) == 'L' {
        Some(Modifiers { ctrl: true, shift: false, alt: false, meta: false })
    } else if t.len() == 5 && spec_upper_char(t[0]) == 'S' && spec_upper_char(t[1]) == 'H'
        && spec_upper_char(t[2]) == 'I' && spec_upper_char(t[3]) == 'F'
        && spec_upper_char(t[4]) == 'T' {
        Some(Modifiers { ctrl: false, shift: true, alt: false, meta: false })
    } else if t.len() == 3 && spec_upper_char(t[0]) == 'A' && spec_upper_char(t[1]) == 'L'
        && spec_upper_char(t[2]) == 'T' {
        Some(Modifiers { ctrl: false, shift: false, alt: true, meta: false })
    } else if t.len() == 3 && spec_upper_char(t[0]) == 'C' && spec_upper_char(t[1]) == 'M'
        && spec_upper_char(t[2]) == 'D' {
        Some(Modifiers { ctrl: false, shift: false, alt: false, meta: true })
    } else {
        None
    }
}

/// Recognizes a modifier token, case-insensitively.
fn modifier_of_token(t: &Vec<char>) -> (r: Option<Modifiers>)
    ensures
        r == spec_modifier_of_token(t@),
{
    let n = t.len();
    if n == 4 && upper_char(t[0]) == 'C' && upper_char(t[1]) == 'T' && upper_char(t[2]) == 'R'
        && upper_char(t[3]) == 'L' {
        Some(Modifiers { ctrl: true, shift: false, alt: false, meta: false })
    } else if n == 5 && upper_char(t[0]) == 'S' && upper_char(t[1]) == 'H'
        && upper_char(t[2]) == 'I' && upper_char(t[3]) == 'F' && upper_char(t[4]) == 'T' {
        Some(Modifiers { ctrl: false, shift: true, alt: false, meta: false })
    } else if n == 3 && upper_char(t[0]) == 'A' && upper_char(t[1]) == 'L'
        && upper_char(t[2]) == 'T' {
        Some(Modifiers { ctrl: false, shift: false, alt: true, meta: false })
    } else if n == 3 && upper_char(t[0]) == 'C' && upper_char(t[1]) == 'M'
        && upper_char(t[2]) == 'D' {
        Some(Modifiers { ctrl: false, shift: false, alt: false, meta: true })
    } else {
        None
    }
}

/// One step of the tokenizer: the characters of `s` still to read, the
/// token collected so far, and the modifiers already accepted. A separator
/// closes the current token, which must be a modifier; the end of the
/// input closes the final token, which must be a key.
pub open spec fn spec_parse_rec(s: Seq<char>, tok: Seq<char>, m: Modifiers) -> Result<
    Accelerator,
    AccelParseError,
>
    decreases s.len(),
{
    if s.len() == 0 {
        match spec_key_of_token(tok) {
            Some(k) => Ok(Accelerator { mods: m, key: k }),
            None => Err(AccelParseError::UnrecognizedKey),
        }
    } else if s[0] == '+' {
        match spec_modifier_of_token(tok) {
            Some(m2) => spec_parse_rec(s.drop_first(), Seq::empty(), m.spec_union(m2)),
            None => Err(AccelParseError::UnrecognizedModifier),
        }
    } else {
        spec_parse_rec(s.drop_first(), tok.push(s[0]), m)
    }
}

/// What `parse` returns on a given string.
pub open spec fn spec_parse(s: Seq<char>) -> Result<Accelerator, AccelParseError> {
    spec_parse_rec(s, Seq::empty(), Modifiers::spec_empty())
}

/// The textual rendering of a modifier set: each active modifier's token,
/// in the fixed order Ctrl, Shift, Alt, Cmd, each followed by `+`.
pub open spec fn spec_mods_prefix(m: Modifiers) -> Seq<char> {
    (if m.ctrl {
        "Ctrl"@ + "+"@
    } else {
        Seq::<char>::empty()
    }) + (if m.shift {
        "Shift"@ + "+"@
    } else {
        Seq::<char>::empty()
    }) + (if m.alt {
        "Alt"@ + "+"@
    } else {
        Seq::<char>::empty()
    }) + (if m.meta {
        "Cmd"@ + "+"@
    } else {
        Seq::<char>::empty()
    })
}

/// The canonical textual rendering of an accelerator.
pub open spec fn spec_render(a: Accelerator) -> Seq<char> {
    spec_mods_prefix(a.mods) + a.key.spec_name()
}

/// The macOS-conventional display of an accelerator: the glyphs of the
/// active modifiers in the order Control, Option, Shift, Command, with no
/// separator, then the key's token.
pub open spec fn spec_render_mac(a: Accelerator) -> Seq<char> {
    (if a.mods.ctrl {
        "\u{2303}"@
    } else {
        Seq::<char>::empty()
    }) + (if a.mods.alt {
        "\u{2325}"@
    } else {
        Seq::<char>::empty()
    }) + (if a.mods.shift {
        "\u{21e7}"@
    } else {
        Seq::<char>::empty()
    }) + (if a.mods.meta {
        "\u{2318}"@
    } else {
        Seq::<char>::empty()
    }) + a.key.spec_name()
}


impl Accelerator {
    pub fn new(mods: Modifiers, key: KeyCode) -> (r: Accelerator)
        ensures
            r == (Accelerator { mods, key }),
    {
        Accelerator { mods, key }
    }

    /// Renders this accelerator in the canonical textual form, e.g.
    /// `Ctrl+Shift+Z`.
    pub fn render(&self) -> (r: String)
        ensures
            r@ == spec_render(*self),
    {
        let mut s = String::new();
        if self.mods.ctrl {
            s.append("Ctrl");
            s.append("+");
        }
        if self.mods.shift {
            s.append("Shift");
            s.append("+");
        }
        if self.mods.alt {
            s.append("Alt");
            s.append("+");
        }
        if self.mods.meta {
            s.append("Cmd");
            s.append("+");
        }
        s.append(self.key.name());
        proof {
            assert(s@ =~= spec_render(*self));
        }
        s
    }


    /// Renders this accelerator in the macOS display convention: modifier
    /// glyphs followed by the key token, e.g. `\u{2303}\u{21e7}Z`.
    pub fn render_mac(&self) -> (r: String)
        ensures
            r@ == spec_render_mac(*self),
    {
        let mut s = String::new();
        if self.mods.ctrl {
            s.append("\u{2303}");
        }
        if self.mods.alt {
            s.append("\u{2325}");
        }
        if self.mods.shift {
            s.append("\u{21e7}");
        }
        if self.mods.meta {
            s.append("\u{2318}");
        }
        s.append(self.key.name());
        proof {
            assert(s@ =~= spec_render_mac(*self));
        }
        s
    }

    /// Parses the textual shortcut form: modifier tokens joined by `+`,
    /// terminated by exactly one key token, all matched case-insensitively.
    /// Returns an error on any unrecognized token; never panics.
    pub fn parse(s: &str) -> (r: Result<Accelerator, AccelParseError>)
        ensures
            r == spec_parse(s@),
    {
        let n = s.unicode_len();
        let mut i: usize = 0;
        let mut tok: Vec<char> = Vec::new();
        let mut mods = Modifiers::empty();
        proof {
            assert(s@.skip(0) =~= s@);
        }
        while i < n
            invariant
                n == s@.len(),
                i <= n,
                spec_parse_rec(s@.skip(i as int), tok@, mods) == spec_parse(s@),
            decreases n - i,
        {
            let c = s.get_char(i);
            proof {
                assert(s@.skip(i as int)[0] == s@[i as int]);
                assert(s@.skip(i as int).drop_first() =~= s@.skip(i as int + 1));
            }
            if c == '+' {
                match modifier_of_token(&tok) {
                    Some(m2) => {
                        mods = mods.union(m2);
                        tok = Vec::new();
                    },
                    None => {
                        return Err(AccelParseError::UnrecognizedModifier);
                    },
                }
            } else {
                tok.push(c);
            }
            i = i + 1;
        }
        proof {
            assert(s@.skip(n as int) =~= Seq::<char>::empty());
        }
        match key_of_token(&tok) {
            Some(k) => Ok(Accelerator { mods, key: k }),
            None => Err(AccelParseError::UnrecognizedKey),
        }
    }
}

/// Reading a separator-free stretch of input only moves it into the
/// current token.
proof fn lemma_parse_consumes_token(
    body: Seq<char>,
    rest: Seq<char>,
    tok: Seq<char>,
    m: Modifiers,
)
    requires
        spec_token_has_no_separator(body),
    ensures
        spec_parse_rec(body + rest, tok, m) == spec_parse_rec(rest, tok + body, m),
    decreases body.len(),
{
    if body.len() == 0 {
        assert(body + rest =~= rest);
        assert(tok + body =~= tok);
    } else {
        assert((body + rest)[0] == body[0]);
        assert(body[0] != '+');
        assert((body + rest).drop_first() =~= body.drop_first() + rest);
        assert(spec_token_has_no_separator(body.drop_first()));
        lemma_parse_consumes_token(body.drop_first(), rest, tok.push(body[0]), m);
        assert(tok.push(body[0]) + body.drop_first() =~= tok + body);
    }
}

/// A separator closes the current token, which must name a modifier.
proof fn lemma_parse_separator(rest: Seq<char>, tok: Seq<char>, m: Modifiers)
    ensures
        spec_parse_rec(seq!['+'] + rest, tok, m) == (match spec_modifier_of_token(tok) {
            Some(m2) => spec_parse_rec(rest, Seq::empty(), m.spec_union(m2)),
            None => Err::<Accelerator, AccelParseError>(AccelParseError::UnrecognizedModifier),
        }),
{
    assert((seq!['+'] + rest)[0] == '+');
    assert((seq!['+'] + rest).drop_first() =~= rest);
}

/// One optional modifier word followed by a separator folds its flag into
/// the accepted set.
proof fn lemma_parse_modifier_prefix(
    word: Seq<char>,
    flag: Modifiers,
    rest: Seq<char>,
    m: Modifiers,
)
    requires
        spec_token_has_no_separator(word),
        spec_modifier_of_token(word) == Some(flag),
    ensures
        spec_parse_rec(word + (seq!['+'] + rest), Seq::empty(), m) == spec_parse_rec(
            rest,
            Seq::empty(),
            m.spec_union(flag),
        ),
{
    lemma_parse_consumes_token(word, seq!['+'] + rest, Seq::empty(), m);
    assert(Seq::<char>::empty() + word =~= word);
    lemma_parse_separator(rest, word, m);
}

/// Parsing the canonical rendering of any accelerator recovers exactly
/// that accelerator: the textual encoding is lossless over the whole
/// supported set of (modifiers, key) pairs.
pub proof fn lemma_parse_render_roundtrip(a: Accelerator)
    ensures
        spec_parse(spec_render(a)) == Ok::<Accelerator, AccelParseError>(a),
{
    let m = a.mods;
    let name = a.key.spec_name();
    lemma_key_token_roundtrip(a.key);

    let ctrl_flag = Modifiers { ctrl: true, shift: false, alt: false, meta: false };
    let shift_flag = Modifiers { ctrl: false, shift: true, alt: false, meta: false };
    let alt_flag = Modifiers { ctrl: false, shift: false, alt: true, meta: false };
    let meta_flag = Modifiers { ctrl: false, shift: false, alt: false, meta: true };

    reveal_strlit("Ctrl");
    reveal_strlit("Shift");
    reveal_strlit("Alt");
    reveal_strlit("Cmd");
    reveal_strlit("+");
    assert("+"@ =~= seq!['+']);

    assert(spec_modifier_of_token("Ctrl"@) == Some(ctrl_flag));
    assert(spec_modifier_of_token("Shift"@) == Some(shift_flag));
    assert(spec_modifier_of_token("Alt"@) == Some(alt_flag));
    assert(spec_modifier_of_token("Cmd"@) == Some(meta_flag));
    assert(spec_token_has_no_separator("Ctrl"@));
    assert(spec_token_has_no_separator("Shift"@));
    assert(spec_token_has_no_separator("Alt"@));
    assert(spec_token_has_no_separator("Cmd"@));

    // Normalize the rendering into nested optional prefixes.
    let s_meta = if m.meta {
        "Cmd"@ + (seq!['+'] + name)
    } else {
        name
    };
    let s_alt = if m.alt {
        "Alt"@ + (seq!['+'] + s_meta)
    } else {
        s_meta
    };
    let s_shift = if m.shift {
        "Shift"@ + (seq!['+'] + s_alt)
    } else {
        s_alt
    };
    let s_ctrl = if m.ctrl {
        "Ctrl"@ + (seq!['+'] + s_shift)
    } else {
        s_shift
    };
    assert(spec_render(a) =~= s_ctrl);

    let m0 = Modifiers::spec_empty();
    let m1 = if m.ctrl {
        m0.spec_union(ctrl_flag)
    } else {
        m0
    };
    let m2 = if m.shift {
        m1.spec_union(shift_flag)
    } else {
        m1
    };
    let m3 = if m.alt {
        m2.spec_union(alt_flag)
    } else {
        m2
    };
    let m4 = if m.meta {
        m3.spec_union(meta_flag)
    } else {
        m3
    };
    assert(m4 == m);

    if m.ctrl {
        lemma_parse_modifier_prefix("Ctrl"@, ctrl_flag, s_shift, m0);
    }
    assert(spec_parse_rec(s_ctrl, Seq::empty(), m0) == spec_parse_rec(s_shift, Seq::empty(), m1));
    if m.shift {
        lemma_parse_modifier_prefix("Shift"@, shift_flag, s_alt, m1);
    }
    assert(spec_parse_rec(s_shift, Seq::empty(), m1) == spec_parse_rec(s_alt, Seq::empty(), m2));
    if m.alt {
        lemma_parse_modifier_prefix("Alt"@, alt_flag, s_meta, m2);
    }
    assert(spec_parse_rec(s_alt, Seq::empty(), m2) == spec_parse_rec(s_meta, Seq::empty(), m3));
    if m.meta {
        lemma_parse_modifier_prefix("Cmd"@, meta_flag, name, m3);
    }
    assert(spec_parse_rec(s_meta, Seq::empty(), m3) == spec_parse_rec(name, Seq::empty(), m4));

    lemma_parse_consumes_token(name, Seq::empty(), Seq::empty(), m4);
    assert(name + Seq::<char>::empty() =~= name);
    assert(Seq::<char>::empty() + name =~= name);
    assert(spec_parse_rec(name, Seq::empty(), m4) == spec_parse_rec(
        Seq::<char>::empty(),
        name,
        m4,
    ));
    assert(spec_parse_rec(Seq::<char>::empty(), name, m4) == Ok::<
        Accelerator,
        AccelParseError,
    >(a));
}

/// Build-then-render and parse-then-render agree: re-rendering what the
/// parser recovered from a canonical rendering gives that rendering back.
pub proof fn lemma_render_parse_render(a: Accelerator)
    ensures
        match spec_parse(spec_render(a)) {
            Ok(b) => spec_render(b) == spec_render(a),
            Err(_) => false,
        },
{
    lemma_parse_render_roundtrip(a);
}

/// The modifier bitmask of a native accelerator-table entry marks the
/// entry as virtual-key based.
pub const ACCEL_FLAG_VIRTKEY: u8 = 0x01;

/// Bit set when the entry requires Shift.
pub const ACCEL_FLAG_SHIFT: u8 = 0x04;

/// Bit set when the entry requires Ctrl.
pub const ACCEL_FLAG_CONTROL: u8 = 0x08;

/// Bit set when the entry requires Alt.
pub const ACCEL_FLAG_ALT: u8 = 0x10;

/// One native accelerator-table entry: the registration record that binds
/// a key chord to the command identifier of a menu item. The table format
/// has no bit for the command (meta) key, so that modifier does not appear
/// in the bitmask.
#[derive(Clone, Copy, Debug, PartialEq, Eq, Structural)]
pub struct AccelEntry {
    /// Modifier bitmask, always including `ACCEL_FLAG_VIRTKEY`.
    pub flags: u8,
    /// Virtual-key code of the accelerator's key.
    pub vk: u16,
    /// Identifier of the menu item this entry activates.
    pub cmd: u64,
}

/// The modifier bitmask of an accelerator-table entry for this modifier
/// set.
pub open spec fn spec_mod_flags(m: Modifiers) -> u8 {
    ACCEL_FLAG_VIRTKEY | (if m.ctrl {
        ACCEL_FLAG_CONTROL
    } else {
        0
    }) | (if m.shift {
        ACCEL_FLAG_SHIFT
    } else {
        0
    }) | (if m.alt {
        ACCEL_FLAG_ALT
    } else {
        0
    })
}

/// The native accelerator-table entry registering `a` for the item with
/// identifier `cmd`.
pub open spec fn spec_accel_entry(a: Accelerator, cmd: u64) -> AccelEntry {
    AccelEntry { flags: spec_mod_flags(a.mods), vk: a.key.spec_virtual_key(), cmd }
}

/// Builds the native accelerator-table entry for `a`, bound to the item
/// with identifier `cmd`.
pub fn accel_entry(a: &Accelerator, cmd: u64) -> (r: AccelEntry)
    ensures
        r == spec_accel_entry(*a, cmd),
{
    let flags: u8 = ACCEL_FLAG_VIRTKEY | (if a.mods.ctrl {
        ACCEL_FLAG_CONTROL
    } else {
        0
    }) | (if a.mods.shift {
        ACCEL_FLAG_SHIFT
    } else {
        0
    }) | (if a.mods.alt {
        ACCEL_FLAG_ALT
    } else {
        0
    });
    AccelEntry { flags, vk: a.key.virtual_key(), cmd }
}

} // verus!
