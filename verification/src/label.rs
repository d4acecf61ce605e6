//! Label text rules.
//!
//! A menu item's visible title is its label text plus, when the item has an
//! accelerator, a tab and the accelerator's rendering — one combined string,
//! because one native menu API supports only a single title per item. Read
//! back, the label is the first tab-delimited segment of that title. A
//! submenu's own title additionally never shows a mnemonic marker (`&`).

use vstd::prelude::*;

use crate::accel::Accelerator;
use crate::accel::spec_render;

verus! {

/// No character of `s` is the mnemonic marker.
pub open spec fn spec_mnemonic_free(s: Seq<char>) -> bool {
    forall|i: int| 0 <= i < s.len() ==> s[i] != '&'
}

/// No character of `s` is a tab, so `s` cannot be mistaken for a title
/// that carries an accelerator suffix.
pub open spec fn spec_tab_free(s: Seq<char>) -> bool {
    forall|i: int| 0 <= i < s.len() ==> s[i] != '\t'
}

/// `s` with every mnemonic marker removed.
pub open spec fn spec_strip_mnemonic(s: Seq<char>) -> Seq<char>
    decreases s.len(),
{
    if s.len() == 0 {
        Seq::empty()
    } else {
        spec_strip_mnemonic(s.drop_last()) + (if s.last() == '&' {
            Seq::<char>::empty()
        } else {
            seq![s.last()]
        })
    }
}

/// Removes every mnemonic marker from a label, as a title must be before
/// it becomes a submenu's own.
pub fn strip_mnemonic(label: &str) -> (r: String)
    ensures
        r@ == spec_strip_mnemonic(label@),
{
    let n = label.unicode_len();
    let mut out = String::new();
    let mut i: usize = 0;
    proof {
        assert(label@.take(0) =~= Seq::<char>::empty());
    }
    while i < n
        invariant
            n == label@.len(),
            i <= n,
            out@ == spec_strip_mnemonic(label@.take(i as int)),
        decreases n - i,
    {
        let c = label.get_char(i);
        proof {
            assert(label@.take(i as int + 1).drop_last() =~= label@.take(i as int));
            assert(label@.take(i as int + 1).last() == label@[i as int]);
        }
        if c != '&' {
            let piece = label.substring_char(i, i + 1);
            proof {
                assert(piece@ =~= seq![label@[i as int]]);
            }
            out.append(piece);
        }
        i = i + 1;
    }
    proof {
        assert(label@.take(n as int) =~= label@);
    }
    out
}

/// Stripping leaves no mnemonic marker behind.
pub proof fn lemma_strip_mnemonic_free(s: Seq<char>)
    ensures
        spec_mnemonic_free(spec_strip_mnemonic(s)),
    decreases s.len(),
{
    if s.len() > 0 {
        lemma_strip_mnemonic_free(s.drop_last());
    }
}

/// Stripping a label that has no mnemonic marker changes nothing.
pub proof fn lemma_strip_mnemonic_identity(s: Seq<char>)
    requires
        spec_mnemonic_free(s),
    ensures
        spec_strip_mnemonic(s) == s,
    decreases s.len(),
{
    if s.len() > 0 {
        assert(spec_mnemonic_free(s.drop_last()));
        lemma_strip_mnemonic_identity(s.drop_last());
        assert(spec_strip_mnemonic(s) =~= s);
    } else {
        assert(spec_strip_mnemonic(s) =~= s);
    }
}

/// The first tab-delimited segment of `s`: everything before the first
/// tab, or all of `s` when it has none.
pub open spec fn spec_first_tab_segment(s: Seq<char>) -> Seq<char>
    decreases s.len(),
{
    if s.len() == 0 {
        Seq::empty()
    } else if s[0] == '\t' {
        Seq::empty()
    } else {
        seq![s[0]] + spec_first_tab_segment(s.drop_first())
    }
}

/// With no tab among the first `k` characters and a tab (or the end) at
/// `k`, the first segment is exactly the first `k` characters.
proof fn lemma_first_tab_segment_prefix(s: Seq<char>, k: int)
    requires
        0 <= k <= s.len(),
        forall|i: int| 0 <= i < k ==> s[i] != '\t',
        k < s.len() ==> s[k] == '\t',
    ensures
        spec_first_tab_segment(s) == s.take(k),
    decreases k,
{
    if k == 0 {
        assert(spec_first_tab_segment(s) =~= s.take(0));
    } else {
        lemma_first_tab_segment_prefix(s.drop_first(), k - 1);
        assert(s.take(k) =~= seq![s[0]] + s.drop_first().take(k - 1));
    }
}

/// Returns the first tab-delimited segment of a combined title: the
/// read-back form of the label, with any accelerator suffix stripped.
pub fn first_tab_segment(s: &str) -> (r: String)
    ensures
        r@ == spec_first_tab_segment(s@),
{
    let n = s.unicode_len();
    let mut k: usize = 0;
    while k < n && s.get_char(k) != '\t'
        invariant
            n == s@.len(),
            k <= n,
            forall|i: int| 0 <= i < k ==> s@[i] != '\t',
        decreases n - k,
    {
        k = k + 1;
    }
    proof {
        lemma_first_tab_segment_prefix(s@, k as int);
    }
    let seg = s.substring_char(0, k);
    proof {
        assert(seg@ =~= s@.take(k as int));
    }
    String::from_str(seg)
}

/// The combined title a native item shows for a given label and
/// accelerator: the label, then a tab and the accelerator's rendering
/// when there is one.
pub open spec fn spec_display_label(label: Seq<char>, accel: Option<Accelerator>) -> Seq<char> {
    match accel {
        Some(a) => label + "\t"@ + spec_render(a),
        None => label,
    }
}

/// Builds the combined title for a label and an optional accelerator.
pub fn display_label(label: &str, accel: &Option<Accelerator>) -> (r: String)
    ensures
        r@ == spec_display_label(label@, *accel),
{
    match accel {
        Some(a) => {
            let mut s = String::from_str(label);
            s.append("\t");
            let rendered = a.render();
            s.append(rendered.as_str());
            s
        },
        None => String::from_str(label),
    }
}

/// Label/accelerator separation: for a tab-free label, reading the first
/// tab-delimited segment of the combined title gives back exactly the
/// label, whatever the accelerator — the suffix never leaks into the
/// read-back label.
pub proof fn lemma_label_accel_separation(label: Seq<char>, accel: Option<Accelerator>)
    requires
        spec_tab_free(label),
    ensures
        spec_first_tab_segment(spec_display_label(label, accel)) == label,
{
    reveal_strlit("\t");
    match accel {
        Some(a) => {
            let s = label + "\t"@ + spec_render(a);
            assert(s[label.len() as int] == '\t');
            lemma_first_tab_segment_prefix(s, label.len() as int);
            assert(s.take(label.len() as int) =~= label);
        },
        None => {
            lemma_first_tab_segment_prefix(label, label.len() as int);
            assert(label.take(label.len() as int) =~= label);
        },
    }
}

} // verus!
