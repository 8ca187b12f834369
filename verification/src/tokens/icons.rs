//! Vendored Lucide icon set (ISC/MIT-licensed upstream): a curated starter
//! subset of inner SVG bodies, looked up by name and wrapped into complete
//! `<svg>` elements.

use vstd::prelude::*;
use crate::text::{chars_of, decimal, push_char, push_decimal, push_str, str_eq};

verus! {

/// Every vendored icon: `(lucide-name, inner-svg-content)`.
pub open spec fn lucide_table() -> Seq<(&'static str, &'static str)> {
    seq![
        ("arrow-left", r#"<path d="m12 19-7-7 7-7"/><path d="M19 12H5"/>"#),
        ("arrow-right", r#"<path d="M5 12h14"/><path d="m12 5 7 7-7 7"/>"#),
        ("arrow-up", r#"<path d="m5 12 7-7 7 7"/><path d="M12 19V5"/>"#),
        ("arrow-down", r#"<path d="M12 5v14"/><path d="m19 12-7 7-7-7"/>"#),
        ("chevron-left", r#"<path d="m15 18-6-6 6-6"/>"#),
        ("chevron-right", r#"<path d="m9 18 6-6-6-6"/>"#),
        ("chevron-up", r#"<path d="m18 15-6-6-6 6"/>"#),
        ("chevron-down", r#"<path d="m6 9 6 6 6-6"/>"#),
        ("plus", r#"<path d="M5 12h14"/><path d="M12 5v14"/>"#),
        ("minus", r#"<path d="M5 12h14"/>"#),
        ("x", r#"<path d="M18 6 6 18"/><path d="m6 6 12 12"/>"#),
        ("check", r#"<path d="M20 6 9 17l-5-5"/>"#),
        ("trash", r#"<path d="M3 6h18"/><path d="M19 6v14a2 2 0 0 1-2 2H7a2 2 0 0 1-2-2V6"/><path d="M8 6V4a2 2 0 0 1 2-2h4a2 2 0 0 1 2 2v2"/>"#),
        ("edit", r#"<path d="M12 20h9"/><path d="M16.5 3.5a2.121 2.121 0 0 1 3 3L7 19l-4 1 1-4Z"/>"#),
        ("download", r#"<path d="M21 15v4a2 2 0 0 1-2 2H5a2 2 0 0 1-2-2v-4"/><polyline points="7 10 12 15 17 10"/><line x1="12" x2="12" y1="15" y2="3"/>"#),
        ("upload", r#"<path d="M21 15v4a2 2 0 0 1-2 2H5a2 2 0 0 1-2-2v-4"/><polyline points="17 8 12 3 7 8"/><line x1="12" x2="12" y1="3" y2="15"/>"#),
        ("share", r#"<path d="M4 12v8a2 2 0 0 0 2 2h12a2 2 0 0 0 2-2v-8"/><polyline points="16 6 12 2 8 6"/><line x1="12" x2="12" y1="2" y2="15"/>"#),
        ("copy", r#"<rect width="14" height="14" x="8" y="8" rx="2" ry="2"/><path d="M4 16c-1.1 0-2-.9-2-2V4c0-1.1.9-2 2-2h10c1.1 0 2 .9 2 2"/>"#),
        ("menu", r#"<line x1="4" x2="20" y1="12" y2="12"/><line x1="4" x2="20" y1="6" y2="6"/><line x1="4" x2="20" y1="18" y2="18"/>"#),
        ("search", r#"<circle cx="11" cy="11" r="8"/><path d="m21 21-4.3-4.3"/>"#),
        ("settings", r#"<path d="M12.22 2h-.44a2 2 0 0 0-2 2v.18a2 2 0 0 1-1 1.73l-.43.25a2 2 0 0 1-2 0l-.15-.08a2 2 0 0 0-2.73.73l-.22.38a2 2 0 0 0 .73 2.73l.15.1a2 2 0 0 1 1 1.72v.51a2 2 0 0 1-1 1.74l-.15.09a2 2 0 0 0-.73 2.73l.22.38a2 2 0 0 0 2.73.73l.15-.08a2 2 0 0 1 2 0l.43.25a2 2 0 0 1 1 1.73V20a2 2 0 0 0 2 2h.44a2 2 0 0 0 2-2v-.18a2 2 0 0 1 1-1.73l.43-.25a2 2 0 0 1 2 0l.15.08a2 2 0 0 0 2.73-.73l.22-.39a2 2 0 0 0-.73-2.73l-.15-.08a2 2 0 0 1-1-1.74v-.5a2 2 0 0 1 1-1.74l.15-.09a2 2 0 0 0 .73-2.73l-.22-.38a2 2 0 0 0-2.73-.73l-.15.08a2 2 0 0 1-2 0l-.43-.25a2 2 0 0 1-1-1.73V4a2 2 0 0 0-2-2z"/><circle cx="12" cy="12" r="3"/>"#),
        ("home", r#"<path d="m3 9 9-7 9 7v11a2 2 0 0 1-2 2H5a2 2 0 0 1-2-2z"/><polyline points="9 22 9 12 15 12 15 22"/>"#),
        ("user", r#"<path d="M19 21v-2a4 4 0 0 0-4-4H9a4 4 0 0 0-4 4v2"/><circle cx="12" cy="7" r="4"/>"#),
        ("bell", r#"<path d="M6 8a6 6 0 0 1 12 0c0 7 3 9 3 9H3s3-2 3-9"/><path d="M10.3 21a1.94 1.94 0 0 0 3.4 0"/>"#),
        ("info", r#"<circle cx="12" cy="12" r="10"/><line x1="12" x2="12" y1="16" y2="12"/><line x1="12" x2="12.01" y1="8" y2="8"/>"#),
        ("alert-triangle", r#"<path d="m21.73 18-8-14a2 2 0 0 0-3.48 0l-8 14A2 2 0 0 0 4 21h16a2 2 0 0 0 1.73-3Z"/><path d="M12 9v4"/><path d="M12 17h.01"/>"#),
        ("alert-circle", r#"<circle cx="12" cy="12" r="10"/><line x1="12" x2="12" y1="8" y2="12"/><line x1="12" x2="12.01" y1="16" y2="16"/>"#),
        ("check-circle", r#"<path d="M22 11.08V12a10 10 0 1 1-5.93-9.14"/><polyline points="22 4 12 14.01 9 11.01"/>"#),
        ("heart", r#"<path d="M19 14c1.49-1.46 3-3.21 3-5.5A5.5 5.5 0 0 0 16.5 3c-1.76 0-3 .5-4.5 2-1.5-1.5-2.74-2-4.5-2A5.5 5.5 0 0 0 2 8.5c0 2.29 1.51 4.04 3 5.5l7 7Z"/>"#),
        ("star", r#"<polygon points="12 2 15.09 8.26 22 9.27 17 14.14 18.18 21.02 12 17.77 5.82 21.02 7 14.14 2 9.27 8.91 8.26 12 2"/>"#),
        ("eye", r#"<path d="M2 12s3-7 10-7 10 7 10 7-3 7-10 7-10-7-10-7Z"/><circle cx="12" cy="12" r="3"/>"#),
        ("sun", r#"<circle cx="12" cy="12" r="4"/><path d="M12 2v2"/><path d="M12 20v2"/><path d="m4.93 4.93 1.41 1.41"/><path d="m17.66 17.66 1.41 1.41"/><path d="M2 12h2"/><path d="M20 12h2"/><path d="m6.34 17.66-1.41 1.41"/><path d="m19.07 4.93-1.41 1.41"/>"#),
        ("moon", r#"<path d="M21 12.79A9 9 0 1 1 11.21 3 7 7 0 0 0 21 12.79z"/>"#),
        ("image", r#"<rect width="18" height="18" x="3" y="3" rx="2" ry="2"/><circle cx="9" cy="9" r="2"/><path d="m21 15-3.086-3.086a2 2 0 0 0-2.828 0L6 21"/>"#),
        ("play", r#"<polygon points="6 3 20 12 6 21 6 3"/>"#),
        ("pause", r#"<rect x="6" y="4" width="4" height="16"/><rect x="14" y="4" width="4" height="16"/>"#),
        ("mail", r#"<rect width="20" height="16" x="2" y="4" rx="2"/><path d="m22 7-8.97 5.7a1.94 1.94 0 0 1-2.06 0L2 7"/>"#),
        ("link", r#"<path d="M10 13a5 5 0 0 0 7.54.54l3-3a5 5 0 0 0-7.07-7.07l-1.72 1.71"/><path d="M14 11a5 5 0 0 0-7.54-.54l-3 3a5 5 0 0 0 7.07 7.07l1.71-1.71"/>"#),
        ("external-link", r#"<path d="M18 13v6a2 2 0 0 1-2 2H5a2 2 0 0 1-2-2V8a2 2 0 0 1 2-2h6"/><polyline points="15 3 21 3 21 9"/><line x1="10" x2="21" y1="14" y2="3"/>"#),
    ]
}

/// Every vendored icon as `(name, inner_svg)`, in catalog order.
pub fn lucide_icons() -> (r: Vec<(&'static str, &'static str)>)
    ensures
        r@ == lucide_table(),
{
    vec![
        ("arrow-left", r#"<path d="m12 19-7-7 7-7"/><path d="M19 12H5"/>"#),
        ("arrow-right", r#"<path d="M5 12h14"/><path d="m12 5 7 7-7 7"/>"#),
        ("arrow-up", r#"<path d="m5 12 7-7 7 7"/><path d="M12 19V5"/>"#),
        ("arrow-down", r#"<path d="M12 5v14"/><path d="m19 12-7 7-7-7"/>"#),
        ("chevron-left", r#"<path d="m15 18-6-6 6-6"/>"#),
        ("chevron-right", r#"<path d="m9 18 6-6-6-6"/>"#),
        ("chevron-up", r#"<path d="m18 15-6-6-6 6"/>"#),
        ("chevron-down", r#"<path d="m6 9 6 6 6-6"/>"#),
        ("plus", r#"<path d="M5 12h14"/><path d="M12 5v14"/>"#),
        ("minus", r#"<path d="M5 12h14"/>"#),
        ("x", r#"<path d="M18 6 6 18"/><path d="m6 6 12 12"/>"#),
        ("check", r#"<path d="M20 6 9 17l-5-5"/>"#),
        ("trash", r#"<path d="M3 6h18"/><path d="M19 6v14a2 2 0 0 1-2 2H7a2 2 0 0 1-2-2V6"/><path d="M8 6V4a2 2 0 0 1 2-2h4a2 2 0 0 1 2 2v2"/>"#),
        ("edit", r#"<path d="M12 20h9"/><path d="M16.5 3.5a2.121 2.121 0 0 1 3 3L7 19l-4 1 1-4Z"/>"#),
        ("download", r#"<path d="M21 15v4a2 2 0 0 1-2 2H5a2 2 0 0 1-2-2v-4"/><polyline points="7 10 12 15 17 10"/><line x1="12" x2="12" y1="15" y2="3"/>"#),
        ("upload", r#"<path d="M21 15v4a2 2 0 0 1-2 2H5a2 2 0 0 1-2-2v-4"/><polyline points="17 8 12 3 7 8"/><line x1="12" x2="12" y1="3" y2="15"/>"#),
        ("share", r#"<path d="M4 12v8a2 2 0 0 0 2 2h12a2 2 0 0 0 2-2v-8"/><polyline points="16 6 12 2 8 6"/><line x1="12" x2="12" y1="2" y2="15"/>"#),
        ("copy", r#"<rect width="14" height="14" x="8" y="8" rx="2" ry="2"/><path d="M4 16c-1.1 0-2-.9-2-2V4c0-1.1.9-2 2-2h10c1.1 0 2 .9 2 2"/>"#),
        ("menu", r#"<line x1="4" x2="20" y1="12" y2="12"/><line x1="4" x2="20" y1="6" y2="6"/><line x1="4" x2="20" y1="18" y2="18"/>"#),
        ("search", r#"<circle cx="11" cy="11" r="8"/><path d="m21 21-4.3-4.3"/>"#),
        ("settings", r#"<path d="M12.22 2h-.44a2 2 0 0 0-2 2v.18a2 2 0 0 1-1 1.73l-.43.25a2 2 0 0 1-2 0l-.15-.08a2 2 0 0 0-2.73.73l-.22.38a2 2 0 0 0 .73 2.73l.15.1a2 2 0 0 1 1 1.72v.51a2 2 0 0 1-1 1.74l-.15.09a2 2 0 0 0-.73 2.73l.22.38a2 2 0 0 0 2.73.73l.15-.08a2 2 0 0 1 2 0l.43.25a2 2 0 0 1 1 1.73V20a2 2 0 0 0 2 2h.44a2 2 0 0 0 2-2v-.18a2 2 0 0 1 1-1.73l.43-.25a2 2 0 0 1 2 0l.15.08a2 2 0 0 0 2.73-.73l.22-.39a2 2 0 0 0-.73-2.73l-.15-.08a2 2 0 0 1-1-1.74v-.5a2 2 0 0 1 1-1.74l.15-.09a2 2 0 0 0 .73-2.73l-.22-.38a2 2 0 0 0-2.73-.73l-.15.08a2 2 0 0 1-2 0l-.43-.25a2 2 0 0 1-1-1.73V4a2 2 0 0 0-2-2z"/><circle cx="12" cy="12" r="3"/>"#),
        ("home", r#"<path d="m3 9 9-7 9 7v11a2 2 0 0 1-2 2H5a2 2 0 0 1-2-2z"/><polyline points="9 22 9 12 15 12 15 22"/>"#),
        ("user", r#"<path d="M19 21v-2a4 4 0 0 0-4-4H9a4 4 0 0 0-4 4v2"/><circle cx="12" cy="7" r="4"/>"#),
        ("bell", r#"<path d="M6 8a6 6 0 0 1 12 0c0 7 3 9 3 9H3s3-2 3-9"/><path d="M10.3 21a1.94 1.94 0 0 0 3.4 0"/>"#),
        ("info", r#"<circle cx="12" cy="12" r="10"/><line x1="12" x2="12" y1="16" y2="12"/><line x1="12" x2="12.01" y1="8" y2="8"/>"#),
        ("alert-triangle", r#"<path d="m21.73 18-8-14a2 2 0 0 0-3.48 0l-8 14A2 2 0 0 0 4 21h16a2 2 0 0 0 1.73-3Z"/><path d="M12 9v4"/><path d="M12 17h.01"/>"#),
        ("alert-circle", r#"<circle cx="12" cy="12" r="10"/><line x1="12" x2="12" y1="8" y2="12"/><line x1="12" x2="12.01" y1="16" y2="16"/>"#),
        ("check-circle", r#"<path d="M22 11.08V12a10 10 0 1 1-5.93-9.14"/><polyline points="22 4 12 14.01 9 11.01"/>"#),
        ("heart", r#"<path d="M19 14c1.49-1.46 3-3.21 3-5.5A5.5 5.5 0 0 0 16.5 3c-1.76 0-3 .5-4.5 2-1.5-1.5-2.74-2-4.5-2A5.5 5.5 0 0 0 2 8.5c0 2.29 1.51 4.04 3 5.5l7 7Z"/>"#),
        ("star", r#"<polygon points="12 2 15.09 8.26 22 9.27 17 14.14 18.18 21.02 12 17.77 5.82 21.02 7 14.14 2 9.27 8.91 8.26 12 2"/>"#),
        ("eye", r#"<path d="M2 12s3-7 10-7 10 7 10 7-3 7-10 7-10-7-10-7Z"/><circle cx="12" cy="12" r="3"/>"#),
        ("sun", r#"<circle cx="12" cy="12" r="4"/><path d="M12 2v2"/><path d="M12 20v2"/><path d="m4.93 4.93 1.41 1.41"/><path d="m17.66 17.66 1.41 1.41"/><path d="M2 12h2"/><path d="M20 12h2"/><path d="m6.34 17.66-1.41 1.41"/><path d="m19.07 4.93-1.41 1.41"/>"#),
        ("moon", r#"<path d="M21 12.79A9 9 0 1 1 11.21 3 7 7 0 0 0 21 12.79z"/>"#),
        ("image", r#"<rect width="18" height="18" x="3" y="3" rx="2" ry="2"/><circle cx="9" cy="9" r="2"/><path d="m21 15-3.086-3.086a2 2 0 0 0-2.828 0L6 21"/>"#),
        ("play", r#"<polygon points="6 3 20 12 6 21 6 3"/>"#),
        ("pause", r#"<rect x="6" y="4" width="4" height="16"/><rect x="14" y="4" width="4" height="16"/>"#),
        ("mail", r#"<rect width="20" height="16" x="2" y="4" rx="2"/><path d="m22 7-8.97 5.7a1.94 1.94 0 0 1-2.06 0L2 7"/>"#),
        ("link", r#"<path d="M10 13a5 5 0 0 0 7.54.54l3-3a5 5 0 0 0-7.07-7.07l-1.72 1.71"/><path d="M14 11a5 5 0 0 0-7.54-.54l-3 3a5 5 0 0 0 7.07 7.07l1.71-1.71"/>"#),
        ("external-link", r#"<path d="M18 13v6a2 2 0 0 1-2 2H5a2 2 0 0 1-2-2V8a2 2 0 0 1 2-2h6"/><polyline points="15 3 21 3 21 9"/><line x1="10" x2="21" y1="14" y2="3"/>"#),
    ]
}

/// Position of the first catalog entry named `name`; the table length
/// when none is.
pub open spec fn icon_position(table: Seq<(&'static str, &'static str)>, name: Seq<char>) -> nat
    decreases table.len(),
{
    if table.len() == 0 {
        0
    } else if table[0].0@ == name {
        0
    } else {
        1 + icon_position(table.skip(1), name)
    }
}

/// Inner SVG of the icon named `name`, if the catalog has one.
pub open spec fn icon_inner_spec(name: Seq<char>) -> Option<&'static str> {
    let t = lucide_table();
    if icon_position(t, name) < t.len() {
        Some(t[icon_position(t, name) as int].1)
    } else {
        None
    }
}

proof fn icon_position_is_first(table: Seq<(&'static str, &'static str)>, name: Seq<char>)
    ensures
        icon_position(table, name) <= table.len(),
        icon_position(table, name) < table.len() ==> table[icon_position(table, name) as int].0@ == name,
        forall|j: int| 0 <= j < icon_position(table, name) ==> table[j].0@ != name,
    decreases table.len(),
{
    if table.len() > 0 && table[0].0@ != name {
        icon_position_is_first(table.skip(1), name);
        assert forall|j: int| 0 <= j < icon_position(table, name) implies table[j].0@ != name by {
            if j > 0 {
                assert(table[j] == table.skip(1)[j - 1]);
            }
        }
    }
}

/// Look up an icon's inner SVG content by Lucide name. `None` for unknown.
pub fn lucide_icon_inner(name: &str) -> (r: Option<&'static str>)
    ensures
        r == icon_inner_spec(name@),
{
    let t = lucide_icons();
    proof {
        icon_position_is_first(t@, name@);
    }
    let mut i: usize = 0;
    while i < t.len()
        invariant
            t@ == lucide_table(),
            i <= t.len(),
            forall|j: int| 0 <= j < i ==> t@[j].0@ != name@,
            icon_position(t@, name@) <= t@.len(),
            icon_position(t@, name@) < t@.len() ==> t@[icon_position(t@, name@) as int].0@ == name@,
            forall|j: int| 0 <= j < icon_position(t@, name@) ==> t@[j].0@ != name@,
        decreases t.len() - i,
    {
        if str_eq(t[i].0, name) {
            assert(icon_position(t@, name@) == i);
            return Some(t[i].1);
        }
        i = i + 1;
    }
    assert(icon_position(t@, name@) == t@.len());
    None
}

/// How one character appears in an escaped attribute value: `&`, `<`,
/// `>`, `"` and `'` become entities.
pub open spec fn attr_escape_char(c: char) -> Seq<char> {
    if c == '&' {
        seq!['&', 'a', 'm', 'p', ';']
    } else if c == '<' {
        seq!['&', 'l', 't', ';']
    } else if c == '>' {
        seq!['&', 'g', 't', ';']
    } else if c == '"' {
        seq!['&', 'q', 'u', 'o', 't', ';']
    } else if c == '\'' {
        seq!['&', '#', '3', '9', ';']
    } else {
        seq![c]
    }
}

/// `s` with every character escaped by [`attr_escape_char`].
pub open spec fn attr_escape(s: Seq<char>) -> Seq<char>
    decreases s.len(),
{
    if s.len() == 0 {
        Seq::empty()
    } else {
        attr_escape(s.drop_last()) + attr_escape_char(s.last())
    }
}

/// Minimal HTML-attr escape for the aria-label text.
fn escape_attr(s: &str) -> (r: String)
    ensures
        r@ == attr_escape(s@),
{
    let v = chars_of(s);
    let mut out = String::new();
    let mut i: usize = 0;
    while i < v.len()
        invariant
            i <= v.len(),
            v@ == s@,
            out@ == attr_escape(v@.take(i as int)),
        decreases v.len() - i,
    {
        let c = v[i];
        proof {
            assert(v@.take(i + 1).drop_last() =~= v@.take(i as int));
            reveal_strlit("&amp;");
            reveal_strlit("&lt;");
            reveal_strlit("&gt;");
            reveal_strlit("&quot;");
            reveal_strlit("&#39;");
        }
        if c == '&' {
            push_str(&mut out, "&amp;");
        } else if c == '<' {
            push_str(&mut out, "&lt;");
        } else if c == '>' {
            push_str(&mut out, "&gt;");
        } else if c == '"' {
            push_str(&mut out, "&quot;");
        } else if c == '\'' {
            push_str(&mut out, "&#39;");
        } else {
            push_char(&mut out, c);
        }
        assert(out@ =~= attr_escape(v@.take(i + 1)));
        i = i + 1;
    }
    assert(v@.take(v.len() as int) =~= v@);
    out
}

/// The accessibility attributes of an icon: `role="img"` plus the escaped
/// label when one is given, else `aria-hidden="true"`.
pub open spec fn aria_attrs(aria_label: Option<Seq<char>>) -> Seq<char> {
    match aria_label {
        Some(text) => "role=\"img\" aria-label=\""@ + attr_escape(text) + "\""@,
        None => "aria-hidden=\"true\""@,
    }
}

/// The complete `<svg>` element for an icon body.
pub open spec fn icon_svg_spec(name: Seq<char>, size: u32, aria_label: Option<Seq<char>>, inner: Seq<char>) -> Seq<char> {
    "<svg xmlns=\"http://www.w3.org/2000/svg\" width=\""@ + decimal(size as nat) + "\" height=\""@
        + decimal(size as nat)
        + "\" viewBox=\"0 0 24 24\" fill=\"none\" stroke=\"currentColor\" stroke-width=\"2\" stroke-linecap=\"round\" stroke-linejoin=\"round\" "@
        + aria_attrs(aria_label) + " class=\"lucide lucide-"@ + name + "\">"@ + inner + "</svg>"@
}

/// View of an optional label.
pub open spec fn opt_view(o: Option<&str>) -> Option<Seq<char>> {
    match o {
        Some(s) => Some(s@),
        None => None,
    }
}

/// Render a Lucide icon as a complete `<svg>` element (`size` px square,
/// 24×24 viewBox, stroke = currentColor). `None` for unknown names.
pub fn lucide_icon_svg(name: &str, size: u32, aria_label: Option<&str>) -> (r: Option<String>)
    ensures
        match icon_inner_spec(name@) {
            Some(inner) => r matches Some(s) && s@ == icon_svg_spec(name@, size, opt_view(aria_label), inner@),
            None => r is None,
        },
{
    let inner = match lucide_icon_inner(name) {
        Some(x) => x,
        None => return None,
    };
    let mut out = String::new();
    push_str(&mut out, "<svg xmlns=\"http://www.w3.org/2000/svg\" width=\"");
    push_decimal(&mut out, size as u64);
    push_str(&mut out, "\" height=\"");
    push_decimal(&mut out, size as u64);
    push_str(&mut out, "\" viewBox=\"0 0 24 24\" fill=\"none\" stroke=\"currentColor\" stroke-width=\"2\" stroke-linecap=\"round\" stroke-linejoin=\"round\" ");
    let ghost before_aria = out@;
    match aria_label {
        Some(text) => {
            push_str(&mut out, "role=\"img\" aria-label=\"");
            let e = escape_attr(text);
            push_str(&mut out, e.as_str());
            push_str(&mut out, "\"");
        },
        None => {
            push_str(&mut out, "aria-hidden=\"true\"");
        },
    }
    assert(out@ =~= before_aria + aria_attrs(opt_view(aria_label)));
    push_str(&mut out, " class=\"lucide lucide-");
    push_str(&mut out, name);
    push_str(&mut out, "\">");
    push_str(&mut out, inner);
    push_str(&mut out, "</svg>");
    Some(out)
}

} // verus!
