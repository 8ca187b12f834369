//! Typed registry of vetted SVG icons (Lucide-derived). Each icon's
//! template is a complete `<svg>` element whose `class` attribute holds the
//! `__CLS__` slot; rendering fills the slot with a class string.

use vstd::prelude::*;
use crate::text::{replace_all, replace_str};

verus! {

/// One vetted icon.
#[derive(Debug, Clone, Copy)]
pub struct Icon {
    /// Kebab-case identifier for audits and tests.
    pub id: &'static str,
    /// SVG markup with the placeholder `__CLS__` for the class string.
    pub template: &'static str,
    /// Default Tailwind class string (size + colour).
    pub default_class: &'static str,
}

/// The class slot every template carries.
pub open spec fn class_slot() -> Seq<char> {
    seq!['_', '_', 'C', 'L', 'S', '_', '_']
}

impl Icon {
    /// Render with the default class: the template with every `__CLS__`
    /// replaced by `default_class`.
    pub fn render(&self) -> (r: String)
        ensures
            r@ == replace_all(self.template@, class_slot(), self.default_class@),
    {
        self.render_with_class(self.default_class)
    }

    /// Render with an override class string in place of every `__CLS__`.
    pub fn render_with_class(&self, class: &str) -> (r: String)
        ensures
            r@ == replace_all(self.template@, class_slot(), class@),
    {
        proof {
            reveal_strlit("__CLS__");
        }
        assert("__CLS__"@ =~= class_slot());
        replace_str(self.template, "__CLS__", class)
    }
}

/// The registry, in catalog order.
pub open spec fn registry() -> Seq<Icon> {
    seq![
        Icon { id: "phone", default_class: "w-6 h-6 text-primary", template: r#"<svg xmlns="http://www.w3.org/2000/svg" width="24" height="24" viewBox="0 0 24 24" fill="none" stroke="currentColor" stroke-width="2" stroke-linecap="round" stroke-linejoin="round" class="__CLS__"><path d="M22 16.92v3a2 2 0 0 1-2.18 2 19.79 19.79 0 0 1-8.63-3.07 19.5 19.5 0 0 1-6-6 19.79 19.79 0 0 1-3.07-8.67A2 2 0 0 1 4.11 2h3a2 2 0 0 1 2 1.72 12.84 12.84 0 0 0 .7 2.81 2 2 0 0 1-.45 2.11L8.09 9.91a16 16 0 0 0 6 6l1.27-1.27a2 2 0 0 1 2.11-.45 12.84 12.84 0 0 0 2.81.7A2 2 0 0 1 22 16.92z"/></svg>"# },
        Icon { id: "mail", default_class: "w-6 h-6 text-primary", template: r#"<svg xmlns="http://www.w3.org/2000/svg" width="24" height="24" viewBox="0 0 24 24" fill="none" stroke="currentColor" stroke-width="2" stroke-linecap="round" stroke-linejoin="round" class="__CLS__"><rect width="20" height="16" x="2" y="4" rx="2"/><path d="m22 7-8.97 5.7a1.94 1.94 0 0 1-2.06 0L2 7"/></svg>"# },
        Icon { id: "map-pin", default_class: "w-6 h-6 text-primary", template: r#"<svg xmlns="http://www.w3.org/2000/svg" width="24" height="24" viewBox="0 0 24 24" fill="none" stroke="currentColor" stroke-width="2" stroke-linecap="round" stroke-linejoin="round" class="__CLS__"><path d="M20 10c0 4.993-5.539 10.193-7.399 11.799a1 1 0 0 1-1.202 0C9.539 20.193 4 14.993 4 10a8 8 0 0 1 16 0"/><circle cx="12" cy="10" r="3"/></svg>"# },
        Icon { id: "shield", default_class: "w-6 h-6 text-primary", template: r#"<svg xmlns="http://www.w3.org/2000/svg" width="24" height="24" viewBox="0 0 24 24" fill="none" stroke="currentColor" stroke-width="2" stroke-linecap="round" stroke-linejoin="round" class="__CLS__"><path d="M20 13c0 5-3.5 7.5-7.66 8.95a1 1 0 0 1-.67-.01C7.5 20.5 4 18 4 13V6a1 1 0 0 1 1-1c2 0 4.5-1.2 6.24-2.72a1.17 1.17 0 0 1 1.52 0C14.51 3.81 17 5 19 5a1 1 0 0 1 1 1z"/></svg>"# },
        Icon { id: "lock", default_class: "w-6 h-6 text-primary", template: r#"<svg xmlns="http://www.w3.org/2000/svg" width="24" height="24" viewBox="0 0 24 24" fill="none" stroke="currentColor" stroke-width="2" stroke-linecap="round" stroke-linejoin="round" class="__CLS__"><rect width="18" height="11" x="3" y="11" rx="2" ry="2"/><path d="M7 11V7a5 5 0 0 1 10 0v4"/></svg>"# },
        Icon { id: "file-text", default_class: "w-6 h-6 text-primary", template: r#"<svg xmlns="http://www.w3.org/2000/svg" width="24" height="24" viewBox="0 0 24 24" fill="none" stroke="currentColor" stroke-width="2" stroke-linecap="round" stroke-linejoin="round" class="__CLS__"><path d="M14 2H6a2 2 0 0 0-2 2v16a2 2 0 0 0 2 2h12a2 2 0 0 0 2-2V8z"/><polyline points="14 2 14 8 20 8"/></svg>"# },
        Icon { id: "clipboard-check", default_class: "w-6 h-6 text-primary", template: r#"<svg xmlns="http://www.w3.org/2000/svg" width="24" height="24" viewBox="0 0 24 24" fill="none" stroke="currentColor" stroke-width="2" stroke-linecap="round" stroke-linejoin="round" class="__CLS__"><path d="M9 11l3 3 8-8"/><path d="M21 12v7a2 2 0 0 1-2 2H5a2 2 0 0 1-2-2V5a2 2 0 0 1 2-2h11"/></svg>"# },
        Icon { id: "users", default_class: "w-6 h-6 text-primary", template: r#"<svg xmlns="http://www.w3.org/2000/svg" width="24" height="24" viewBox="0 0 24 24" fill="none" stroke="currentColor" stroke-width="2" stroke-linecap="round" stroke-linejoin="round" class="__CLS__"><path d="M16 21v-2a4 4 0 0 0-4-4H6a4 4 0 0 0-4 4v2"/><circle cx="9" cy="7" r="4"/><path d="M22 21v-2a4 4 0 0 0-3-3.87"/><path d="M16 3.13a4 4 0 0 1 0 7.75"/></svg>"# },
        Icon { id: "heart", default_class: "w-6 h-6 text-primary", template: r#"<svg xmlns="http://www.w3.org/2000/svg" width="24" height="24" viewBox="0 0 24 24" fill="none" stroke="currentColor" stroke-width="2" stroke-linecap="round" stroke-linejoin="round" class="__CLS__"><path d="M19 14c1.49-1.46 3-3.21 3-5.5A5.5 5.5 0 0 0 16.5 3c-1.76 0-3 .5-4.5 2-1.5-1.5-2.74-2-4.5-2A5.5 5.5 0 0 0 2 8.5c0 2.29 1.51 4.04 3 5.5l7 7Z"/></svg>"# },
        Icon { id: "globe", default_class: "w-6 h-6 text-primary", template: r#"<svg xmlns="http://www.w3.org/2000/svg" width="24" height="24" viewBox="0 0 24 24" fill="none" stroke="currentColor" stroke-width="2" stroke-linecap="round" stroke-linejoin="round" class="__CLS__"><circle cx="12" cy="12" r="10"/><line x1="2" y1="12" x2="22" y2="12"/><path d="M12 2a15.3 15.3 0 0 1 4 10 15.3 15.3 0 0 1-4 10 15.3 15.3 0 0 1-4-10 15.3 15.3 0 0 1 4-10z"/></svg>"# },
        Icon { id: "check", default_class: "w-5 h-5 text-emerald-600 mt-0.5 shrink-0", template: r#"<svg xmlns="http://www.w3.org/2000/svg" width="24" height="24" viewBox="0 0 24 24" fill="none" stroke="currentColor" stroke-width="2" stroke-linecap="round" stroke-linejoin="round" class="__CLS__"><polyline points="20 6 9 17 4 12"/></svg>"# },
        Icon { id: "arrow-right", default_class: "w-4 h-4", template: r#"<svg xmlns="http://www.w3.org/2000/svg" width="24" height="24" viewBox="0 0 24 24" fill="none" stroke="currentColor" stroke-width="2" stroke-linecap="round" stroke-linejoin="round" class="__CLS__"><line x1="5" y1="12" x2="19" y2="12"/><polyline points="12 5 19 12 12 19"/></svg>"# },
        Icon { id: "menu", default_class: "w-6 h-6", template: r#"<svg xmlns="http://www.w3.org/2000/svg" width="24" height="24" viewBox="0 0 24 24" fill="none" stroke="currentColor" stroke-width="2" stroke-linecap="round" stroke-linejoin="round" class="__CLS__"><line x1="4" x2="20" y1="12" y2="12"/><line x1="4" x2="20" y1="6" y2="6"/><line x1="4" x2="20" y1="18" y2="18"/></svg>"# },
        Icon { id: "server", default_class: "w-7 h-7 text-primary group-hover:text-white transition-colors", template: r#"<svg xmlns="http://www.w3.org/2000/svg" width="24" height="24" viewBox="0 0 24 24" fill="none" stroke="currentColor" stroke-width="2" stroke-linecap="round" stroke-linejoin="round" class="__CLS__"><rect width="20" height="8" x="2" y="2" rx="2" ry="2"/><rect width="20" height="8" x="2" y="14" rx="2" ry="2"/><line x1="6" x2="6.01" y1="6" y2="6"/><line x1="6" x2="6.01" y1="18" y2="18"/></svg>"# },
        Icon { id: "brain-circuit", default_class: "w-7 h-7 text-primary group-hover:text-white transition-colors", template: r#"<svg xmlns="http://www.w3.org/2000/svg" width="24" height="24" viewBox="0 0 24 24" fill="none" stroke="currentColor" stroke-width="2" stroke-linecap="round" stroke-linejoin="round" class="__CLS__"><path d="M12 5a3 3 0 1 0-5.997.125 4 4 0 0 0-2.526 5.77 4 4 0 0 0 .556 6.588A4 4 0 1 0 12 18Z"/><path d="M9 13a4.5 4.5 0 0 0 3-4"/><path d="M6.003 5.125A3 3 0 0 0 6.401 6.5"/><path d="M3.477 10.896a4 4 0 0 1 .585-.396"/><path d="M6 18a4 4 0 0 1-1.967-.516"/><path d="M12 13h4"/><path d="M12 18h6a2 2 0 0 1 2 2v1"/><path d="M12 8h8"/><path d="M16 8V5a2 2 0 0 1 2-2"/><circle cx="16" cy="13" r=".5"/><circle cx="18" cy="3" r=".5"/><circle cx="20" cy="21" r=".5"/><circle cx="20" cy="8" r=".5"/></svg>"# },
        Icon { id: "settings", default_class: "w-7 h-7 text-primary group-hover:text-white transition-colors", template: r#"<svg xmlns="http://www.w3.org/2000/svg" width="24" height="24" viewBox="0 0 24 24" fill="none" stroke="currentColor" stroke-width="2" stroke-linecap="round" stroke-linejoin="round" class="__CLS__"><path d="M12.22 2h-.44a2 2 0 0 0-2 2v.18a2 2 0 0 1-1 1.73l-.43.25a2 2 0 0 1-2 0l-.15-.08a2 2 0 0 0-2.73.73l-.22.38a2 2 0 0 0 .73 2.73l.15.1a2 2 0 0 1 1 1.72v.51a2 2 0 0 1-1 1.74l-.15.09a2 2 0 0 0-.73 2.73l.22.38a2 2 0 0 0 2.73.73l.15-.08a2 2 0 0 1 2 0l.43.25a2 2 0 0 1 1 1.73V20a2 2 0 0 0 2 2h.44a2 2 0 0 0 2-2v-.18a2 2 0 0 1 1-1.73l.43-.25a2 2 0 0 1 2 0l.15.08a2 2 0 0 0 2.73-.73l.22-.39a2 2 0 0 0-.73-2.73l-.15-.08a2 2 0 0 1-1-1.74v-.5a2 2 0 0 1 1-1.74l.15-.09a2 2 0 0 0 .73-2.73l-.22-.38a2 2 0 0 0-2.73-.73l-.15.08a2 2 0 0 1-2 0l-.43-.25a2 2 0 0 1-1-1.73V4a2 2 0 0 0-2-2z"/><circle cx="12" cy="12" r="3"/></svg>"# },
        Icon { id: "code", default_class: "w-7 h-7 text-primary group-hover:text-white transition-colors", template: r#"<svg xmlns="http://www.w3.org/2000/svg" width="24" height="24" viewBox="0 0 24 24" fill="none" stroke="currentColor" stroke-width="2" stroke-linecap="round" stroke-linejoin="round" class="__CLS__"><polyline points="16 18 22 12 16 6"/><polyline points="8 6 2 12 8 18"/></svg>"# },
        Icon { id: "cpu", default_class: "w-7 h-7 text-primary group-hover:text-white transition-colors", template: r#"<svg xmlns="http://www.w3.org/2000/svg" width="24" height="24" viewBox="0 0 24 24" fill="none" stroke="currentColor" stroke-width="2" stroke-linecap="round" stroke-linejoin="round" class="__CLS__"><rect width="16" height="16" x="4" y="4" rx="2"/><rect width="6" height="6" x="9" y="9" rx="1"/><path d="M15 2v2"/><path d="M15 20v2"/><path d="M2 15h2"/><path d="M2 9h2"/><path d="M20 15h2"/><path d="M20 9h2"/><path d="M9 2v2"/><path d="M9 20v2"/></svg>"# },
        Icon { id: "terminal", default_class: "w-4 h-4", template: r#"<svg xmlns="http://www.w3.org/2000/svg" width="24" height="24" viewBox="0 0 24 24" fill="none" stroke="currentColor" stroke-width="2" stroke-linecap="round" stroke-linejoin="round" class="__CLS__"><polyline points="4 17 10 11 4 5"/><line x1="12" x2="20" y1="19" y2="19"/></svg>"# },
        Icon { id: "circle-check", default_class: "w-6 h-6 text-primary shrink-0", template: r#"<svg xmlns="http://www.w3.org/2000/svg" width="24" height="24" viewBox="0 0 24 24" fill="none" stroke="currentColor" stroke-width="2" stroke-linecap="round" stroke-linejoin="round" class="__CLS__"><circle cx="12" cy="12" r="10"/><path d="m9 12 2 2 4-4"/></svg>"# },
    ]
}

/// Lucide icon `phone`.
pub fn phone() -> (r: Icon)
    ensures
        r == registry()[0],
{
    Icon { id: "phone", default_class: "w-6 h-6 text-primary", template: r#"<svg xmlns="http://www.w3.org/2000/svg" width="24" height="24" viewBox="0 0 24 24" fill="none" stroke="currentColor" stroke-width="2" stroke-linecap="round" stroke-linejoin="round" class="__CLS__"><path d="M22 16.92v3a2 2 0 0 1-2.18 2 19.79 19.79 0 0 1-8.63-3.07 19.5 19.5 0 0 1-6-6 19.79 19.79 0 0 1-3.07-8.67A2 2 0 0 1 4.11 2h3a2 2 0 0 1 2 1.72 12.84 12.84 0 0 0 .7 2.81 2 2 0 0 1-.45 2.11L8.09 9.91a16 16 0 0 0 6 6l1.27-1.27a2 2 0 0 1 2.11-.45 12.84 12.84 0 0 0 2.81.7A2 2 0 0 1 22 16.92z"/></svg>"# }
}

/// Lucide icon `mail`.
pub fn mail() -> (r: Icon)
    ensures
        r == registry()[1],
{
    Icon { id: "mail", default_class: "w-6 h-6 text-primary", template: r#"<svg xmlns="http://www.w3.org/2000/svg" width="24" height="24" viewBox="0 0 24 24" fill="none" stroke="currentColor" stroke-width="2" stroke-linecap="round" stroke-linejoin="round" class="__CLS__"><rect width="20" height="16" x="2" y="4" rx="2"/><path d="m22 7-8.97 5.7a1.94 1.94 0 0 1-2.06 0L2 7"/></svg>"# }
}

/// Lucide icon `map-pin`.
pub fn map_pin() -> (r: Icon)
    ensures
        r == registry()[2],
{
    Icon { id: "map-pin", default_class: "w-6 h-6 text-primary", template: r#"<svg xmlns="http://www.w3.org/2000/svg" width="24" height="24" viewBox="0 0 24 24" fill="none" stroke="currentColor" stroke-width="2" stroke-linecap="round" stroke-linejoin="round" class="__CLS__"><path d="M20 10c0 4.993-5.539 10.193-7.399 11.799a1 1 0 0 1-1.202 0C9.539 20.193 4 14.993 4 10a8 8 0 0 1 16 0"/><circle cx="12" cy="10" r="3"/></svg>"# }
}

/// Lucide icon `shield`.
pub fn shield() -> (r: Icon)
    ensures
        r == registry()[3],
{
    Icon { id: "shield", default_class: "w-6 h-6 text-primary", template: r#"<svg xmlns="http://www.w3.org/2000/svg" width="24" height="24" viewBox="0 0 24 24" fill="none" stroke="currentColor" stroke-width="2" stroke-linecap="round" stroke-linejoin="round" class="__CLS__"><path d="M20 13c0 5-3.5 7.5-7.66 8.95a1 1 0 0 1-.67-.01C7.5 20.5 4 18 4 13V6a1 1 0 0 1 1-1c2 0 4.5-1.2 6.24-2.72a1.17 1.17 0 0 1 1.52 0C14.51 3.81 17 5 19 5a1 1 0 0 1 1 1z"/></svg>"# }
}

/// Lucide icon `lock`.
pub fn lock() -> (r: Icon)
    ensures
        r == registry()[4],
{
    Icon { id: "lock", default_class: "w-6 h-6 text-primary", template: r#"<svg xmlns="http://www.w3.org/2000/svg" width="24" height="24" viewBox="0 0 24 24" fill="none" stroke="currentColor" stroke-width="2" stroke-linecap="round" stroke-linejoin="round" class="__CLS__"><rect width="18" height="11" x="3" y="11" rx="2" ry="2"/><path d="M7 11V7a5 5 0 0 1 10 0v4"/></svg>"# }
}

/// Lucide icon `file-text`.
pub fn file_text() -> (r: Icon)
    ensures
        r == registry()[5],
{
    Icon { id: "file-text", default_class: "w-6 h-6 text-primary", template: r#"<svg xmlns="http://www.w3.org/2000/svg" width="24" height="24" viewBox="0 0 24 24" fill="none" stroke="currentColor" stroke-width="2" stroke-linecap="round" stroke-linejoin="round" class="__CLS__"><path d="M14 2H6a2 2 0 0 0-2 2v16a2 2 0 0 0 2 2h12a2 2 0 0 0 2-2V8z"/><polyline points="14 2 14 8 20 8"/></svg>"# }
}

/// Lucide icon `clipboard-check`.
pub fn clipboard_check() -> (r: Icon)
    ensures
        r == registry()[6],
{
    Icon { id: "clipboard-check", default_class: "w-6 h-6 text-primary", template: r#"<svg xmlns="http://www.w3.org/2000/svg" width="24" height="24" viewBox="0 0 24 24" fill="none" stroke="currentColor" stroke-width="2" stroke-linecap="round" stroke-linejoin="round" class="__CLS__"><path d="M9 11l3 3 8-8"/><path d="M21 12v7a2 2 0 0 1-2 2H5a2 2 0 0 1-2-2V5a2 2 0 0 1 2-2h11"/></svg>"# }
}

/// Lucide icon `users`.
pub fn users() -> (r: Icon)
    ensures
        r == registry()[7],
{
    Icon { id: "users", default_class: "w-6 h-6 text-primary", template: r#"<svg xmlns="http://www.w3.org/2000/svg" width="24" height="24" viewBox="0 0 24 24" fill="none" stroke="currentColor" stroke-width="2" stroke-linecap="round" stroke-linejoin="round" class="__CLS__"><path d="M16 21v-2a4 4 0 0 0-4-4H6a4 4 0 0 0-4 4v2"/><circle cx="9" cy="7" r="4"/><path d="M22 21v-2a4 4 0 0 0-3-3.87"/><path d="M16 3.13a4 4 0 0 1 0 7.75"/></svg>"# }
}

/// Lucide icon `heart`.
pub fn heart() -> (r: Icon)
    ensures
        r == registry()[8],
{
    Icon { id: "heart", default_class: "w-6 h-6 text-primary", template: r#"<svg xmlns="http://www.w3.org/2000/svg" width="24" height="24" viewBox="0 0 24 24" fill="none" stroke="currentColor" stroke-width="2" stroke-linecap="round" stroke-linejoin="round" class="__CLS__"><path d="M19 14c1.49-1.46 3-3.21 3-5.5A5.5 5.5 0 0 0 16.5 3c-1.76 0-3 .5-4.5 2-1.5-1.5-2.74-2-4.5-2A5.5 5.5 0 0 0 2 8.5c0 2.29 1.51 4.04 3 5.5l7 7Z"/></svg>"# }
}

/// Lucide icon `globe`.
pub fn globe() -> (r: Icon)
    ensures
        r == registry()[9],
{
    Icon { id: "globe", default_class: "w-6 h-6 text-primary", template: r#"<svg xmlns="http://www.w3.org/2000/svg" width="24" height="24" viewBox="0 0 24 24" fill="none" stroke="currentColor" stroke-width="2" stroke-linecap="round" stroke-linejoin="round" class="__CLS__"><circle cx="12" cy="12" r="10"/><line x1="2" y1="12" x2="22" y2="12"/><path d="M12 2a15.3 15.3 0 0 1 4 10 15.3 15.3 0 0 1-4 10 15.3 15.3 0 0 1-4-10 15.3 15.3 0 0 1 4-10z"/></svg>"# }
}

/// Lucide icon `check`.
pub fn check() -> (r: Icon)
    ensures
        r == registry()[10],
{
    Icon { id: "check", default_class: "w-5 h-5 text-emerald-600 mt-0.5 shrink-0", template: r#"<svg xmlns="http://www.w3.org/2000/svg" width="24" height="24" viewBox="0 0 24 24" fill="none" stroke="currentColor" stroke-width="2" stroke-linecap="round" stroke-linejoin="round" class="__CLS__"><polyline points="20 6 9 17 4 12"/></svg>"# }
}

/// Lucide icon `arrow-right`.
pub fn arrow_right() -> (r: Icon)
    ensures
        r == registry()[11],
{
    Icon { id: "arrow-right", default_class: "w-4 h-4", template: r#"<svg xmlns="http://www.w3.org/2000/svg" width="24" height="24" viewBox="0 0 24 24" fill="none" stroke="currentColor" stroke-width="2" stroke-linecap="round" stroke-linejoin="round" class="__CLS__"><line x1="5" y1="12" x2="19" y2="12"/><polyline points="12 5 19 12 12 19"/></svg>"# }
}

/// Lucide icon `menu`.
pub fn menu() -> (r: Icon)
    ensures
        r == registry()[12],
{
    Icon { id: "menu", default_class: "w-6 h-6", template: r#"<svg xmlns="http://www.w3.org/2000/svg" width="24" height="24" viewBox="0 0 24 24" fill="none" stroke="currentColor" stroke-width="2" stroke-linecap="round" stroke-linejoin="round" class="__CLS__"><line x1="4" x2="20" y1="12" y2="12"/><line x1="4" x2="20" y1="6" y2="6"/><line x1="4" x2="20" y1="18" y2="18"/></svg>"# }
}

/// Lucide icon `server`.
pub fn server() -> (r: Icon)
    ensures
        r == registry()[13],
{
    Icon { id: "server", default_class: "w-7 h-7 text-primary group-hover:text-white transition-colors", template: r#"<svg xmlns="http://www.w3.org/2000/svg" width="24" height="24" viewBox="0 0 24 24" fill="none" stroke="currentColor" stroke-width="2" stroke-linecap="round" stroke-linejoin="round" class="__CLS__"><rect width="20" height="8" x="2" y="2" rx="2" ry="2"/><rect width="20" height="8" x="2" y="14" rx="2" ry="2"/><line x1="6" x2="6.01" y1="6" y2="6"/><line x1="6" x2="6.01" y1="18" y2="18"/></svg>"# }
}

/// Lucide icon `brain-circuit`.
pub fn brain_circuit() -> (r: Icon)
    ensures
        r == registry()[14],
{
    Icon { id: "brain-circuit", default_class: "w-7 h-7 text-primary group-hover:text-white transition-colors", template: r#"<svg xmlns="http://www.w3.org/2000/svg" width="24" height="24" viewBox="0 0 24 24" fill="none" stroke="currentColor" stroke-width="2" stroke-linecap="round" stroke-linejoin="round" class="__CLS__"><path d="M12 5a3 3 0 1 0-5.997.125 4 4 0 0 0-2.526 5.77 4 4 0 0 0 .556 6.588A4 4 0 1 0 12 18Z"/><path d="M9 13a4.5 4.5 0 0 0 3-4"/><path d="M6.003 5.125A3 3 0 0 0 6.401 6.5"/><path d="M3.477 10.896a4 4 0 0 1 .585-.396"/><path d="M6 18a4 4 0 0 1-1.967-.516"/><path d="M12 13h4"/><path d="M12 18h6a2 2 0 0 1 2 2v1"/><path d="M12 8h8"/><path d="M16 8V5a2 2 0 0 1 2-2"/><circle cx="16" cy="13" r=".5"/><circle cx="18" cy="3" r=".5"/><circle cx="20" cy="21" r=".5"/><circle cx="20" cy="8" r=".5"/></svg>"# }
}

/// Lucide icon `settings`.
pub fn settings() -> (r: Icon)
    ensures
        r == registry()[15],
{
    Icon { id: "settings", default_class: "w-7 h-7 text-primary group-hover:text-white transition-colors", template: r#"<svg xmlns="http://www.w3.org/2000/svg" width="24" height="24" viewBox="0 0 24 24" fill="none" stroke="currentColor" stroke-width="2" stroke-linecap="round" stroke-linejoin="round" class="__CLS__"><path d="M12.22 2h-.44a2 2 0 0 0-2 2v.18a2 2 0 0 1-1 1.73l-.43.25a2 2 0 0 1-2 0l-.15-.08a2 2 0 0 0-2.73.73l-.22.38a2 2 0 0 0 .73 2.73l.15.1a2 2 0 0 1 1 1.72v.51a2 2 0 0 1-1 1.74l-.15.09a2 2 0 0 0-.73 2.73l.22.38a2 2 0 0 0 2.73.73l.15-.08a2 2 0 0 1 2 0l.43.25a2 2 0 0 1 1 1.73V20a2 2 0 0 0 2 2h.44a2 2 0 0 0 2-2v-.18a2 2 0 0 1 1-1.73l.43-.25a2 2 0 0 1 2 0l.15.08a2 2 0 0 0 2.73-.73l.22-.39a2 2 0 0 0-.73-2.73l-.15-.08a2 2 0 0 1-1-1.74v-.5a2 2 0 0 1 1-1.74l.15-.09a2 2 0 0 0 .73-2.73l-.22-.38a2 2 0 0 0-2.73-.73l-.15.08a2 2 0 0 1-2 0l-.43-.25a2 2 0 0 1-1-1.73V4a2 2 0 0 0-2-2z"/><circle cx="12" cy="12" r="3"/></svg>"# }
}

/// Lucide icon `code`.
pub fn code() -> (r: Icon)
    ensures
        r == registry()[16],
{
    Icon { id: "code", default_class: "w-7 h-7 text-primary group-hover:text-white transition-colors", template: r#"<svg xmlns="http://www.w3.org/2000/svg" width="24" height="24" viewBox="0 0 24 24" fill="none" stroke="currentColor" stroke-width="2" stroke-linecap="round" stroke-linejoin="round" class="__CLS__"><polyline points="16 18 22 12 16 6"/><polyline points="8 6 2 12 8 18"/></svg>"# }
}

/// Lucide icon `cpu`.
pub fn cpu() -> (r: Icon)
    ensures
        r == registry()[17],
{
    Icon { id: "cpu", default_class: "w-7 h-7 text-primary group-hover:text-white transition-colors", template: r#"<svg xmlns="http://www.w3.org/2000/svg" width="24" height="24" viewBox="0 0 24 24" fill="none" stroke="currentColor" stroke-width="2" stroke-linecap="round" stroke-linejoin="round" class="__CLS__"><rect width="16" height="16" x="4" y="4" rx="2"/><rect width="6" height="6" x="9" y="9" rx="1"/><path d="M15 2v2"/><path d="M15 20v2"/><path d="M2 15h2"/><path d="M2 9h2"/><path d="M20 15h2"/><path d="M20 9h2"/><path d="M9 2v2"/><path d="M9 20v2"/></svg>"# }
}

/// Lucide icon `terminal`.
pub fn terminal() -> (r: Icon)
    ensures
        r == registry()[18],
{
    Icon { id: "terminal", default_class: "w-4 h-4", template: r#"<svg xmlns="http://www.w3.org/2000/svg" width="24" height="24" viewBox="0 0 24 24" fill="none" stroke="currentColor" stroke-width="2" stroke-linecap="round" stroke-linejoin="round" class="__CLS__"><polyline points="4 17 10 11 4 5"/><line x1="12" x2="20" y1="19" y2="19"/></svg>"# }
}

/// Lucide icon `circle-check`.
pub fn circle_check() -> (r: Icon)
    ensures
        r == registry()[19],
{
    Icon { id: "circle-check", default_class: "w-6 h-6 text-primary shrink-0", template: r#"<svg xmlns="http://www.w3.org/2000/svg" width="24" height="24" viewBox="0 0 24 24" fill="none" stroke="currentColor" stroke-width="2" stroke-linecap="round" stroke-linejoin="round" class="__CLS__"><circle cx="12" cy="12" r="10"/><path d="m9 12 2 2 4-4"/></svg>"# }
}

/// Every registered icon, in catalog order.
pub fn all() -> (r: Vec<Icon>)
    ensures
        r@ == registry(),
{
    let r = vec![
        phone(),
        mail(),
        map_pin(),
        shield(),
        lock(),
        file_text(),
        clipboard_check(),
        users(),
        heart(),
        globe(),
        check(),
        arrow_right(),
        menu(),
        server(),
        brain_circuit(),
        settings(),
        code(),
        cpu(),
        terminal(),
        circle_check(),
    ];
    assert(r@ =~= registry());
    r
}

} // verus!
