use loom::components::footer::{Footer, FooterColumn, FooterItem, FooterLegalLink};
use loom::icons::{map_pin, phone, shield};
fn fixture<'a>() -> Footer<'a> {
    const COMPANY: &[FooterItem<'static>] = &[
        FooterItem::Link {
            href: "/",
            label: "Home",
        },
        FooterItem::Link {
            href: "/about",
            label: "About",
        },
    ];
    const SOLUTIONS: &[FooterItem<'static>] = &[
        FooterItem::Text { text: "IT Operations" },
        FooterItem::Text { text: "Cyber Security" },
    ];
    let contact: &'static [FooterItem<'static>] = Box::leak(vec![
        FooterItem::Contact {
            icon: phone(),
            label: "555-1234",
            href: Some("tel:5551234"),
        },
        FooterItem::Contact {
            icon: map_pin(),
            label: "Massachusetts, USA",
            href: None,
        },
    ].into_boxed_slice());
    let cols: &'static [FooterColumn<'static>] = Box::leak(vec![
        FooterColumn {
            heading: "Company",
            items: COMPANY,
        },
        FooterColumn {
            heading: "Solutions",
            items: SOLUTIONS,
        },
        FooterColumn {
            heading: "Contact",
            items: contact,
        },
    ].into_boxed_slice());
    static LEGAL: &[FooterLegalLink<'static>] = &[
        FooterLegalLink {
            href: "/privacy",
            label: "Privacy",
        },
        FooterLegalLink {
            href: "/terms",
            label: "Terms",
        },
    ];
    Footer {
        brand_logo: shield(),
        brand_name: "PlausiDen",
        brand_accent: "LLC",
        brand_tagline: "Test tagline.",
        columns: cols,
        copyright: "© PlausiDen LLC.",
        legal_links: LEGAL,
    }
}

#[test]
fn renders_brand_block() {
    let s = fixture().render();
    assert!(s.contains("<footer"));
    assert!(s.contains("PlausiDen"));
    assert!(s.contains(">LLC<"));
    assert!(s.contains("Test tagline"));
}

#[test]
fn link_items_emit_anchors() {
    let s = fixture().render();
    assert!(s.contains(r#"<a href="/""#));
    assert!(s.contains(r#"<a href="/about""#));
}

#[test]
fn text_items_emit_plain_li() {
    let s = fixture().render();
    // Plain solutions text — IT Operations should be in an li but
    // not wrapped in an <a>.
    let pos = s.find("IT Operations").expect("IT Operations present");
    // Look backward for the nearest <a — must NOT be the most
    // recent open tag wrapping IT Operations.
    let preceding = &s[..pos];
    let last_a = preceding.rfind("<a ");
    let last_li = preceding.rfind("<li").expect("li open");
    if let Some(a_pos) = last_a {
        assert!(a_pos < last_li, "Text item must not be wrapped in <a>");
    }
}

#[test]
fn contact_items_with_href_emit_anchor() {
    let s = fixture().render();
    assert!(s.contains(r#"href="tel:5551234""#));
}

#[test]
fn contact_items_without_href_emit_span() {
    let s = fixture().render();
    assert!(s.contains(">Massachusetts, USA<"));
    // Massachusetts label should not be inside an anchor.
    let pos = s.find("Massachusetts").expect("present");
    let preceding = &s[..pos];
    let last_a_open = preceding.rfind("<a ");
    let last_a_close = preceding.rfind("</a>");
    // If there is an unmatched <a> before our text, fail.
    if let Some(open) = last_a_open {
        let close = last_a_close.unwrap_or(0);
        assert!(close > open, "Massachusetts must not be inside <a>");
    }
}

#[test]
fn legal_links_render_in_bottom_band() {
    let s = fixture().render();
    assert!(s.contains(r#"href="/privacy""#));
    assert!(s.contains(r#"href="/terms""#));
    assert!(s.contains("PlausiDen LLC"));
}
