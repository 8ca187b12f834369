use loom::tokens::stock_photos::{stock_photo_entries, StockPhotoEntry};
use std::collections::HashSet;

fn names(list: &[&str]) -> Vec<String> {
    list.iter().map(|s| s.to_string()).collect()
}

#[test]
fn empty_dir_returns_empty_manifest() {
    let m = stock_photo_entries(&names(&[]), "/photos");
    assert!(m.is_empty());
}

#[test]
fn finds_jpg_png_webp_avif() {
    let m = stock_photo_entries(&names(&["a.jpg", "a.png", "a.webp", "a.avif"]), "/photos");
    assert!(!m.is_empty());
    // One stem, the last file with it wins.
    assert_eq!(m.len(), 1);
    assert_eq!(m[0].src, "/photos/a.avif");
}

#[test]
fn ignores_hidden_files() {
    let m = stock_photo_entries(&names(&[".hidden.jpg", "real.jpg"]), "/photos");
    assert_eq!(m.len(), 1);
    assert_eq!(m[0].name, "real");
}

#[test]
fn ignores_non_image_extensions() {
    let m = stock_photo_entries(&names(&["readme.txt", "data.json", "real.jpg"]), "/photos");
    assert_eq!(m.len(), 1);
}

#[test]
fn stitches_2x_variants() {
    let m = stock_photo_entries(&names(&["hero@2x.jpg", "hero.jpg"]), "/photos");
    assert_eq!(m.len(), 1);
    assert_eq!(m[0].name, "hero");
    assert_eq!(m[0].src, "/photos/hero.jpg");
    assert_eq!(m[0].src_2x.as_deref(), Some("/photos/hero@2x.jpg"));
}

#[test]
fn emits_correct_mime_per_extension() {
    let m = stock_photo_entries(&names(&["a.jpeg", "b.png"]), "/p");
    let mimes: HashSet<&str> = m.iter().map(|e| e.mime.as_str()).collect();
    assert!(mimes.contains("image/jpeg"));
    assert!(mimes.contains("image/png"));
}

#[test]
fn web_path_prefix_used_in_src() {
    let m = stock_photo_entries(&names(&["logo.png"]), "/assets/images");
    assert_eq!(m[0].src, "/assets/images/logo.png");
}

#[test]
fn entries_are_sorted_by_name() {
    let m = stock_photo_entries(&names(&["zeta.jpg", "alpha.PNG", "mid.webp", "Beta.avif"]), "/p");
    let got: Vec<&str> = m.iter().map(|e| e.name.as_str()).collect();
    assert_eq!(got, vec!["Beta", "alpha", "mid", "zeta"]);
    assert_eq!(m[1].mime, "image/png");
}

#[test]
fn orphan_2x_variant_adds_no_entry() {
    let m = stock_photo_entries(&names(&["lonely@2x.jpg"]), "/p");
    assert!(m.is_empty());
}

#[test]
fn extension_case_and_multiple_dots() {
    let m = stock_photo_entries(&names(&["a.b.JPG", "noext", "trailing."]), "/p");
    assert_eq!(
        m,
        vec![StockPhotoEntry {
            name: "a.b".to_string(),
            src: "/p/a.b.JPG".to_string(),
            src_2x: None,
            mime: "image/jpeg".to_string(),
            attribution: String::new(),
        }]
    );
}
