use svger::files::{is_svg_file, select_images, ImageEntry, ListedEntry};

fn listed(name: &str, is_file: bool) -> ListedEntry {
    ListedEntry { path: format!("/pics/{}", name), file_name: name.to_string(), is_file }
}

#[test]
fn only_lowercase_svg_files_are_kept() {
    let entries = vec![
        listed("a.svg", true),
        listed("b.png", true),
        listed("c.SVG", true),
        listed("sub", false),
    ];
    let images = select_images(&entries);
    assert_eq!(
        images,
        vec![ImageEntry { path: "/pics/a.svg".to_string(), label: "a".to_string() }]
    );
}

#[test]
fn empty_listing_gives_no_images() {
    assert!(select_images(&Vec::new()).is_empty());
}

#[test]
fn directory_named_like_svg_is_skipped() {
    assert!(!is_svg_file(&listed("icons.svg", false)));
}

#[test]
fn extension_edge_cases() {
    assert!(!is_svg_file(&listed(".svg", true)));
    assert!(!is_svg_file(&listed("svg", true)));
    assert!(!is_svg_file(&listed("a.svg.bak", true)));
    assert!(is_svg_file(&listed("a.b.svg", true)));
    assert!(is_svg_file(&listed("..svg", true)));
}

#[test]
fn labels_drop_only_last_extension_and_keep_order() {
    let entries = vec![
        listed("z.icon.svg", true),
        listed("notes.txt", true),
        listed("a.svg", true),
    ];
    let labels: Vec<String> = select_images(&entries).into_iter().map(|e| e.label).collect();
    assert_eq!(labels, vec!["z.icon".to_string(), "a".to_string()]);
}
