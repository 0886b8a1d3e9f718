use epub_extract::normalize_metadata;

#[test]
fn defaults_when_lookup_empty() {
    let meta = normalize_metadata(None, None);
    assert_eq!(meta.title, "Untitled");
    assert_eq!(meta.author, "Unknown");
}

#[test]
fn title_kept_author_defaulted() {
    let meta = normalize_metadata(Some("Dune".to_string()), None);
    assert_eq!(meta.title, "Dune");
    assert_eq!(meta.author, "Unknown");
}

#[test]
fn author_kept_title_defaulted() {
    let meta = normalize_metadata(None, Some("Frank Herbert".to_string()));
    assert_eq!(meta.title, "Untitled");
    assert_eq!(meta.author, "Frank Herbert");
}

#[test]
fn looked_up_strings_not_validated() {
    let meta = normalize_metadata(Some("  ".to_string()), Some("".to_string()));
    assert_eq!(meta.title, "  ");
    assert_eq!(meta.author, "");
}
