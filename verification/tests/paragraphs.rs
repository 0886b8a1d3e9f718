use epub_extract::extract_paragraphs;

#[test]
fn paragraph_order_preserved() {
    let markup = "<html><body><p>A</p><div><p>B</p></div></body></html>";
    let paragraphs = extract_paragraphs(markup);
    assert_eq!(paragraphs, vec!["A".to_string(), "B".to_string()]);
}

#[test]
fn empty_elements_omitted() {
    let markup = "<div><p></p><p>Text</p></div>";
    let paragraphs = extract_paragraphs(markup);
    assert_eq!(paragraphs.len(), 1);
    assert_eq!(paragraphs, vec!["Text".to_string()]);
}

#[test]
fn malformed_markup_degrades_to_empty() {
    let paragraphs = extract_paragraphs("<p>unterminated");
    assert!(paragraphs.is_empty());
}

#[test]
fn no_paragraph_elements_yields_empty() {
    let paragraphs = extract_paragraphs("<html><body><h1>Heading</h1></body></html>");
    assert!(paragraphs.is_empty());
}

#[test]
fn direct_text_only_not_nested() {
    // The extraction takes a paragraph's direct text: the text node sitting
    // immediately under the element, not the flattened text of nested
    // elements.
    let markup = "<div><p>Hello <em>world</em></p></div>";
    let paragraphs = extract_paragraphs(markup);
    assert_eq!(paragraphs, vec!["Hello ".to_string()]);
}

#[test]
fn whitespace_text_is_kept_untrimmed() {
    // No trimming policy is applied: direct text that is present and
    // non-empty is kept as it stands.
    let markup = "<div><p> A </p></div>";
    let paragraphs = extract_paragraphs(markup);
    assert_eq!(paragraphs, vec![" A ".to_string()]);
}

#[test]
fn paragraph_nested_in_deeper_markup_found() {
    let markup = "<html><body><div><div><p>Deep</p></div></div><p>Late</p></body></html>";
    let paragraphs = extract_paragraphs(markup);
    assert_eq!(paragraphs, vec!["Deep".to_string(), "Late".to_string()]);
}

#[test]
fn non_paragraph_text_ignored() {
    let markup = "<html><body><span>Not a paragraph</span><p>Yes</p></body></html>";
    let paragraphs = extract_paragraphs(markup);
    assert_eq!(paragraphs, vec!["Yes".to_string()]);
}
