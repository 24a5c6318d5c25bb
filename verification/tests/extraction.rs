use xml_attribute_diff::attrset::AttributeSet;
use xml_attribute_diff::extract_document;
use xml_attribute_diff::scan::extract_attributes;
use xml_attribute_diff::DiffError;

fn extract(doc: &[u8]) -> AttributeSet {
    extract_attributes(&doc.to_vec()).expect("document should scan")
}

fn assert_same_set(a: &AttributeSet, b: &AttributeSet) {
    assert_eq!(a.len(), b.len());
    for v in a.value_list() {
        assert!(b.contains(v));
    }
}

#[test]
fn extracts_attribute_values_of_start_tags() {
    let set = extract(b"<a id=\"1\" class=\"two\"><b name=\"three\"/></a>");
    assert_eq!(set.len(), 3);
    assert!(set.contains(&"1".to_string()));
    assert!(set.contains(&"two".to_string()));
    assert!(set.contains(&"three".to_string()));
}

#[test]
fn attribute_names_are_not_collected() {
    let set = extract(b"<a id=\"v\"/>");
    assert!(set.contains(&"v".to_string()));
    assert!(!set.contains(&"id".to_string()));
    assert!(!set.contains(&"a".to_string()));
}

#[test]
fn elements_without_attributes_contribute_nothing() {
    let set = extract(b"<a><b></b><c/></a>");
    assert_eq!(set.len(), 0);
}

#[test]
fn text_comments_and_instructions_are_ignored() {
    let set = extract(b"<?xml version=\"1.0\"?><r a=\"v\">text<!-- note --><e/></r>");
    assert!(set.contains(&"v".to_string()));
    assert!(!set.contains(&"1.0".to_string()));
    assert!(!set.contains(&"text".to_string()));
    assert_eq!(set.len(), 1);
}

#[test]
fn whitespace_text_nodes_do_not_affect_values() {
    let plain = extract(b"<r><a id=\"x\"/></r>");
    let spaced = extract(b"<r>\n  <a id=\"x\"/>\n</r>\n");
    assert_same_set(&plain, &spaced);
}

#[test]
fn duplicate_value_on_two_elements_collapses_to_one_entry() {
    let set = extract(b"<r><a id=\"x\"/><b id=\"x\"/></r>");
    assert_eq!(set.len(), 1);
    assert!(set.contains(&"x".to_string()));
}

#[test]
fn extracting_twice_yields_identical_sets() {
    let doc: &[u8] = b"<r><a id=\"1\" b=\"2\"/><c d=\"3\"/></r>";
    let first = extract(doc);
    let second = extract(doc);
    assert_same_set(&first, &second);
    assert_same_set(&second, &first);
}

#[test]
fn empty_document_yields_empty_set() {
    let set = extract(b"");
    assert_eq!(set.len(), 0);
}

#[test]
fn unreadable_path_is_a_read_error_carrying_the_path() {
    let r = extract_document("missing.xml", None);
    match r {
        Err(DiffError::Read(p)) => assert_eq!(p, "missing.xml"),
        other => panic!("expected a read error, got {:?}", other),
    }
}

#[test]
fn unterminated_tag_is_a_parse_error_carrying_the_path() {
    let doc = b"<a id=\"1\"".to_vec();
    let r = extract_document("bad.xml", Some(&doc));
    match r {
        Err(DiffError::Parse(p)) => assert_eq!(p, "bad.xml"),
        other => panic!("expected a parse error, got {:?}", other),
    }
}

#[test]
fn mismatched_nesting_is_a_parse_error() {
    let doc = b"<a><b></a>".to_vec();
    let r = extract_document("bad.xml", Some(&doc));
    match r {
        Err(DiffError::Parse(p)) => assert_eq!(p, "bad.xml"),
        other => panic!("expected a parse error, got {:?}", other),
    }
}

#[test]
fn undecodable_attribute_value_is_a_parse_error() {
    let mut doc = b"<a id=\"".to_vec();
    doc.push(0xFF);
    doc.extend_from_slice(b"\"/>");
    let r = extract_document("bad.xml", Some(&doc));
    match r {
        Err(DiffError::Parse(p)) => assert_eq!(p, "bad.xml"),
        other => panic!("expected a parse error, got {:?}", other),
    }
}

#[test]
fn nested_start_tags_all_contribute() {
    let set = extract(b"<a x=\"1\"><b y=\"2\"><c z=\"3\"/></b></a>");
    assert_eq!(set.len(), 3);
    assert!(set.contains(&"1".to_string()));
    assert!(set.contains(&"2".to_string()));
    assert!(set.contains(&"3".to_string()));
}

#[test]
fn attribute_values_are_taken_raw() {
    let set = extract(b"<a id=\"a&amp;b\"/>");
    assert!(set.contains(&"a&amp;b".to_string()));
    assert!(!set.contains(&"a&b".to_string()));
}

#[test]
fn insert_collapses_duplicates() {
    let mut set = AttributeSet::new();
    assert_eq!(set.len(), 0);
    set.insert("x".to_string());
    set.insert("x".to_string());
    set.insert("y".to_string());
    assert_eq!(set.len(), 2);
    assert!(set.contains(&"x".to_string()));
    assert!(set.contains(&"y".to_string()));
    assert!(!set.contains(&"z".to_string()));
}
