use epub_to_md::metadata::{
    convert_toc, extract_metadata, get_all_values, get_value, BookMetadata, Document,
    MetadataItem, NavPoint, TocEntry,
};

fn item(property: &str, value: &str) -> MetadataItem {
    MetadataItem { property: property.to_string(), value: value.to_string() }
}

fn document(metadata: Vec<MetadataItem>) -> Document {
    Document {
        metadata,
        version: "Version2_0".to_string(),
        release_identifier: None,
        spine_length: 0,
        toc: Vec::new(),
    }
}

fn point(label: &str, children: Vec<NavPoint>) -> NavPoint {
    NavPoint { label: label.to_string(), content: format!("{}.xhtml", label), children }
}

fn entry(label: &str, children: Vec<TocEntry>) -> TocEntry {
    TocEntry { label: label.to_string(), children }
}

#[test]
fn creators_keep_their_order_and_missing_subjects_are_empty() {
    let record = extract_metadata(&document(vec![item("creator", "A"), item("creator", "B")]));
    assert_eq!(record.creators, vec!["A".to_string(), "B".to_string()]);
    assert_eq!(record.subjects, Vec::<String>::new());
}

#[test]
fn absent_fields_are_none_not_empty_strings() {
    let record = extract_metadata(&document(Vec::new()));
    assert_eq!(
        record,
        BookMetadata {
            title: None,
            creators: Vec::new(),
            language: None,
            description: None,
            publisher: None,
            date: None,
            subjects: Vec::new(),
            identifier: None,
            rights: None,
            contributors: Vec::new(),
            source: None,
            epub_version: "Version2_0".to_string(),
            release_identifier: None,
            chapter_count: 0,
            toc: Vec::new(),
        }
    );
}

#[test]
fn every_field_is_read_from_its_property() {
    let doc = Document {
        metadata: vec![
            item("subject", "Fiction"),
            item("title", "Main"),
            item("creator", "Ann"),
            item("language", "en"),
            item("title", "Second"),
            item("description", "About"),
            item("publisher", "House"),
            item("date", "2001-02-03"),
            item("subject", "Adventure"),
            item("identifier", "urn:isbn:1"),
            item("identifier", "urn:uuid:2"),
            item("rights", "CC0"),
            item("contributor", "Ed"),
            item("source", "Print"),
            item("creator", "Bob"),
            item("contributor", "Ill"),
            item("dcterms:modified", "2020"),
        ],
        version: "Version3_0".to_string(),
        release_identifier: Some("urn:isbn:1@2020".to_string()),
        spine_length: 12,
        toc: vec![point("One", Vec::new())],
    };
    let record = extract_metadata(&doc);
    assert_eq!(record.title, Some("Main".to_string()));
    assert_eq!(record.creators, vec!["Ann".to_string(), "Bob".to_string()]);
    assert_eq!(record.language, Some("en".to_string()));
    assert_eq!(record.description, Some("About".to_string()));
    assert_eq!(record.publisher, Some("House".to_string()));
    assert_eq!(record.date, Some("2001-02-03".to_string()));
    assert_eq!(record.subjects, vec!["Fiction".to_string(), "Adventure".to_string()]);
    assert_eq!(record.identifier, Some("urn:isbn:1".to_string()));
    assert_eq!(record.rights, Some("CC0".to_string()));
    assert_eq!(record.contributors, vec!["Ed".to_string(), "Ill".to_string()]);
    assert_eq!(record.source, Some("Print".to_string()));
    assert_eq!(record.epub_version, "Version3_0");
    assert_eq!(record.release_identifier, Some("urn:isbn:1@2020".to_string()));
    assert_eq!(record.chapter_count, 12);
    assert_eq!(record.toc, vec![entry("One", Vec::new())]);
}

#[test]
fn chapter_count_is_the_length_of_the_reading_order() {
    let mut doc = document(Vec::new());
    doc.spine_length = 37;
    assert_eq!(extract_metadata(&doc).chapter_count, 37);
}

#[test]
fn single_value_is_the_first_match() {
    let items = vec![item("title", "First"), item("creator", "X"), item("title", "Second")];
    assert_eq!(get_value(&items, "title"), Some("First".to_string()));
    assert_eq!(get_value(&items, "creator"), Some("X".to_string()));
    assert_eq!(get_value(&items, "language"), None);
    assert_eq!(get_value(&Vec::new(), "title"), None);
}

#[test]
fn property_names_match_exactly() {
    let items = vec![item("Title", "Upper"), item("title ", "Spaced"), item("titles", "Plural")];
    assert_eq!(get_value(&items, "title"), None);
    assert_eq!(get_all_values(&items, "title"), Vec::<String>::new());
}

#[test]
fn all_values_are_collected_in_document_order() {
    let items = vec![
        item("subject", "c"),
        item("title", "t"),
        item("subject", "a"),
        item("subject", "b"),
    ];
    assert_eq!(
        get_all_values(&items, "subject"),
        vec!["c".to_string(), "a".to_string(), "b".to_string()]
    );
}

#[test]
fn the_single_value_is_the_first_of_all_values() {
    let items = vec![item("creator", "A"), item("x", "y"), item("creator", "B")];
    assert_eq!(get_value(&items, "creator"), get_all_values(&items, "creator").first().cloned());
}

#[test]
fn table_of_contents_keeps_order_and_depth() {
    let toc = vec![
        point("Part I", vec![point("Chapter 1", vec![point("Section 1.1", Vec::new())]), point("Chapter 2", Vec::new())]),
        point("Part II", Vec::new()),
    ];
    assert_eq!(
        convert_toc(&toc),
        vec![
            entry("Part I", vec![entry("Chapter 1", vec![entry("Section 1.1", Vec::new())]), entry("Chapter 2", Vec::new())]),
            entry("Part II", Vec::new()),
        ]
    );
}

#[test]
fn an_empty_navigation_tree_gives_an_empty_table() {
    assert_eq!(convert_toc(&Vec::new()), Vec::<TocEntry>::new());
}

#[test]
fn a_deep_navigation_tree_is_converted_whole() {
    let mut node = point("leaf", Vec::new());
    let mut expected = entry("leaf", Vec::new());
    for depth in 0..200 {
        node = point(&format!("level {}", depth), vec![node]);
        expected = entry(&format!("level {}", depth), vec![expected]);
    }
    assert_eq!(convert_toc(&vec![node]), vec![expected]);
}

#[test]
fn display_values_fall_back_to_placeholders() {
    let record = extract_metadata(&document(Vec::new()));
    assert_eq!(record.display_title(), "Unknown Title");
    assert_eq!(record.display_author(), "Unknown Author");
}

#[test]
fn display_values_come_from_the_record() {
    let record = extract_metadata(&document(vec![
        item("creator", "First Author"),
        item("title", "The Title"),
        item("creator", "Second Author"),
    ]));
    assert_eq!(record.display_title(), "The Title");
    assert_eq!(record.display_author(), "First Author");
}
