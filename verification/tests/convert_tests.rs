use epub_to_md::convert::{
    chapter_filename, convert_book, has_content, merge_chapters, merged_document, progress_line,
    split_chapters, write_failure_context, OutputFile, MIN_CHAPTER_CHARS,
};
use epub_to_md::metadata::BookMetadata;

fn record(title: Option<&str>, creators: &[&str]) -> BookMetadata {
    BookMetadata {
        title: title.map(|t| t.to_string()),
        creators: creators.iter().map(|c| c.to_string()).collect(),
        language: None,
        description: None,
        publisher: None,
        date: None,
        subjects: Vec::new(),
        identifier: None,
        rights: None,
        contributors: Vec::new(),
        source: None,
        epub_version: "Version3_0".to_string(),
        release_identifier: None,
        chapter_count: 0,
        toc: Vec::new(),
    }
}

fn long_text(tag: &str) -> String {
    format!("{} {}", tag, "lorem ipsum dolor sit amet ".repeat(3))
}

/// The code points that carry the Unicode `White_Space` property.
fn is_white_space(c: char) -> bool {
    matches!(
        c as u32,
        0x09..=0x0D
            | 0x20
            | 0x85
            | 0xA0
            | 0x1680
            | 0x2000..=0x200A
            | 0x2028
            | 0x2029
            | 0x202F
            | 0x205F
            | 0x3000
    )
}

#[test]
fn the_threshold_is_fifty() {
    assert_eq!(MIN_CHAPTER_CHARS, 50);
}

#[test]
fn a_chapter_of_forty_nine_characters_is_left_out() {
    assert!(!has_content(&"a".repeat(49)));
}

#[test]
fn a_chapter_of_exactly_fifty_characters_is_kept() {
    assert!(has_content(&"a".repeat(50)));
}

#[test]
fn white_space_at_the_ends_does_not_count() {
    let padded = format!("  \n\t{}\r\n   ", "a".repeat(49));
    assert!(!has_content(&padded));
    let padded = format!("  \n\t{}\r\n   ", "a".repeat(50));
    assert!(has_content(&padded));
}

#[test]
fn white_space_inside_counts() {
    let text = format!("{} {}", "a".repeat(24), "b".repeat(25));
    assert!(has_content(&text));
}

#[test]
fn an_empty_or_blank_chapter_is_left_out() {
    assert!(!has_content(""));
    assert!(!has_content(&" ".repeat(200)));
    assert!(!has_content(&"\n".repeat(200)));
}

#[test]
fn length_is_counted_in_characters() {
    assert!(!has_content(&"\u{4e2d}".repeat(49)));
    assert!(has_content(&"\u{4e2d}".repeat(50)));
    assert!(!has_content(&"\u{e9}".repeat(25)));
}

#[test]
fn every_character_is_trimmed_exactly_when_it_is_white_space() {
    let body = "a".repeat(49);
    for code in 0..=0x10FFFFu32 {
        if let Some(c) = char::from_u32(code) {
            let leading = format!("{}{}", c, body);
            let trailing = format!("{}{}", body, c);
            assert_eq!(has_content(&leading), !is_white_space(c), "leading U+{:04X}", code);
            assert_eq!(has_content(&trailing), !is_white_space(c), "trailing U+{:04X}", code);
        }
    }
}

#[test]
fn chapter_files_are_named_with_three_digits() {
    assert_eq!(chapter_filename(1), "chapter_001.md");
    assert_eq!(chapter_filename(3), "chapter_003.md");
    assert_eq!(chapter_filename(42), "chapter_042.md");
    assert_eq!(chapter_filename(999), "chapter_999.md");
}

#[test]
fn chapter_numbers_above_three_digits_widen_the_name() {
    assert_eq!(chapter_filename(1000), "chapter_1000.md");
    assert_eq!(chapter_filename(12345), "chapter_12345.md");
}

#[test]
fn numbering_is_dense_over_kept_chapters() {
    let one = long_text("one");
    let three = long_text("three");
    let five = long_text("five");
    let chapters = vec![
        Some(one.clone()),
        Some("too short".to_string()),
        Some(three.clone()),
        None,
        Some(five.clone()),
    ];
    let files = split_chapters(&chapters);
    assert_eq!(
        files,
        vec![
            OutputFile { name: "chapter_001.md".to_string(), content: one },
            OutputFile { name: "chapter_002.md".to_string(), content: three },
            OutputFile { name: "chapter_003.md".to_string(), content: five },
        ]
    );
}

#[test]
fn skipped_entries_before_a_chapter_do_not_change_its_number() {
    let text = long_text("only");
    let direct = split_chapters(&vec![Some(text.clone())]);
    let after_skips = split_chapters(&vec![
        None,
        Some(String::new()),
        Some("   ".to_string()),
        None,
        Some(text.clone()),
    ]);
    assert_eq!(direct, after_skips);
    assert_eq!(direct[0].name, "chapter_001.md");
}

#[test]
fn a_book_without_kept_chapters_has_no_files() {
    assert!(split_chapters(&Vec::new()).is_empty());
    assert!(split_chapters(&vec![None, Some("short".to_string())]).is_empty());
}

#[test]
fn kept_chapters_are_written_as_they_are() {
    let text = format!("\n\n  {}  \n", "a".repeat(60));
    let files = split_chapters(&vec![Some(text.clone())]);
    assert_eq!(files.len(), 1);
    assert_eq!(files[0].content, text);
}

#[test]
fn merged_body_joins_chapters_with_rules() {
    let one = long_text("one");
    let two = long_text("two");
    let body = merge_chapters(&vec![Some(one.clone()), None, Some("x".to_string()), Some(two.clone())]);
    assert_eq!(body, format!("{}\n\n---\n\n{}\n\n---\n\n", one, two));
}

#[test]
fn merged_body_of_nothing_is_empty() {
    assert_eq!(merge_chapters(&vec![None, Some(" ".to_string())]), "");
}

#[test]
fn merged_mode_scenario() {
    let html = "<p>Hello world this is enough text to pass the filter.</p>";
    let rendered = html2md::parse_html(html);
    let files = convert_book(&record(Some("Test: Book"), &[]), &vec![Some(rendered.clone())], true);
    assert_eq!(files.len(), 1);
    assert_eq!(files[0].name, "Test_ Book.md");
    assert_eq!(rendered, "Hello world this is enough text to pass the filter.");
    assert_eq!(
        files[0].content,
        "# Test: Book\n\n**Author:** Unknown Author\n\n---\n\nHello world this is enough text to pass the filter.\n\n---\n\n"
    );
    let content = &files[0].content;
    let heading = content.find("# Test: Book").unwrap();
    let author = content.find("**Author:**").unwrap();
    let rule = content.find("---").unwrap();
    let chapter = content.find("Hello world").unwrap();
    let last_rule = content.rfind("---").unwrap();
    assert!(heading < author && author < rule && rule < chapter && chapter < last_rule);
}

#[test]
fn merged_document_names_the_first_creator() {
    let text = long_text("chapter");
    let file = merged_document("Dune", "Frank Herbert", &vec![Some(text.clone())]);
    assert_eq!(file.name, "Dune.md");
    assert_eq!(
        file.content,
        format!("# Dune\n\n**Author:** Frank Herbert\n\n---\n\n{}\n\n---\n\n", text)
    );
}

#[test]
fn merged_document_without_chapters_is_only_the_header() {
    let file = merged_document("A/B", "X", &Vec::new());
    assert_eq!(file.name, "A_B.md");
    assert_eq!(file.content, "# A/B\n\n**Author:** X\n\n---\n\n");
}

#[test]
fn merged_mode_uses_the_fallback_title() {
    let files = convert_book(&record(None, &["Ann", "Bob"]), &Vec::new(), true);
    assert_eq!(files.len(), 1);
    assert_eq!(files[0].name, "Unknown Title.md");
    assert_eq!(files[0].content, "# Unknown Title\n\n**Author:** Ann\n\n---\n\n");
}

#[test]
fn per_chapter_mode_gives_the_chapter_files() {
    let one = long_text("one");
    let two = long_text("two");
    let chapters = vec![Some(one.clone()), Some(two.clone())];
    let files = convert_book(&record(Some("T"), &["A"]), &chapters, false);
    assert_eq!(files, split_chapters(&chapters));
    assert_eq!(files.len(), 2);
    assert_eq!(files[1].name, "chapter_002.md");
    assert_eq!(files[1].content, two);
}

#[test]
fn progress_line_shows_source_title_and_author() {
    assert_eq!(
        progress_line("book.epub", &record(Some("Dune"), &["Frank Herbert", "Other"])),
        "  [book.epub] Title: Dune, Author: Frank Herbert"
    );
}

#[test]
fn progress_line_falls_back_to_placeholders() {
    assert_eq!(
        progress_line("x.epub", &record(None, &[])),
        "  [x.epub] Title: Unknown Title, Author: Unknown Author"
    );
}

#[test]
fn write_failures_name_the_file() {
    let chapter = OutputFile { name: "chapter_003.md".to_string(), content: String::new() };
    assert_eq!(write_failure_context(&chapter, false), "Failed to write chapter_003.md");
    let merged = OutputFile { name: "Book.md".to_string(), content: String::new() };
    assert_eq!(write_failure_context(&merged, true), "Failed to write combined Markdown file");
}
