//! From the rendered chapters of one book to the files that hold them.
//!
//! A book arrives as the Markdown of its reading order, one item for each
//! entry; an entry without content has none. Chapters that say too little
//! are left out, and those that stay are either written one file each,
//! numbered from 1 without gaps, or joined into a single document.

use vstd::prelude::*;
use crate::metadata::{shown_author, shown_title, BookMetadata};
use crate::sanitize::{sanitize_filename, sanitized};
use crate::text::{to_zero_padded, trim, trimmed, zero_padded};

verus! {

/// The least number of characters, white space at both ends not counted,
/// that a chapter must have to be kept.
pub const MIN_CHAPTER_CHARS: usize = 50;

/// The digits that a chapter number is padded to.
pub const CHAPTER_NUMBER_WIDTH: usize = 3;

/// Whether a rendered chapter says enough to be kept.
pub open spec fn is_substantial(markdown: Seq<char>) -> bool {
    trimmed(markdown).len() >= MIN_CHAPTER_CHARS
}

/// Whether an entry of the reading order yields a chapter.
pub open spec fn is_kept(chapter: Option<Seq<char>>) -> bool {
    chapter is Some && is_substantial(chapter->0)
}

/// The chapters that are kept, in reading order.
pub open spec fn retained(chapters: Seq<Option<Seq<char>>>) -> Seq<Seq<char>>
    decreases chapters.len(),
{
    if chapters.len() == 0 {
        Seq::empty()
    } else if is_kept(chapters.last()) {
        retained(chapters.drop_last()).push(chapters.last()->0)
    } else {
        retained(chapters.drop_last())
    }
}

/// The name of the file that holds the chapter with the given number.
pub open spec fn chapter_name(number: nat) -> Seq<char> {
    "chapter_"@ + zero_padded(number, CHAPTER_NUMBER_WIDTH as nat) + ".md"@
}

/// The files of a book that is written one chapter each, as pairs of name
/// and content: the kept chapters in reading order, numbered from 1.
pub open spec fn chapter_files(chapters: Seq<Option<Seq<char>>>) -> Seq<(Seq<char>, Seq<char>)> {
    let kept = retained(chapters);
    Seq::new(kept.len(), |k: int| (chapter_name((k + 1) as nat), kept[k]))
}

/// What opens a merged document: the title as a heading, the author, and a
/// rule.
pub open spec fn merged_header(title: Seq<char>, author: Seq<char>) -> Seq<char> {
    "# "@ + title + "\n\n"@ + "**Author:** "@ + author + "\n\n"@ + "---\n\n"@
}

/// The kept chapters, each followed by a rule.
pub open spec fn merged_body(kept: Seq<Seq<char>>) -> Seq<char>
    decreases kept.len(),
{
    if kept.len() == 0 {
        Seq::empty()
    } else {
        merged_body(kept.drop_last()) + kept.last() + "\n\n---\n\n"@
    }
}

/// The content of a merged document.
pub open spec fn merged_content(
    title: Seq<char>,
    author: Seq<char>,
    chapters: Seq<Option<Seq<char>>>,
) -> Seq<char> {
    merged_header(title, author) + merged_body(retained(chapters))
}

/// The name of a merged document.
pub open spec fn merged_file_name(title: Seq<char>) -> Seq<char> {
    sanitized(title) + ".md"@
}

/// A file to be written: its name inside the output directory, and its
/// content.
#[derive(Debug, PartialEq, Eq)]
pub struct OutputFile {
    pub name: String,
    pub content: String,
}

impl DeepView for OutputFile {
    type V = (Seq<char>, Seq<char>);

    open spec fn deep_view(&self) -> (Seq<char>, Seq<char>) {
        (self.name@, self.content@)
    }
}

/// Tells whether a rendered chapter is kept: it is, unless fewer than
/// [`MIN_CHAPTER_CHARS`] characters are left once the white space at both
/// ends is gone.
pub fn has_content(markdown: &str) -> (keep: bool)
    ensures
        keep == is_substantial(markdown@),
{
    trim(markdown).unicode_len() >= MIN_CHAPTER_CHARS
}

/// Names the file of the chapter with the given number: `chapter_`, the
/// number padded with zeros to three digits, and `.md`.
pub fn chapter_filename(number: usize) -> (name: String)
    ensures
        name@ == chapter_name(number as nat),
{
    let mut name = "chapter_".to_owned();
    let digits = to_zero_padded(number, CHAPTER_NUMBER_WIDTH);
    name.append(digits.as_str());
    name.append(".md");
    name
}

/// Lays a book out as one file for each kept chapter.
///
/// The files come in reading order and are numbered from 1 without gaps: an
/// entry that is left out takes no number.
pub fn split_chapters(chapters: &Vec<Option<String>>) -> (files: Vec<OutputFile>)
    ensures
        files.deep_view() == chapter_files(chapters.deep_view()),
        files@.len() == retained(chapters.deep_view()).len(),
        files@.len() <= chapters@.len(),
        forall|k: int|
            0 <= k < files@.len() ==> (#[trigger] files@[k]).name@ == chapter_name(
                (k + 1) as nat,
            ),
{
    let ghost texts = chapters.deep_view();
    let mut files: Vec<OutputFile> = Vec::new();
    let mut i: usize = 0;
    while i < chapters.len()
        invariant
            i <= chapters.len(),
            texts == chapters.deep_view(),
            files@.len() <= i,
            files.deep_view() == chapter_files(texts.take(i as int)),
        decreases chapters.len() - i,
    {
        assert(texts.take(i + 1).drop_last() == texts.take(i as int));
        match &chapters[i] {
            Some(markdown) => {
                if has_content(markdown.as_str()) {
                    let ghost before = files.deep_view();
                    let name = chapter_filename(files.len() + 1);
                    files.push(OutputFile { name, content: markdown.clone() });
                    assert(files.deep_view() == before.push(
                        (chapter_name(before.len() + 1), markdown@),
                    ));
                }
            },
            None => {},
        }
        i += 1;
    }
    assert(texts.take(texts.len() as int) == texts);
    assert forall|k: int| 0 <= k < files@.len() implies (#[trigger] files@[k]).name@
        == chapter_name((k + 1) as nat) by {
        assert(files.deep_view()[k] == chapter_files(texts)[k]);
    }
    files
}

/// Joins the kept chapters of a book into the body of a merged document:
/// each chapter in reading order, followed by a rule.
pub fn merge_chapters(chapters: &Vec<Option<String>>) -> (body: String)
    ensures
        body@ == merged_body(retained(chapters.deep_view())),
{
    let ghost texts = chapters.deep_view();
    let mut body = String::new();
    let mut i: usize = 0;
    while i < chapters.len()
        invariant
            i <= chapters.len(),
            texts == chapters.deep_view(),
            body@ == merged_body(retained(texts.take(i as int))),
        decreases chapters.len() - i,
    {
        assert(texts.take(i + 1).drop_last() == texts.take(i as int));
        match &chapters[i] {
            Some(markdown) => {
                if has_content(markdown.as_str()) {
                    let ghost kept = retained(texts.take(i + 1));
                    assert(kept.drop_last() == retained(texts.take(i as int)));
                    body.append(markdown.as_str());
                    body.append("\n\n---\n\n");
                }
            },
            None => {},
        }
        i += 1;
    }
    assert(texts.take(texts.len() as int) == texts);
    body
}

/// Lays a book out as a single merged document, named after the title.
pub fn merged_document(
    title: &str,
    author: &str,
    chapters: &Vec<Option<String>>,
) -> (file: OutputFile)
    ensures
        file.name@ == merged_file_name(title@),
        file.content@ == merged_content(title@, author@, chapters.deep_view()),
{
    let mut name = sanitize_filename(title);
    name.append(".md");
    let mut content = "# ".to_owned();
    content.append(title);
    content.append("\n\n");
    content.append("**Author:** ");
    content.append(author);
    content.append("\n\n");
    content.append("---\n\n");
    let body = merge_chapters(chapters);
    content.append(body.as_str());
    OutputFile { name, content }
}

/// The files of a converted book, as pairs of name and content, in the
/// order in which they are written.
pub open spec fn book_files(
    title: Option<Seq<char>>,
    creators: Seq<Seq<char>>,
    chapters: Seq<Option<Seq<char>>>,
    single_file: bool,
) -> Seq<(Seq<char>, Seq<char>)> {
    if single_file {
        seq![
            (
                merged_file_name(shown_title(title)),
                merged_content(shown_title(title), shown_author(creators), chapters),
            ),
        ]
    } else {
        chapter_files(chapters)
    }
}

/// Converts the rendered chapters of a book into the files to write: one
/// merged document where `single_file` is set, one file for each kept
/// chapter where it is not.
pub fn convert_book(
    metadata: &BookMetadata,
    chapters: &Vec<Option<String>>,
    single_file: bool,
) -> (files: Vec<OutputFile>)
    ensures
        files.deep_view() == book_files(
            metadata.title.deep_view(),
            metadata.creators.deep_view(),
            chapters.deep_view(),
            single_file,
        ),
{
    if single_file {
        let title = metadata.display_title();
        let author = metadata.display_author();
        let file = merged_document(title.as_str(), author.as_str(), chapters);
        let mut files: Vec<OutputFile> = Vec::new();
        files.push(file);
        files
    } else {
        split_chapters(chapters)
    }
}

/// The line that reports a book in progress.
pub open spec fn progress_text(
    source: Seq<char>,
    title: Seq<char>,
    author: Seq<char>,
) -> Seq<char> {
    "  ["@ + source + "] Title: "@ + title + ", Author: "@ + author
}

/// Writes the line that reports a book in progress: the name of the source
/// file, then the title and the author as they are shown.
pub fn progress_line(source: &str, metadata: &BookMetadata) -> (line: String)
    ensures
        line@ == progress_text(
            source@,
            shown_title(metadata.title.deep_view()),
            shown_author(metadata.creators.deep_view()),
        ),
{
    let title = metadata.display_title();
    let author = metadata.display_author();
    let mut line = "  [".to_owned();
    line.append(source);
    line.append("] Title: ");
    line.append(title.as_str());
    line.append(", Author: ");
    line.append(author.as_str());
    line
}

/// What is said of a file that could not be written.
pub open spec fn write_failure_text(name: Seq<char>, single_file: bool) -> Seq<char> {
    if single_file {
        "Failed to write combined Markdown file"@
    } else {
        "Failed to write "@ + name
    }
}

/// Says which file of a book could not be written: the merged document, or
/// a chapter file by its name.
pub fn write_failure_context(file: &OutputFile, single_file: bool) -> (text: String)
    ensures
        text@ == write_failure_text(file.name@, single_file),
{
    if single_file {
        "Failed to write combined Markdown file".to_owned()
    } else {
        let mut text = "Failed to write ".to_owned();
        text.append(file.name.as_str());
        text
    }
}

/// Keeping chapters goes entry by entry: what is kept of two runs of entries,
/// one after the other, is what is kept of the first followed by what is kept
/// of the second.
pub proof fn lemma_retained_concat(first: Seq<Option<Seq<char>>>, second: Seq<Option<Seq<char>>>)
    ensures
        retained(first + second) == retained(first) + retained(second),
    decreases second.len(),
{
    if second.len() > 0 {
        assert((first + second).drop_last() == first + second.drop_last());
        lemma_retained_concat(first, second.drop_last());
    }
}

/// An entry that has no content, or whose content trims to fewer than
/// [`MIN_CHAPTER_CHARS`] characters, leaves no trace: wherever it stands in
/// the reading order, the files and the merged body are those of the book
/// without it, so it takes no chapter number.
pub proof fn lemma_skipped_entry_leaves_no_trace(
    before: Seq<Option<Seq<char>>>,
    entry: Option<Seq<char>>,
    after: Seq<Option<Seq<char>>>,
)
    requires
        entry is None || trimmed(entry->0).len() < MIN_CHAPTER_CHARS,
    ensures
        retained(before + seq![entry] + after) == retained(before + after),
        chapter_files(before + seq![entry] + after) == chapter_files(before + after),
        merged_body(retained(before + seq![entry] + after)) == merged_body(
            retained(before + after),
        ),
{
    assert(seq![entry].drop_last() == Seq::<Option<Seq<char>>>::empty());
    assert(retained(Seq::<Option<Seq<char>>>::empty()) == Seq::<Seq<char>>::empty());
    lemma_retained_concat(before, seq![entry]);
    lemma_retained_concat(before + seq![entry], after);
    lemma_retained_concat(before, after);
}

/// An entry whose content trims to at least [`MIN_CHAPTER_CHARS`] characters
/// is kept, and as the last entry of a book it becomes the file with the
/// next number: one more than the chapters kept before it, however many
/// entries were left out.
pub proof fn lemma_kept_entry_takes_next_number(
    before: Seq<Option<Seq<char>>>,
    markdown: Seq<char>,
)
    requires
        trimmed(markdown).len() >= MIN_CHAPTER_CHARS,
    ensures
        retained(before.push(Some(markdown))) == retained(before).push(markdown),
        chapter_files(before.push(Some(markdown))) == chapter_files(before).push(
            (chapter_name(retained(before).len() + 1), markdown),
        ),
        merged_body(retained(before.push(Some(markdown)))) == merged_body(retained(before))
            + markdown + "\n\n---\n\n"@,
{
    let all = before.push(Some(markdown));
    assert(all.drop_last() == before);
    assert(retained(all).drop_last() == retained(before));
}

} // verus!
