//! The descriptive record of a book and how it is read from a document.

use vstd::prelude::*;

verus! {

/// One metadata statement of a document: a property name and its value.
#[derive(Debug, PartialEq, Eq)]
pub struct MetadataItem {
    pub property: String,
    pub value: String,
}

/// One node of a document's navigation tree.
#[derive(Debug, PartialEq, Eq)]
pub struct NavPoint {
    /// The title shown for this node.
    pub label: String,
    /// The resource that the node points to.
    pub content: String,
    /// The nodes nested under this one, in document order.
    pub children: Vec<NavPoint>,
}

/// What an opened document exposes about itself.
#[derive(Debug, PartialEq, Eq)]
pub struct Document {
    /// The metadata statements, in document order.
    pub metadata: Vec<MetadataItem>,
    /// The format version, as the document reports it.
    pub version: String,
    /// The release identifier, where the document has one.
    pub release_identifier: Option<String>,
    /// The number of entries in the reading order.
    pub spine_length: usize,
    /// The navigation tree.
    pub toc: Vec<NavPoint>,
}

/// One entry of a table of contents.
#[derive(Debug, PartialEq, Eq)]
pub struct TocEntry {
    pub label: String,
    pub children: Vec<TocEntry>,
}

/// The descriptive record of a book.
#[derive(Debug, PartialEq, Eq)]
pub struct BookMetadata {
    pub title: Option<String>,
    pub creators: Vec<String>,
    pub language: Option<String>,
    pub description: Option<String>,
    pub publisher: Option<String>,
    pub date: Option<String>,
    pub subjects: Vec<String>,
    pub identifier: Option<String>,
    pub rights: Option<String>,
    pub contributors: Vec<String>,
    pub source: Option<String>,
    pub epub_version: String,
    pub release_identifier: Option<String>,
    pub chapter_count: usize,
    pub toc: Vec<TocEntry>,
}

/// The shape of a table of contents: the labels, their order and their
/// nesting.
pub struct Outline {
    pub label: Seq<char>,
    pub children: Seq<Outline>,
}

impl NavPoint {
    /// The labels of this node and of everything under it.
    pub open spec fn outline(self) -> Outline
        decreases self,
    {
        Outline {
            label: self.label@,
            children: Seq::new(
                self.children@.len(),
                |i: int|
                    if 0 <= i < self.children@.len() {
                        self.children@[i].outline()
                    } else {
                        arbitrary()
                    },
            ),
        }
    }
}

impl TocEntry {
    /// The labels of this entry and of everything under it.
    pub open spec fn outline(self) -> Outline
        decreases self,
    {
        Outline {
            label: self.label@,
            children: Seq::new(
                self.children@.len(),
                |i: int|
                    if 0 <= i < self.children@.len() {
                        self.children@[i].outline()
                    } else {
                        arbitrary()
                    },
            ),
        }
    }
}

/// The outlines of a run of navigation nodes.
pub open spec fn nav_outlines(points: Seq<NavPoint>) -> Seq<Outline> {
    Seq::new(points.len(), |i: int| points[i].outline())
}

/// The outlines of a run of table-of-contents entries.
pub open spec fn toc_outlines(entries: Seq<TocEntry>) -> Seq<Outline> {
    Seq::new(entries.len(), |i: int| entries[i].outline())
}

/// The value of the first statement about `property`, if there is one.
pub open spec fn first_value(items: Seq<MetadataItem>, property: Seq<char>) -> Option<Seq<char>>
    decreases items.len(),
{
    if items.len() == 0 {
        None
    } else if items.first().property@ == property {
        Some(items.first().value@)
    } else {
        first_value(items.drop_first(), property)
    }
}

/// The values of all statements about `property`, in document order.
pub open spec fn all_values(items: Seq<MetadataItem>, property: Seq<char>) -> Seq<Seq<char>>
    decreases items.len(),
{
    if items.len() == 0 {
        Seq::empty()
    } else if items.last().property@ == property {
        all_values(items.drop_last(), property).push(items.last().value@)
    } else {
        all_values(items.drop_last(), property)
    }
}

/// A single-valued reading of a property is the first of its multi-valued
/// reading: absent exactly where there are no values at all.
pub proof fn lemma_first_value_heads_all_values(items: Seq<MetadataItem>, property: Seq<char>)
    ensures
        first_value(items, property) == if all_values(items, property).len() == 0 {
            None
        } else {
            Some(all_values(items, property).first())
        },
    decreases items.len(),
{
    if items.len() > 0 {
        let front = items.drop_last();
        lemma_first_value_heads_all_values(front, property);
        lemma_first_value_push(front, items.last(), property);
        assert(front.push(items.last()) == items);
    }
}

/// What one more statement at the end does to a single-valued reading: it
/// counts only where no earlier statement is about the property.
proof fn lemma_first_value_push(items: Seq<MetadataItem>, last: MetadataItem, property: Seq<char>)
    ensures
        first_value(items.push(last), property) == match first_value(items, property) {
            Some(v) => Some(v),
            None => if last.property@ == property {
                Some(last.value@)
            } else {
                None
            },
        },
    decreases items.len(),
{
    let all = items.push(last);
    if items.len() == 0 {
        assert(all.drop_first() == items);
    } else {
        assert(all.drop_first() == items.drop_first().push(last));
        lemma_first_value_push(items.drop_first(), last, property);
    }
}

/// Reads a single-valued property: the first statement about it wins, and a
/// document that says nothing about it yields `None`.
pub fn get_value(items: &Vec<MetadataItem>, property: &str) -> (value: Option<String>)
    ensures
        value.deep_view() == first_value(items@, property@),
{
    let wanted = property.to_owned();
    let mut i: usize = 0;
    assert(items@.skip(0) == items@);
    while i < items.len()
        invariant
            i <= items.len(),
            wanted@ == property@,
            first_value(items@, property@) == first_value(items@.skip(i as int), property@),
        decreases items.len() - i,
    {
        if items[i].property == wanted {
            return Some(items[i].value.clone());
        }
        assert(items@.skip(i as int).drop_first() == items@.skip(i + 1));
        i += 1;
    }
    None
}

/// Reads a multi-valued property: every statement about it counts, in
/// document order, and a document that says nothing about it yields an empty
/// list.
pub fn get_all_values(items: &Vec<MetadataItem>, property: &str) -> (values: Vec<String>)
    ensures
        values.deep_view() == all_values(items@, property@),
{
    let wanted = property.to_owned();
    let mut values: Vec<String> = Vec::new();
    let mut i: usize = 0;
    while i < items.len()
        invariant
            i <= items.len(),
            wanted@ == property@,
            values.deep_view() == all_values(items@.take(i as int), property@),
        decreases items.len() - i,
    {
        assert(items@.take(i + 1).drop_last() == items@.take(i as int));
        if items[i].property == wanted {
            values.push(items[i].value.clone());
        }
        i += 1;
    }
    assert(items@.take(items@.len() as int) == items@);
    values
}

/// Turns a navigation tree into a table of contents: every node becomes an
/// entry with the same label, in the same place.
pub fn convert_toc(points: &Vec<NavPoint>) -> (entries: Vec<TocEntry>)
    ensures
        toc_outlines(entries@) == nav_outlines(points@),
    decreases points,
{
    let mut entries: Vec<TocEntry> = Vec::new();
    let mut i: usize = 0;
    while i < points.len()
        invariant
            i <= points.len(),
            entries@.len() == i,
            forall|j: int| 0 <= j < i ==> (#[trigger] entries@[j]).outline() == points@[j].outline(),
        decreases points.len() - i,
    {
        let point = &points[i];
        let children = convert_toc(&point.children);
        let entry = TocEntry { label: point.label.clone(), children };
        assert(entry.outline() == point.outline()) by {
            assert(entry.outline().children =~= toc_outlines(entry.children@));
            assert(point.outline().children =~= nav_outlines(point.children@));
        }
        entries.push(entry);
        i += 1;
    }
    entries
}

/// Reads the descriptive record of a book from its document.
///
/// Single-valued fields take the first statement about their property,
/// multi-valued fields take all of them in document order, and a property
/// that the document does not mention leaves its field absent or empty. The
/// chapter count is the length of the reading order.
pub fn extract_metadata(doc: &Document) -> (record: BookMetadata)
    ensures
        record.title.deep_view() == first_value(doc.metadata@, "title"@),
        record.creators.deep_view() == all_values(doc.metadata@, "creator"@),
        record.language.deep_view() == first_value(doc.metadata@, "language"@),
        record.description.deep_view() == first_value(doc.metadata@, "description"@),
        record.publisher.deep_view() == first_value(doc.metadata@, "publisher"@),
        record.date.deep_view() == first_value(doc.metadata@, "date"@),
        record.subjects.deep_view() == all_values(doc.metadata@, "subject"@),
        record.identifier.deep_view() == first_value(doc.metadata@, "identifier"@),
        record.rights.deep_view() == first_value(doc.metadata@, "rights"@),
        record.contributors.deep_view() == all_values(doc.metadata@, "contributor"@),
        record.source.deep_view() == first_value(doc.metadata@, "source"@),
        record.epub_version@ == doc.version@,
        record.release_identifier.deep_view() == doc.release_identifier.deep_view(),
        record.chapter_count == doc.spine_length,
        toc_outlines(record.toc@) == nav_outlines(doc.toc@),
{
    let release_identifier = match &doc.release_identifier {
        Some(id) => Some(id.clone()),
        None => None,
    };
    BookMetadata {
        title: get_value(&doc.metadata, "title"),
        creators: get_all_values(&doc.metadata, "creator"),
        language: get_value(&doc.metadata, "language"),
        description: get_value(&doc.metadata, "description"),
        publisher: get_value(&doc.metadata, "publisher"),
        date: get_value(&doc.metadata, "date"),
        subjects: get_all_values(&doc.metadata, "subject"),
        identifier: get_value(&doc.metadata, "identifier"),
        rights: get_value(&doc.metadata, "rights"),
        contributors: get_all_values(&doc.metadata, "contributor"),
        source: get_value(&doc.metadata, "source"),
        epub_version: doc.version.clone(),
        release_identifier,
        chapter_count: doc.spine_length,
        toc: convert_toc(&doc.toc),
    }
}

/// The title to show for a book whose record may lack one.
pub open spec fn shown_title(title: Option<Seq<char>>) -> Seq<char> {
    match title {
        Some(t) => t,
        None => "Unknown Title"@,
    }
}

/// The author to show for a book: its first creator, where it has one.
pub open spec fn shown_author(creators: Seq<Seq<char>>) -> Seq<char> {
    if creators.len() > 0 {
        creators.first()
    } else {
        "Unknown Author"@
    }
}

impl BookMetadata {
    /// The title to show: the recorded one, or `Unknown Title` where the
    /// record has none.
    pub fn display_title(&self) -> (title: String)
        ensures
            title@ == shown_title(self.title.deep_view()),
    {
        match &self.title {
            Some(t) => t.clone(),
            None => "Unknown Title".to_owned(),
        }
    }

    /// The author to show: the first recorded creator, or `Unknown Author`
    /// where the record has none.
    pub fn display_author(&self) -> (author: String)
        ensures
            author@ == shown_author(self.creators.deep_view()),
    {
        if self.creators.len() > 0 {
            self.creators[0].clone()
        } else {
            "Unknown Author".to_owned()
        }
    }
}

} // verus!
