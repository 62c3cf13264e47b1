//! Converting every book under a directory: which files count as books,
//! where the output of each goes, and how the run is summed up.

use vstd::prelude::*;
use crate::paths::{
    batch_output_dir, file_name, has_epub_extension, is_epub_name, output_dir_in_batch, path_view,
};
use crate::text::{decimal, to_decimal};

verus! {

/// An entry met while walking a directory tree.
#[derive(Debug, PartialEq, Eq)]
pub struct FoundEntry {
    /// The entry's path, as components.
    pub path: Vec<String>,
    /// Whether the entry is a regular file.
    pub is_file: bool,
}

impl DeepView for FoundEntry {
    type V = (Seq<Seq<char>>, bool);

    open spec fn deep_view(&self) -> (Seq<Seq<char>>, bool) {
        (self.path.deep_view(), self.is_file)
    }
}

/// One book to convert: where it is, and where its output goes.
#[derive(Debug, PartialEq, Eq)]
pub struct Job {
    pub source: Vec<String>,
    pub output_dir: Vec<String>,
}

impl DeepView for Job {
    type V = (Seq<Seq<char>>, Seq<Seq<char>>);

    open spec fn deep_view(&self) -> (Seq<Seq<char>>, Seq<Seq<char>>) {
        (self.source.deep_view(), self.output_dir.deep_view())
    }
}

/// How the conversion of one file ended.
#[derive(Debug, PartialEq, Eq)]
pub enum ConversionResult {
    /// The book was converted.
    Converted,
    /// The conversion failed; the text says why.
    Failed(String),
}

/// The counts of a batch run.
#[derive(Debug, Clone, Copy, PartialEq, Eq)]
pub struct BatchSummary {
    pub success_count: usize,
    pub error_count: usize,
}

/// Why a batch run as a whole failed.
#[derive(Debug, Clone, Copy, PartialEq, Eq)]
pub enum BatchError {
    /// The directory holds no book.
    NoEpubFiles,
    /// This many books could not be converted.
    FilesFailed(usize),
}

/// Whether an entry is a book: a regular file whose name has the extension
/// `epub`.
pub open spec fn is_epub_entry(entry: (Seq<Seq<char>>, bool)) -> bool {
    entry.1 && is_epub_name(file_name(entry.0))
}

/// The paths of the books among the entries, in the order in which they
/// were met.
pub open spec fn epub_files(entries: Seq<(Seq<Seq<char>>, bool)>) -> Seq<Seq<Seq<char>>>
    decreases entries.len(),
{
    if entries.len() == 0 {
        Seq::empty()
    } else if is_epub_entry(entries.last()) {
        epub_files(entries.drop_last()).push(entries.last().0)
    } else {
        epub_files(entries.drop_last())
    }
}

/// The jobs of a batch run: one for each book, in the order of discovery.
pub open spec fn batch_jobs(
    root: Seq<Seq<char>>,
    files: Seq<Seq<Seq<char>>>,
    base: Option<Seq<Seq<char>>>,
) -> Seq<(Seq<Seq<char>>, Seq<Seq<char>>)> {
    Seq::new(files.len(), |i: int| (files[i], batch_output_dir(root, files[i], base)))
}

/// The number of conversions that failed.
pub open spec fn failures(results: Seq<ConversionResult>) -> nat
    decreases results.len(),
{
    if results.len() == 0 {
        0
    } else if results.last() is Failed {
        failures(results.drop_last()) + 1
    } else {
        failures(results.drop_last())
    }
}

/// Tells whether an entry is a book.
pub fn is_epub_file(entry: &FoundEntry) -> (b: bool)
    ensures
        b == is_epub_entry(entry.deep_view()),
{
    if !entry.is_file {
        return false;
    }
    let n = entry.path.len();
    if n == 0 {
        return false;
    }
    has_epub_extension(entry.path[n - 1].as_str())
}

/// Picks the books out of the entries of a directory walk: the regular
/// files whose extension is exactly `epub`, in the order in which they were
/// met.
pub fn find_epub_files(entries: &Vec<FoundEntry>) -> (files: Vec<Vec<String>>)
    ensures
        files.deep_view() == epub_files(entries.deep_view()),
{
    let ghost all = entries.deep_view();
    let mut files: Vec<Vec<String>> = Vec::new();
    let mut i: usize = 0;
    while i < entries.len()
        invariant
            i <= entries.len(),
            all == entries.deep_view(),
            files.deep_view() == epub_files(all.take(i as int)),
        decreases entries.len() - i,
    {
        assert(all.take(i + 1).drop_last() == all.take(i as int));
        if is_epub_file(&entries[i]) {
            files.push(clone_path(&entries[i].path));
        }
        i += 1;
    }
    assert(all.take(all.len() as int) == all);
    files
}

/// Copies a path.
fn clone_path(path: &Vec<String>) -> (copy: Vec<String>)
    ensures
        copy.deep_view() == path.deep_view(),
{
    let mut copy: Vec<String> = Vec::new();
    let mut i: usize = 0;
    while i < path.len()
        invariant
            i <= path.len(),
            copy.deep_view() == path.deep_view().take(i as int),
        decreases path.len() - i,
    {
        let ghost before = copy.deep_view();
        copy.push(path[i].clone());
        assert(copy.deep_view() == before.push(path@[i as int]@));
        i += 1;
    }
    copy
}

/// Plans a batch run over the entries found under `root`.
///
/// Fails with [`BatchError::NoEpubFiles`] exactly where no entry is a book.
/// Otherwise there is one job for each book, in the order of discovery, and
/// each job's output directory is the one that the book's place under the
/// root and the output base call for.
pub fn plan_directory(
    root: &Vec<String>,
    entries: &Vec<FoundEntry>,
    base: Option<&Vec<String>>,
) -> (plan: Result<Vec<Job>, BatchError>)
    ensures
        epub_files(entries.deep_view()).len() == 0 <==> plan is Err,
        plan is Err ==> plan->Err_0 == BatchError::NoEpubFiles,
        plan is Ok ==> plan->Ok_0.deep_view() == batch_jobs(
            root.deep_view(),
            epub_files(entries.deep_view()),
            path_view(base),
        ),
{
    let files = find_epub_files(entries);
    if files.len() == 0 {
        return Err(BatchError::NoEpubFiles);
    }
    let ghost found = files.deep_view();
    let mut jobs: Vec<Job> = Vec::new();
    let mut i: usize = 0;
    while i < files.len()
        invariant
            i <= files.len(),
            found == files.deep_view(),
            jobs@.len() == i,
            forall|j: int|
                0 <= j < i ==> (#[trigger] jobs@[j]).deep_view() == (
                    found[j],
                    batch_output_dir(root.deep_view(), found[j], path_view(base)),
                ),
        decreases files.len() - i,
    {
        let output_dir = output_dir_in_batch(root, &files[i], base);
        let source = clone_path(&files[i]);
        jobs.push(Job { source, output_dir });
        i += 1;
    }
    Ok(jobs)
}

/// Counts how the conversions of a batch ended: every result is counted
/// once, as a success or as a failure.
pub fn summarize(results: &Vec<ConversionResult>) -> (summary: BatchSummary)
    ensures
        summary.error_count == failures(results@),
        summary.success_count + summary.error_count == results@.len(),
{
    let mut success_count: usize = 0;
    let mut error_count: usize = 0;
    let mut i: usize = 0;
    while i < results.len()
        invariant
            i <= results.len(),
            error_count == failures(results@.take(i as int)),
            success_count + error_count == i,
        decreases results.len() - i,
    {
        assert(results@.take(i + 1).drop_last() == results@.take(i as int));
        match &results[i] {
            ConversionResult::Converted => {
                success_count += 1;
            },
            ConversionResult::Failed(_) => {
                error_count += 1;
            },
        }
        i += 1;
    }
    assert(results@.take(results@.len() as int) == results@);
    BatchSummary { success_count, error_count }
}

impl BatchSummary {
    /// The outcome of the run as a whole: it fails exactly where at least
    /// one conversion failed, and the error tells how many did.
    pub fn outcome(&self) -> (r: Result<(), BatchError>)
        ensures
            r is Ok <==> self.error_count == 0,
            r is Err ==> r->Err_0 == BatchError::FilesFailed(self.error_count),
    {
        if self.error_count > 0 {
            Err(BatchError::FilesFailed(self.error_count))
        } else {
            Ok(())
        }
    }
}

/// What a batch error says, given how the directory is shown.
pub open spec fn batch_error_text(error: BatchError, directory: Seq<char>) -> Seq<char> {
    match error {
        BatchError::NoEpubFiles => "No EPUB files found in directory: "@ + directory,
        BatchError::FilesFailed(n) => decimal(n as nat) + " EPUB file(s) failed to process"@,
    }
}

impl BatchError {
    /// Describes the error in words; `directory` is the directory as it is
    /// shown to the user.
    pub fn message(&self, directory: &str) -> (text: String)
        ensures
            text@ == batch_error_text(*self, directory@),
    {
        match self {
            BatchError::NoEpubFiles => {
                let mut text = "No EPUB files found in directory: ".to_owned();
                text.append(directory);
                text
            },
            BatchError::FilesFailed(n) => {
                let mut text = to_decimal(*n);
                text.append(" EPUB file(s) failed to process");
                text
            },
        }
    }
}

} // verus!
