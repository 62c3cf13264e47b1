//! What a run does with the input it is given.

use vstd::prelude::*;
use crate::paths::{file_name, has_epub_extension, is_epub_name};

verus! {

/// What a run does.
#[derive(Debug, Clone, Copy, PartialEq, Eq)]
pub enum Mode {
    /// Convert every book under the input directory.
    Directory,
    /// Convert the one input file.
    SingleFile,
}

/// Why an input is turned down before any work begins.
#[derive(Debug, Clone, Copy, PartialEq, Eq)]
pub enum InputError {
    /// Nothing exists at the input path.
    NotFound,
    /// The input is a file whose extension is not `epub`.
    NotEpub,
}

/// What a run does with an input, or why it does nothing.
pub open spec fn resolved(
    exists: bool,
    is_dir: bool,
    input: Seq<Seq<char>>,
) -> Result<Mode, InputError> {
    if !exists {
        Err(InputError::NotFound)
    } else if is_dir {
        Ok(Mode::Directory)
    } else if is_epub_name(file_name(input)) {
        Ok(Mode::SingleFile)
    } else {
        Err(InputError::NotEpub)
    }
}

/// Decides what a run does with its input.
///
/// `exists` and `is_dir` say what the file system holds at the input path.
/// A path at which nothing exists is turned down; a directory is converted
/// as a batch; a file is converted where its extension is exactly `epub`,
/// and turned down where it is not.
pub fn resolve_input(
    exists: bool,
    is_dir: bool,
    input: &Vec<String>,
) -> (r: Result<Mode, InputError>)
    ensures
        r == resolved(exists, is_dir, input.deep_view()),
{
    if !exists {
        Err(InputError::NotFound)
    } else if is_dir {
        Ok(Mode::Directory)
    } else {
        let n = input.len();
        if n > 0 && has_epub_extension(input[n - 1].as_str()) {
            Ok(Mode::SingleFile)
        } else {
            Err(InputError::NotEpub)
        }
    }
}

/// What an input error says, given how the input path is shown.
pub open spec fn input_error_text(error: InputError, input: Seq<char>) -> Seq<char> {
    match error {
        InputError::NotFound => "Input path does not exist: "@ + input,
        InputError::NotEpub => "Input file must have .epub extension"@,
    }
}

impl InputError {
    /// Describes the error in words; `input` is the input path as it is
    /// shown to the user.
    pub fn message(&self, input: &str) -> (text: String)
        ensures
            text@ == input_error_text(*self, input@),
    {
        match self {
            InputError::NotFound => {
                let mut text = "Input path does not exist: ".to_owned();
                text.append(input);
                text
            },
            InputError::NotEpub => "Input file must have .epub extension".to_owned(),
        }
    }
}

} // verus!
