//! Conversion of e-book documents into Markdown: the rules that decide which
//! chapters are kept, how output files are named and laid out, what a book's
//! metadata record holds, and how a batch run is summarised.

pub mod text;
pub mod sanitize;
pub mod metadata;
pub mod convert;
pub mod paths;
pub mod batch;
pub mod dispatch;
