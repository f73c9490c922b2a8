//! The input source: the text to encode comes from a literal argument, a
//! file, or the interactive input stream.

use vstd::prelude::*;
use vstd::string::StrSliceExecFns;
use vstd::string::StringSliceAdditionalSpecFns;
use vstd::utf8::encode_utf8;

verus! {

/// Where the text to encode comes from.
#[derive(Clone, Debug, PartialEq, Eq)]
pub enum Source {
    /// A literal string from the arguments.
    Text(String),
    /// A file to read.
    File(String),
    /// A line read interactively from standard input.
    Stdin,
}

/// The source that a pair of optional flags selects: literal text first,
/// then a file, then the interactive stream.
pub open spec fn source_of(text: Option<String>, file: Option<String>) -> Source {
    match (text, file) {
        (Some(t), _) => Source::Text(t),
        (None, Some(p)) => Source::File(p),
        (None, None) => Source::Stdin,
    }
}

impl Source {
    /// Creates a `Source` from an optional literal string: text when it is
    /// given, the interactive stream when it is not.
    pub fn new(text: Option<String>) -> (r: Source)
        ensures
            r == source_of(text, None::<String>),
    {
        if let Some(t) = text {
            Source::Text(t)
        } else {
            Source::Stdin
        }
    }

    /// Creates a `Source` from both flags of the file-capable command line;
    /// literal text takes precedence over a file path.
    pub fn with_file(text: Option<String>, file: Option<String>) -> (r: Source)
        ensures
            r == source_of(text, file),
    {
        match (text, file) {
            (Some(t), _) => Source::Text(t),
            (None, Some(p)) => Source::File(p),
            (None, None) => Source::Stdin,
        }
    }
}

/// The UTF-8 bytes of a literal string, unchanged: nothing is stripped and
/// nothing is appended.
pub fn text(s: String) -> (r: Vec<u8>)
    ensures
        r@ == encode_utf8(s@),
{
    s.as_str().as_bytes_vec()
}

} // verus!
