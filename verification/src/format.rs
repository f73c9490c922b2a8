//! The output format: a closed set of tags, its canonical lower-case
//! names, and inference of a format from an output path's file-name
//! extension.

use vstd::prelude::*;
use vstd::string::StrSliceExecFns;
use vstd::string::StringExecFns;
use crate::chars::{lower, last_occurrence};
use crate::chars::{eq_chars, eq_lowered, last_occurrence_from};
use crate::chars::{lemma_last_occurrence_is, lemma_last_occurrence_none, lemma_lower_idempotent};

verus! {

/// The output kind: an image format, or a rendering for the terminal.
#[derive(Clone, Copy, Debug, PartialEq, Eq, Structural)]
pub enum Format {
    Png,
    Jpeg,
    Gif,
    Bmp,
    Svg,
    Term,
}

/// The canonical lower-case name of a format.
pub open spec fn format_name(f: Format) -> Seq<char> {
    match f {
        Format::Png => "png"@,
        Format::Jpeg => "jpeg"@,
        Format::Gif => "gif"@,
        Format::Bmp => "bmp"@,
        Format::Svg => "svg"@,
        Format::Term => "term"@,
    }
}

/// The format whose canonical name is `s`, if any.
pub open spec fn format_of_name(s: Seq<char>) -> Option<Format> {
    if s == "png"@ {
        Some(Format::Png)
    } else if s == "jpeg"@ {
        Some(Format::Jpeg)
    } else if s == "gif"@ {
        Some(Format::Gif)
    } else if s == "bmp"@ {
        Some(Format::Bmp)
    } else if s == "svg"@ {
        Some(Format::Svg)
    } else if s == "term"@ {
        Some(Format::Term)
    } else {
        None
    }
}

/// The format a file-name extension stands for, read case-insensitively;
/// anything unrecognized counts as PNG.
pub open spec fn format_of_ext(e: Seq<char>) -> Format {
    let l = lower(e);
    if l == "png"@ {
        Format::Png
    } else if l == "jpg"@ || l == "jpeg"@ {
        Format::Jpeg
    } else if l == "gif"@ {
        Format::Gif
    } else if l == "bmp"@ {
        Format::Bmp
    } else if l == "svg"@ {
        Format::Svg
    } else {
        Format::Png
    }
}

impl Format {
    /// The canonical lower-case name, e.g. `"png"`.
    pub fn name(&self) -> (r: String)
        ensures
            r@ == format_name(*self),
    {
        match self {
            Format::Png => String::from_str("png"),
            Format::Jpeg => String::from_str("jpeg"),
            Format::Gif => String::from_str("gif"),
            Format::Bmp => String::from_str("bmp"),
            Format::Svg => String::from_str("svg"),
            Format::Term => String::from_str("term"),
        }
    }

    /// Parses a canonical lower-case name back into a format; any other
    /// string is rejected.
    pub fn from_name(s: &str) -> (r: Option<Format>)
        ensures
            r == format_of_name(s@),
    {
        if eq_chars(s, "png") {
            Some(Format::Png)
        } else if eq_chars(s, "jpeg") {
            Some(Format::Jpeg)
        } else if eq_chars(s, "gif") {
            Some(Format::Gif)
        } else if eq_chars(s, "bmp") {
            Some(Format::Bmp)
        } else if eq_chars(s, "svg") {
            Some(Format::Svg)
        } else if eq_chars(s, "term") {
            Some(Format::Term)
        } else {
            None
        }
    }
}

/// The final component of a path: everything after the last `/`, or the
/// whole path when it has none.
pub open spec fn file_name_of(path: Seq<char>) -> Seq<char> {
    path.subrange(last_occurrence(path, '/') + 1, path.len() as int)
}

/// The extension of a path's file name: what follows the last `.`, provided
/// that dot is preceded by at least one character (so a leading dot alone,
/// as in a hidden file, yields no extension).
pub open spec fn extension_of(path: Seq<char>) -> Option<Seq<char>> {
    let name = file_name_of(path);
    let d = last_occurrence(name, '.');
    if d >= 1 {
        Some(name.subrange(d + 1, name.len() as int))
    } else {
        None
    }
}

/// The format inferred from an output path: read off its extension, with
/// PNG for a path that has none.
pub open spec fn inferred_format(path: Seq<char>) -> Format {
    match extension_of(path) {
        Some(e) => format_of_ext(e),
        None => Format::Png,
    }
}

/// The extension of `path`, if it has one.
pub fn find_extension<'a>(path: &'a str) -> (r: Option<&'a str>)
    ensures
        match r {
            Some(e) => extension_of(path@) == Some(e@),
            None => extension_of(path@) is None,
        },
{
    let n = path.unicode_len();
    let slash = last_occurrence_from(path, '/', 0);
    let start: usize = match slash {
        Some(i) => {
            proof {
                lemma_last_occurrence_is(path@, '/', i as int);
            }
            i + 1
        },
        None => {
            proof {
                lemma_last_occurrence_none(path@, '/');
            }
            0
        },
    };
    let ghost name = file_name_of(path@);
    proof {
        assert(name =~= path@.subrange(start as int, n as int));
    }
    let dot = last_occurrence_from(path, '.', start);
    match dot {
        Some(k) => {
            if k > start {
                proof {
                    assert(name[k - start] == '.');
                    assert forall|j: int| k - start < j < name.len() implies name[j] != '.' by {
                        assert(name[j] == path@[start + j]);
                    }
                    lemma_last_occurrence_is(name, '.', k - start);
                }
                let e = path.substring_char(k + 1, n);
                proof {
                    assert(e@ =~= name.subrange(k - start + 1, name.len() as int));
                }
                Some(e)
            } else {
                proof {
                    assert(name[0] == '.');
                    assert forall|j: int| 0 < j < name.len() implies name[j] != '.' by {
                        assert(name[j] == path@[start + j]);
                    }
                    lemma_last_occurrence_is(name, '.', 0);
                }
                None
            }
        },
        None => {
            proof {
                assert forall|j: int| 0 <= j < name.len() implies name[j] != '.' by {
                    assert(name[j] == path@[start + j]);
                }
                lemma_last_occurrence_none(name, '.');
            }
            None
        },
    }
}

/// The format an output path calls for, by its extension.
pub fn infer_from_path(path: &str) -> (f: Format)
    ensures
        f == inferred_format(path@),
{
    match find_extension(path) {
        None => Format::Png,
        Some(e) => {
            if eq_lowered(e, "png") {
                Format::Png
            } else if eq_lowered(e, "jpg") {
                Format::Jpeg
            } else if eq_lowered(e, "jpeg") {
                Format::Jpeg
            } else if eq_lowered(e, "gif") {
                Format::Gif
            } else if eq_lowered(e, "bmp") {
                Format::Bmp
            } else if eq_lowered(e, "svg") {
                Format::Svg
            } else {
                Format::Png
            }
        },
    }
}

/// Reading an extension is insensitive to ASCII case: folding it first
/// changes nothing.
pub proof fn lemma_ext_case_insensitive(e: Seq<char>)
    ensures
        format_of_ext(lower(e)) == format_of_ext(e),
{
    lemma_lower_idempotent(e);
}

/// Law: stringification and parsing are stable — every canonical name
/// parses back to the format it names.
pub proof fn lemma_name_round_trip(f: Format)
    ensures
        format_of_name(format_name(f)) == Some(f),
{
    reveal_strlit("png");
    reveal_strlit("jpeg");
    reveal_strlit("gif");
    reveal_strlit("bmp");
    reveal_strlit("svg");
    reveal_strlit("term");
    assert("png"@[0] == 'p');
    assert("jpeg"@[0] == 'j');
    assert("gif"@[0] == 'g');
    assert("bmp"@[0] == 'b');
    assert("svg"@[0] == 's');
    assert("term"@[0] == 't');
}

/// The recognized extensions map exhaustively, each to its own format.
pub proof fn lemma_extension_table(e: Seq<char>)
    ensures
        lower(e) == "png"@ ==> format_of_ext(e) == Format::Png,
        lower(e) == "jpg"@ ==> format_of_ext(e) == Format::Jpeg,
        lower(e) == "jpeg"@ ==> format_of_ext(e) == Format::Jpeg,
        lower(e) == "gif"@ ==> format_of_ext(e) == Format::Gif,
        lower(e) == "bmp"@ ==> format_of_ext(e) == Format::Bmp,
        lower(e) == "svg"@ ==> format_of_ext(e) == Format::Svg,
{
    reveal_strlit("png");
    reveal_strlit("jpg");
    reveal_strlit("jpeg");
    reveal_strlit("gif");
    reveal_strlit("bmp");
    reveal_strlit("svg");
    assert("png"@[0] == 'p');
    assert("jpg"@[0] == 'j');
    assert("jpeg"@[0] == 'j');
    assert("jpeg"@.len() == 4);
    assert("gif"@[0] == 'g');
    assert("bmp"@[0] == 'b');
    assert("svg"@[0] == 's');
}

/// A path without an extension falls back to PNG.
pub proof fn lemma_missing_extension_is_png(path: Seq<char>)
    requires
        extension_of(path) is None,
    ensures
        inferred_format(path) == Format::Png,
{
}

/// Any extension outside the recognized table falls back to PNG.
pub proof fn lemma_unrecognized_ext_is_png(e: Seq<char>)
    requires
        lower(e) != "png"@,
        lower(e) != "jpg"@,
        lower(e) != "jpeg"@,
        lower(e) != "gif"@,
        lower(e) != "bmp"@,
        lower(e) != "svg"@,
    ensures
        format_of_ext(e) == Format::Png,
{
}

} // verus!
