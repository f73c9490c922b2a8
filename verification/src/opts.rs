//! The resolved configuration, and the policy that derives an output
//! format and destination from the three signals a user may give: the
//! input source, an optional output path, and an optional explicit format.

use vstd::prelude::*;
use vstd::string::StrSliceExecFns;
use vstd::string::StringExecFns;
use crate::format::{Format, format_name, inferred_format, infer_from_path};
use crate::source::{Source, source_of};

verus! {

/// Where the output goes.
#[derive(Clone, Debug, PartialEq, Eq)]
pub enum Target {
    /// Write to standard output.
    Stdout,
    /// Write to the file at this path.
    File(String),
}

/// The raw parse of the command line, before resolution: every signal is
/// still optional.
#[derive(Clone, Debug, PartialEq, Eq)]
pub struct RawOpts {
    pub format: Option<Format>,
    pub output: Option<String>,
    pub text: Option<String>,
    pub file: Option<String>,
}

/// A configuration the raw command line is rejected for.
#[derive(Clone, Copy, Debug, PartialEq, Eq, Structural)]
pub enum ConfigError {
    /// A literal string and an input file were both supplied.
    ConflictingInputs,
}

/// The fully resolved configuration: constructed once, never mutated.
#[derive(Clone, Debug, PartialEq, Eq)]
pub struct Opts {
    pub format: Format,
    pub target: Target,
    pub source: Source,
}

/// The target writes to a file whose path reads `p`.
pub open spec fn is_file_named(t: Target, p: Seq<char>) -> bool {
    t matches Target::File(q) && q@ == p
}

/// The resolution table: `(f, t)` is the one correct answer for the three
/// signals. Precedence, first match wins: a file source alone converts to
/// PNG under the default name; any other source alone previews on the
/// terminal; an output path alone fixes the destination and the extension
/// picks the format; an explicit terminal format goes to standard output;
/// an explicit image format alone synthesizes the default file name; and
/// when both a path and a format are given, each is taken verbatim.
pub open spec fn resolved(
    source: Source,
    output: Option<String>,
    fmt: Option<Format>,
    f: Format,
    t: Target,
) -> bool {
    match (source, output, fmt) {
        (Source::File(_), None, None) => f == Format::Png && is_file_named(t, "a.png"@),
        (_, None, None) => f == Format::Term && t == Target::Stdout,
        (_, Some(s), None) => f == inferred_format(s@) && is_file_named(t, s@),
        (_, None, Some(Format::Term)) => f == Format::Term && t == Target::Stdout,
        (_, None, Some(g)) => f == g && is_file_named(t, "a."@ + format_name(g)),
        (_, Some(s), Some(g)) => f == g && is_file_named(t, s@),
    }
}

/// Derives the output format and destination from the three signals, by
/// the resolution table.
pub fn resolve(source: &Source, output: Option<String>, fmt: Option<Format>) -> (r: (
    Format,
    Target,
))
    ensures
        resolved(*source, output, fmt, r.0, r.1),
{
    match (output, fmt) {
        (None, None) => match source {
            Source::File(_) => (Format::Png, (Target::File(String::from_str("a.png")))),
            _ => (Format::Term, Target::Stdout),
        },
        (Some(s), None) => {
            let f = infer_from_path(s.as_str());
            (f, Target::File(s))
        },
        (None, Some(g)) => match g {
            Format::Term => (Format::Term, Target::Stdout),
            _ => {
                let mut p = String::from_str("a.");
                let nm = g.name();
                p.append(nm.as_str());
                (g, Target::File(p))
            },
        },
        (Some(s), Some(g)) => (g, Target::File(s)),
    }
}

impl Opts {
    /// Validates the raw parse and resolves it: rejects a command line
    /// that supplies both a literal string and an input file, and
    /// otherwise builds the source and applies the resolution table.
    pub fn from_raw(raw: RawOpts) -> (r: Result<Opts, ConfigError>)
        ensures
            r is Err <==> (raw.text is Some && raw.file is Some),
            r is Err ==> r == Result::<Opts, ConfigError>::Err(ConfigError::ConflictingInputs),
            r matches Ok(o) ==> o.source == source_of(raw.text, raw.file) && resolved(
                o.source,
                raw.output,
                raw.format,
                o.format,
                o.target,
            ),
    {
        let RawOpts { format, output, text, file } = raw;
        if text.is_some() && file.is_some() {
            return Err(ConfigError::ConflictingInputs);
        }
        let source = Source::with_file(text, file);
        let (f, t) = resolve(&source, output, format);
        Ok(Opts { format: f, target: t, source })
    }
}

/// Builds the resolved configuration for one run, from the raw parse.
pub fn init(raw: RawOpts) -> (r: Result<Opts, ConfigError>)
    ensures
        r is Err <==> (raw.text is Some && raw.file is Some),
        r is Err ==> r == Result::<Opts, ConfigError>::Err(ConfigError::ConflictingInputs),
        r matches Ok(o) ==> o.source == source_of(raw.text, raw.file) && resolved(
            o.source,
            raw.output,
            raw.format,
            o.format,
            o.target,
        ),
{
    Opts::from_raw(raw)
}

/// Law: an explicit format always wins over extension inference, and the
/// explicit output path is kept verbatim, never rewritten.
pub proof fn lemma_explicit_format_wins(source: Source, out: String, g: Format, f: Format, t: Target)
    requires
        resolved(source, Some(out), Some(g), f, t),
    ensures
        f == g,
        is_file_named(t, out@),
{
}

/// Law: an explicit image format with no output path synthesizes the
/// default file name from the format's canonical lower-case name.
pub proof fn lemma_default_filename(source: Source, g: Format, f: Format, t: Target)
    requires
        g != Format::Term,
        resolved(source, None::<String>, Some(g), f, t),
    ensures
        f == g,
        is_file_named(t, "a."@ + format_name(g)),
{
}

/// Law: the resolution table is deterministic — for fixed signals there is
/// exactly one correct format, and one destination up to the path's text.
pub proof fn lemma_resolution_deterministic(
    source: Source,
    output: Option<String>,
    fmt: Option<Format>,
    f1: Format,
    t1: Target,
    f2: Format,
    t2: Target,
)
    requires
        resolved(source, output, fmt, f1, t1),
        resolved(source, output, fmt, f2, t2),
    ensures
        f1 == f2,
        t1 is Stdout <==> t2 is Stdout,
        t1 matches Target::File(p1) ==> (t2 matches Target::File(p2) && p1@ == p2@),
{
}

} // verus!
