//! Command routing: from a parsed invocation to the operation to run, and
//! from an operation's outcome to console text and an exit code.
//!
//! The loader calls themselves (reading a file, parsing and evaluating
//! Nickel source) are outside work performed by the binary around this
//! library; every decision before and after them is made here, so that the
//! output text and the exit code are functions of the command and of the
//! outcomes alone.

use vstd::prelude::*;
use vstd::string::*;
use crate::error::{kind_of, display_spec, suggestion_spec, Error};
use crate::formatter::{compact_json_of, format_result_matches, format_value, pretty_json_of};

verus! {

/// One invocation's intent, as parsed from the command line.
pub enum Command {
    /// Parse and evaluate a file, then print the result as JSON.
    Parse { file: String, pretty: bool },
    /// Check a file's syntax and types without evaluating it.
    Validate { file: String },
    /// Print version and compliance information.
    Info,
    /// No subcommand given: print the help text.
    NoCommand,
}

/// The first step a command asks for: either outside work for the binary to
/// perform, or text that is already the answer.
pub enum Action {
    /// Have the engine read, parse and evaluate the file.
    LoadAndEvaluate { file: String, pretty: bool },
    /// Read the file's source text, to be validated next.
    ReadSource { file: String },
    /// Nothing to run: print this text on standard output and exit cleanly.
    Emit { text: String },
}

/// A validation call ready for the engine: the source text and the display
/// name used in diagnostics.
pub struct ValidateRequest {
    pub source: String,
    pub name: String,
}

/// What one invocation leaves on the consoles: at most one text for standard
/// output, at most one for the error stream, and the process exit code.
pub struct Report {
    pub out: Option<String>,
    pub err: Option<String>,
    pub code: u8,
}

pub open spec fn version_spec() -> Seq<char> {
    "0.1.0"@
}

/// The library's version string.
pub fn version() -> (r: &'static str)
    ensures
        r@ == version_spec(),
{
    "0.1.0"
}

pub open spec fn info_rest_spec() -> Seq<char> {
    "\n\nA Nickel configuration file parser with multi-language FFI bindings\n\nFeatures:\n  \u{2022} Type Safety: Compile-time guarantees via Rust's type system\n  \u{2022} Memory Safety: Rust ownership model, zero unsafe blocks\n  \u{2022} Offline-First: Works completely air-gapped, no network dependencies\n  \u{2022} Multi-Language: FFI bindings for Deno, Rescript, and WASM\n\nStandards Compliance:\n  \u{2022} RSR Framework: Bronze Tier\n  \u{2022} TPCF Perimeter: 3 (Community Sandbox)\n  \u{2022} License: Dual MIT + Palimpsest 0.8\n\nRepository: https://gitlab.com/campaign-for-cooler-coding-and-programming/bunsenite\n"@
}

/// The fixed text of the informational command.
pub open spec fn info_text_spec() -> Seq<char> {
    "Bunsenite v"@ + version_spec() + info_rest_spec()
}

pub open spec fn help_rest_spec() -> Seq<char> {
    "\nNickel configuration file parser\n\nUSAGE:\n    bunsenite <COMMAND>\n\nCOMMANDS:\n    parse       Parse and evaluate a Nickel configuration file\n    validate    Validate a Nickel configuration without evaluating it\n    info        Show version and compliance information\n    help        Print this message or the help of the given subcommand(s)\n\nOPTIONS:\n    -v, --verbose    Enable verbose output\n    -h, --help       Print help information\n    -V, --version    Print version information\n\nEXAMPLES:\n    # Parse and evaluate a config file\n    bunsenite parse config.ncl\n\n    # Parse with pretty-printed output\n    bunsenite parse config.ncl --pretty\n\n    # Validate without evaluating\n    bunsenite validate config.ncl\n\n    # Show info\n    bunsenite info\n\nFor more information, visit:\nhttps://gitlab.com/campaign-for-cooler-coding-and-programming/bunsenite\n"@
}

/// The fixed help text shown when no subcommand is given.
pub open spec fn help_text_spec() -> Seq<char> {
    "Bunsenite v"@ + version_spec() + help_rest_spec()
}

/// The informational text: version, feature list and compliance tier.
pub fn info_text() -> (r: String)
    ensures
        r@ == info_text_spec(),
{
    String::from_str("Bunsenite v").concat(version()).concat(
        "\n\nA Nickel configuration file parser with multi-language FFI bindings\n\nFeatures:\n  \u{2022} Type Safety: Compile-time guarantees via Rust's type system\n  \u{2022} Memory Safety: Rust ownership model, zero unsafe blocks\n  \u{2022} Offline-First: Works completely air-gapped, no network dependencies\n  \u{2022} Multi-Language: FFI bindings for Deno, Rescript, and WASM\n\nStandards Compliance:\n  \u{2022} RSR Framework: Bronze Tier\n  \u{2022} TPCF Perimeter: 3 (Community Sandbox)\n  \u{2022} License: Dual MIT + Palimpsest 0.8\n\nRepository: https://gitlab.com/campaign-for-cooler-coding-and-programming/bunsenite\n",
    )
}

/// The help text shown when no subcommand is given.
pub fn get_help_text() -> (r: String)
    ensures
        r@ == help_text_spec(),
{
    String::from_str("Bunsenite v").concat(version()).concat(
        "\nNickel configuration file parser\n\nUSAGE:\n    bunsenite <COMMAND>\n\nCOMMANDS:\n    parse       Parse and evaluate a Nickel configuration file\n    validate    Validate a Nickel configuration without evaluating it\n    info        Show version and compliance information\n    help        Print this message or the help of the given subcommand(s)\n\nOPTIONS:\n    -v, --verbose    Enable verbose output\n    -h, --help       Print help information\n    -V, --version    Print version information\n\nEXAMPLES:\n    # Parse and evaluate a config file\n    bunsenite parse config.ncl\n\n    # Parse with pretty-printed output\n    bunsenite parse config.ncl --pretty\n\n    # Validate without evaluating\n    bunsenite validate config.ncl\n\n    # Show info\n    bunsenite info\n\nFor more information, visit:\nhttps://gitlab.com/campaign-for-cooler-coding-and-programming/bunsenite\n",
    )
}

/// What follows the last `/` of `s` (all of `s` when it has none).
pub open spec fn after_last_slash(s: Seq<char>) -> Seq<char>
    decreases s.len(),
{
    if s.len() == 0 {
        s
    } else if s[s.len() - 1] == '/' {
        Seq::empty()
    } else {
        after_last_slash(s.drop_last()).push(s[s.len() - 1])
    }
}

/// The display name used in validation diagnostics: the file's base name, or
/// a fixed placeholder when that is empty. The name is derived textually,
/// as everything after the last `/`: a final `.` or `..` component is kept
/// as it stands, and a path ending in `/` gets the placeholder, where a full
/// path normalization would resolve them. Such paths never name a readable
/// file, so the two readings agree on every source that validation reaches.
pub open spec fn base_name_spec(s: Seq<char>) -> Seq<char> {
    if after_last_slash(s).len() == 0 {
        "unknown.ncl"@
    } else {
        after_last_slash(s)
    }
}

/// Derive the diagnostics name for a path: the part after the last `/`,
/// defaulting to a fixed placeholder when that part is empty.
pub fn base_name(path: &str) -> (r: String)
    ensures
        r@ == base_name_spec(path@),
{
    let n = path.unicode_len();
    let mut start: usize = 0;
    let mut i: usize = 0;
    while i < n
        invariant
            start <= i <= n,
            n == path@.len(),
            after_last_slash(path@.subrange(0, i as int)) == path@.subrange(
                start as int,
                i as int,
            ),
        decreases n - i,
    {
        let ghost pre = path@.subrange(0, i as int);
        let ghost post = path@.subrange(0, i as int + 1);
        let c = path.get_char(i);
        if c == '/' {
            start = i + 1;
        }
        i += 1;
        proof {
            assert(post.drop_last() =~= pre);
            if c == '/' {
                assert(after_last_slash(post) =~= path@.subrange(start as int, i as int));
            } else {
                assert(after_last_slash(post) == after_last_slash(pre).push(c));
                assert(after_last_slash(pre).push(c) =~= path@.subrange(start as int, i as int));
            }
        }
    }
    proof {
        assert(path@.subrange(0, n as int) =~= path@);
    }
    if start == n {
        String::from_str("unknown.ncl")
    } else {
        let tail = path.substring_char(start, n);
        tail.to_owned()
    }
}

/// The first step each command asks for: `Parse` hands the file to the
/// engine, `Validate` first reads the source text, and the informational
/// commands are answered on the spot with their fixed text.
pub fn initial_action(cmd: Command) -> (a: Action)
    ensures
        cmd matches Command::Parse { file, pretty } ==> a matches Action::LoadAndEvaluate {
            file: f,
            pretty: p,
        } && f == file && p == pretty,
        cmd matches Command::Validate { file } ==> a matches Action::ReadSource { file: f } && f
            == file,
        cmd is Info ==> (a matches Action::Emit { text } && text@ == info_text_spec()),
        cmd is NoCommand ==> (a matches Action::Emit { text } && text@ == help_text_spec()),
{
    match cmd {
        Command::Parse { file, pretty } => Action::LoadAndEvaluate { file, pretty },
        Command::Validate { file } => Action::ReadSource { file },
        Command::Info => Action::Emit { text: info_text() },
        Command::NoCommand => Action::Emit { text: get_help_text() },
    }
}

/// Turn the result of reading the file into the validation request: a read
/// failure becomes `IoError` with the reader's message; otherwise the source
/// is paired with the diagnostics name derived from the path.
pub fn after_read(file: &str, read: Result<String, String>) -> (r: Result<ValidateRequest, Error>)
    ensures
        read matches Err(m) ==> r matches Err(e) && e matches Error::IoError { message } && message
            == m,
        read matches Ok(source) ==> r matches Ok(req) && req.source == source && req.name@
            == base_name_spec(file@),
{
    match read {
        Err(m) => Err(Error::IoError { message: m }),
        Ok(source) => Ok(ValidateRequest { source, name: base_name(file) }),
    }
}

/// The fixed confirmation line printed when validation succeeds.
pub open spec fn valid_text_spec() -> Seq<char> {
    "\u{2713} Configuration is valid"@
}

/// What the engine's validation outcome puts on standard output: the fixed
/// confirmation line on success, the engine's error unchanged otherwise.
pub open spec fn validated_spec(outcome: Result<(), Error>) -> Result<Seq<char>, Error> {
    match outcome {
        Ok(u) => Ok(valid_text_spec()),
        Err(e) => Err(e),
    }
}

/// Finish the validation command: success becomes the fixed confirmation
/// line, and any engine error is passed through unchanged.
pub fn finish_validate(outcome: Result<(), Error>) -> (r: Result<String, Error>)
    ensures
        outcome_view(r) == validated_spec(outcome),
{
    match outcome {
        Ok(u) => Ok(String::from_str("\u{2713} Configuration is valid")),
        Err(e) => Err(e),
    }
}

/// Finish the parse command: an engine error is passed through unchanged,
/// and a successfully evaluated value is serialized as JSON. The result is
/// then exactly the serializer's named outcome, classified: the named text
/// (compact or pretty as `pretty` selects) whenever the serializer succeeds,
/// and `SerializationError` with the named message otherwise.
pub fn finish_parse(outcome: Result<serde_json::Value, Error>, pretty: bool) -> (r: Result<
    String,
    Error,
>)
    ensures
        outcome matches Err(e) ==> r matches Err(e2) && e2 == e,
        outcome matches Ok(v) ==> (pretty ==> format_result_matches(r, pretty_json_of(v))),
        outcome matches Ok(v) ==> (!pretty ==> format_result_matches(r, compact_json_of(v))),
{
    match outcome {
        Err(e) => Err(e),
        Ok(v) => format_value(&v, pretty),
    }
}

/// The two-line failure text: the rendered error, then the kind's fixed
/// remediation hint.
pub open spec fn failure_text_spec(e: Error) -> Seq<char> {
    "Error: "@ + display_spec(e) + "\n\nSuggestion: "@ + suggestion_spec(kind_of(e))
}

/// Render a failure for the error stream: the error's display text, then the
/// fixed suggestion for its kind.
pub fn render_failure(e: &Error) -> (r: String)
    ensures
        r@ == failure_text_spec(*e),
{
    let d = e.display();
    let s = String::from_str("Error: ").concat(d.as_str()).concat("\n\nSuggestion: ");
    match e.suggestion() {
        Some(hint) => s.concat(hint),
        None => s,
    }
}

/// The view of an outcome: the text it carries, as a sequence of characters.
pub open spec fn outcome_view(r: Result<String, Error>) -> Result<Seq<char>, Error> {
    match r {
        Ok(s) => Ok(s@),
        Err(e) => Err(e),
    }
}

/// What an outcome owes the consoles: success puts its text on standard
/// output and exits 0; failure puts the rendered error and suggestion on the
/// error stream and exits 1.
pub open spec fn report_spec(r: Result<Seq<char>, Error>) -> (Option<Seq<char>>, Option<
    Seq<char>,
>, int) {
    match r {
        Ok(s) => (Some(s), None, 0),
        Err(e) => (None, Some(failure_text_spec(e)), 1),
    }
}

pub open spec fn report_view(rep: Report) -> (Option<Seq<char>>, Option<Seq<char>>, int) {
    (
        match rep.out {
            Some(s) => Some(s@),
            None => None,
        },
        match rep.err {
            Some(s) => Some(s@),
            None => None,
        },
        rep.code as int,
    )
}

/// The single point where an outcome becomes console text and an exit code.
/// Success carries its text to standard output with code 0; any error is
/// rendered with its suggestion for the error stream, with code 1. Standard
/// output never carries anything on failure.
pub fn conclude(outcome: Result<String, Error>) -> (rep: Report)
    ensures
        report_view(rep) == report_spec(outcome_view(outcome)),
{
    match outcome {
        Ok(s) => Report { out: Some(s), err: None, code: 0 },
        Err(e) => Report { out: None, err: Some(render_failure(&e)), code: 1 },
    }
}

/// The diagnostic line traced before the engine parses a file.
pub fn parse_trace(file: &str) -> (r: String)
    ensures
        r@ == "Parsing file: "@ + file@,
{
    String::from_str("Parsing file: ").concat(file)
}

/// The diagnostic line traced before the engine validates a file.
pub fn validate_trace(file: &str) -> (r: String)
    ensures
        r@ == "Validating file: "@ + file@,
{
    String::from_str("Validating file: ").concat(file)
}

/// The diagnostic line traced after a successful parse and evaluation.
pub fn parse_done_trace() -> (r: String)
    ensures
        r@ == "\u{2713} Successfully parsed and evaluated"@,
{
    String::from_str("\u{2713} Successfully parsed and evaluated")
}

/// The diagnostic line traced after a successful validation.
pub fn validate_done_trace() -> (r: String)
    ensures
        r@ == "\u{2713} Successfully validated"@,
{
    String::from_str("\u{2713} Successfully validated")
}

/// Law: validation is idempotent at this layer. Two runs whose engine
/// outcomes are the same leave the same text on each console and exit with
/// the same code; nothing but the outcome enters the report.
pub proof fn lemma_validate_idempotent(o1: Result<(), Error>, o2: Result<(), Error>)
    requires
        o1 == o2,
    ensures
        report_spec(validated_spec(o1)) == report_spec(validated_spec(o2)),
{
}

} // verus!
