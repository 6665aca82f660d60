//! The error taxonomy: a closed set of failure kinds with a uniform display
//! contract, a recoverability classification, and a fixed remediation hint
//! per kind.

use vstd::prelude::*;
use vstd::string::*;

verus! {

/// A failure surfaced by loading, validating, evaluating or serializing a
/// Nickel configuration program. Each variant carries only its own payload,
/// so no kind can be built with another kind's fields.
#[derive(Debug)]
pub enum Error {
    /// The engine could not parse the file.
    ParseError { file: String, message: String },
    /// The engine parsed the file but could not evaluate it.
    EvaluationError { file: String, message: String },
    /// The evaluated value could not be rendered as JSON text.
    SerializationError { message: String },
    /// The file could not be read.
    IoError { message: String },
    /// The caller's input was malformed before any engine work began.
    InvalidInput { message: String },
    /// A defect inside this system or its collaborator, not a fixable input.
    Internal { message: String },
}

/// The kind of an error, stripped of its payload. Recoverability and the
/// remediation hint are functions of this alone.
pub enum ErrorKind {
    Parse,
    Evaluation,
    Serialization,
    Io,
    InvalidInput,
    Internal,
}

pub open spec fn kind_of(e: Error) -> ErrorKind {
    match e {
        Error::ParseError { .. } => ErrorKind::Parse,
        Error::EvaluationError { .. } => ErrorKind::Evaluation,
        Error::SerializationError { .. } => ErrorKind::Serialization,
        Error::IoError { .. } => ErrorKind::Io,
        Error::InvalidInput { .. } => ErrorKind::InvalidInput,
        Error::Internal { .. } => ErrorKind::Internal,
    }
}

/// Whether a failure of this kind can be resolved by the user changing their
/// input, as opposed to an environment or system defect.
pub open spec fn kind_recoverable(k: ErrorKind) -> bool {
    match k {
        ErrorKind::Parse => true,
        ErrorKind::Evaluation => true,
        ErrorKind::InvalidInput => true,
        ErrorKind::Serialization => false,
        ErrorKind::Io => false,
        ErrorKind::Internal => false,
    }
}

/// The fixed remediation hint for a kind; never a function of the payload.
pub open spec fn suggestion_spec(k: ErrorKind) -> Seq<char> {
    match k {
        ErrorKind::Parse => "Check your Nickel syntax. Run 'nickel check' for detailed diagnostics."@,
        ErrorKind::Evaluation => "Ensure all variables are defined and types match."@,
        ErrorKind::Serialization => "Ensure the Nickel program produces valid JSON-serializable values."@,
        ErrorKind::Io => "Check file permissions and path."@,
        ErrorKind::InvalidInput => "Check the input format and try again."@,
        ErrorKind::Internal => "This is a bug. Please report it at: https://gitlab.com/campaign-for-cooler-coding-and-programming/bunsenite/-/issues"@,
    }
}

/// The display text of an error: a fixed label per kind with the payload
/// strings spliced in verbatim.
pub open spec fn display_spec(e: Error) -> Seq<char> {
    match e {
        Error::ParseError { file, message } => "Failed to parse Nickel file '"@ + file@ + "': "@
            + message@,
        Error::EvaluationError { file, message } => "Failed to evaluate Nickel program '"@ + file@
            + "': "@ + message@,
        Error::SerializationError { message } => "Failed to serialize result: "@ + message@,
        Error::IoError { message } => "File I/O error: "@ + message@,
        Error::InvalidInput { message } => "Invalid input: "@ + message@,
        Error::Internal { message } => "Internal error: "@ + message@,
    }
}

impl Error {
    /// Build a parsing failure for the given file and parser message.
    pub fn parse_error(file: &str, message: &str) -> (r: Error)
        ensures
            r matches Error::ParseError { file: f, message: m } && f@ == file@ && m@ == message@,
    {
        Error::ParseError { file: file.to_owned(), message: message.to_owned() }
    }

    /// Build an evaluation failure for the given file and evaluator message.
    pub fn evaluation_error(file: &str, message: &str) -> (r: Error)
        ensures
            r matches Error::EvaluationError { file: f, message: m } && f@ == file@ && m@
                == message@,
    {
        Error::EvaluationError { file: file.to_owned(), message: message.to_owned() }
    }

    /// Build a serialization failure with the serializer's message.
    pub fn serialization_error(message: &str) -> (r: Error)
        ensures
            r matches Error::SerializationError { message: m } && m@ == message@,
    {
        Error::SerializationError { message: message.to_owned() }
    }

    /// Build a failure for a file that could not be read.
    pub fn io_error(message: &str) -> (r: Error)
        ensures
            r matches Error::IoError { message: m } && m@ == message@,
    {
        Error::IoError { message: message.to_owned() }
    }

    /// Build a failure for malformed caller input.
    pub fn invalid_input(message: &str) -> (r: Error)
        ensures
            r matches Error::InvalidInput { message: m } && m@ == message@,
    {
        Error::InvalidInput { message: message.to_owned() }
    }

    /// Build an internal-defect failure.
    pub fn internal(message: &str) -> (r: Error)
        ensures
            r matches Error::Internal { message: m } && m@ == message@,
    {
        Error::Internal { message: message.to_owned() }
    }

    /// Whether the user can resolve this failure by changing their input.
    pub fn is_recoverable(&self) -> (r: bool)
        ensures
            r == kind_recoverable(kind_of(*self)),
    {
        match self {
            Error::ParseError { .. } => true,
            Error::EvaluationError { .. } => true,
            Error::InvalidInput { .. } => true,
            Error::SerializationError { .. } => false,
            Error::IoError { .. } => false,
            Error::Internal { .. } => false,
        }
    }

    /// The fixed remediation hint for this error's kind.
    pub fn suggestion(&self) -> (r: Option<&'static str>)
        ensures
            r matches Some(s) && s@ == suggestion_spec(kind_of(*self)),
    {
        match self {
            Error::ParseError { .. } => Some(
                "Check your Nickel syntax. Run 'nickel check' for detailed diagnostics.",
            ),
            Error::EvaluationError { .. } => Some(
                "Ensure all variables are defined and types match.",
            ),
            Error::SerializationError { .. } => Some(
                "Ensure the Nickel program produces valid JSON-serializable values.",
            ),
            Error::IoError { .. } => Some("Check file permissions and path."),
            Error::InvalidInput { .. } => Some("Check the input format and try again."),
            Error::Internal { .. } => Some(
                "This is a bug. Please report it at: https://gitlab.com/campaign-for-cooler-coding-and-programming/bunsenite/-/issues",
            ),
        }
    }

    /// Render the fixed, kind-specific message with the payload spliced in.
    pub fn display(&self) -> (r: String)
        ensures
            r@ == display_spec(*self),
    {
        match self {
            Error::ParseError { file, message } => String::from_str(
                "Failed to parse Nickel file '",
            ).concat(file.as_str()).concat("': ").concat(message.as_str()),
            Error::EvaluationError { file, message } => String::from_str(
                "Failed to evaluate Nickel program '",
            ).concat(file.as_str()).concat("': ").concat(message.as_str()),
            Error::SerializationError { message } => String::from_str(
                "Failed to serialize result: ",
            ).concat(message.as_str()),
            Error::IoError { message } => String::from_str("File I/O error: ").concat(
                message.as_str(),
            ),
            Error::InvalidInput { message } => String::from_str("Invalid input: ").concat(
                message.as_str(),
            ),
            Error::Internal { message } => String::from_str("Internal error: ").concat(
                message.as_str(),
            ),
        }
    }
}

/// `needle` occurs contiguously somewhere inside `hay`.
pub open spec fn is_substring_of(needle: Seq<char>, hay: Seq<char>) -> bool {
    exists|i: int|
        0 <= i && i + needle.len() <= hay.len() && #[trigger] hay.subrange(i, i + needle.len())
            == needle
}

/// The middle part of a three-way concatenation is a substring of the whole.
pub proof fn lemma_middle_is_substring(a: Seq<char>, b: Seq<char>, c: Seq<char>)
    ensures
        is_substring_of(b, a + b + c),
{
    let hay = a + b + c;
    let i = a.len() as int;
    assert(hay.subrange(i, i + b.len()) =~= b);
}

/// Law: recoverability is payload-independent. Two errors of the same kind
/// are classified the same way, whatever strings they carry.
pub proof fn lemma_recoverable_payload_independent(e1: Error, e2: Error)
    requires
        kind_of(e1) == kind_of(e2),
    ensures
        kind_recoverable(kind_of(e1)) == kind_recoverable(kind_of(e2)),
{
}

/// Law: the suggestion is payload-independent. Two errors of the same kind
/// carry the same fixed remediation hint, whatever strings they carry.
pub proof fn lemma_suggestion_payload_independent(e1: Error, e2: Error)
    requires
        kind_of(e1) == kind_of(e2),
    ensures
        suggestion_spec(kind_of(e1)) == suggestion_spec(kind_of(e2)),
{
}

/// Law: the display text contains every payload string verbatim.
pub proof fn lemma_display_contains_payloads(e: Error)
    ensures
        e matches Error::ParseError { file, message } ==> is_substring_of(file@, display_spec(e))
            && is_substring_of(message@, display_spec(e)),
        e matches Error::EvaluationError { file, message } ==> is_substring_of(
            file@,
            display_spec(e),
        ) && is_substring_of(message@, display_spec(e)),
        e matches Error::SerializationError { message } ==> is_substring_of(
            message@,
            display_spec(e),
        ),
        e matches Error::IoError { message } ==> is_substring_of(message@, display_spec(e)),
        e matches Error::InvalidInput { message } ==> is_substring_of(message@, display_spec(e)),
        e matches Error::Internal { message } ==> is_substring_of(message@, display_spec(e)),
{
    let empty = Seq::<char>::empty();
    match e {
        Error::ParseError { file, message } => {
            let label = "Failed to parse Nickel file '"@;
            let mid = "': "@;
            assert(label + file@ + (mid + message@) =~= display_spec(e));
            lemma_middle_is_substring(label, file@, mid + message@);
            assert(label + file@ + mid + message@ + empty =~= display_spec(e));
            lemma_middle_is_substring(label + file@ + mid, message@, empty);
        },
        Error::EvaluationError { file, message } => {
            let label = "Failed to evaluate Nickel program '"@;
            let mid = "': "@;
            assert(label + file@ + (mid + message@) =~= display_spec(e));
            lemma_middle_is_substring(label, file@, mid + message@);
            assert(label + file@ + mid + message@ + empty =~= display_spec(e));
            lemma_middle_is_substring(label + file@ + mid, message@, empty);
        },
        Error::SerializationError { message } => {
            let label = "Failed to serialize result: "@;
            assert(label + message@ + empty =~= display_spec(e));
            lemma_middle_is_substring(label, message@, empty);
        },
        Error::IoError { message } => {
            let label = "File I/O error: "@;
            assert(label + message@ + empty =~= display_spec(e));
            lemma_middle_is_substring(label, message@, empty);
        },
        Error::InvalidInput { message } => {
            let label = "Invalid input: "@;
            assert(label + message@ + empty =~= display_spec(e));
            lemma_middle_is_substring(label, message@, empty);
        },
        Error::Internal { message } => {
            let label = "Internal error: "@;
            assert(label + message@ + empty =~= display_spec(e));
            lemma_middle_is_substring(label, message@, empty);
        },
    }
}

} // verus!
