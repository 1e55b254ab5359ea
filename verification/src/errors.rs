//! The error type shared by every part of the library.
use vstd::prelude::*;

verus! {

/// Declares `std::io::Error` so that the `Io` variant can carry it.
#[verifier::external_type_specification]
#[verifier::external_body]
pub struct ExIoError(std::io::Error);

/// Errors, one variant per area of the application.
#[derive(Debug)]
pub enum AppError {
    Config(String),
    Audio(String),
    Whisper(String),
    Llm(String),
    Input(String),
    Io(std::io::Error),
    Vocabulary(String),
}

/// The message shown for each variant that carries text.
pub open spec fn error_text(e: AppError) -> Seq<char>
    recommends
        !(e is Io),
{
    match e {
        AppError::Config(s) => "Configuration error: "@ + s@,
        AppError::Audio(s) => "Audio error: "@ + s@,
        AppError::Whisper(s) => "Whisper error: "@ + s@,
        AppError::Llm(s) => "LLM error: "@ + s@,
        AppError::Input(s) => "Input error: "@ + s@,
        AppError::Vocabulary(s) => "Vocabulary error: "@ + s@,
        AppError::Io(_) => "IO error: "@,
    }
}

/// `Display` of `std::io::Error`; what it prints depends on the operating system.
#[verifier::external_body]
fn io_error_display(e: &std::io::Error) -> String {
    e.to_string()
}

impl AppError {
    /// The user-facing message of the error (what `Display` prints).
    pub fn message(&self) -> (r: String)
        ensures
            !(*self is Io) ==> r@ == error_text(*self),
            *self is Io ==> r@.subrange(0, "IO error: "@.len() as int) == "IO error: "@,
            *self is Io ==> "IO error: "@.len() <= r@.len(),
    {
        let (head, body): (&str, &str) = match self {
            AppError::Config(s) => ("Configuration error: ", s.as_str()),
            AppError::Audio(s) => ("Audio error: ", s.as_str()),
            AppError::Whisper(s) => ("Whisper error: ", s.as_str()),
            AppError::Llm(s) => ("LLM error: ", s.as_str()),
            AppError::Input(s) => ("Input error: ", s.as_str()),
            AppError::Vocabulary(s) => ("Vocabulary error: ", s.as_str()),
            AppError::Io(e) => {
                let mut out = String::from_str("IO error: ");
                let detail = io_error_display(e);
                out.append(detail.as_str());
                assert(out@.subrange(0, "IO error: "@.len() as int) =~= "IO error: "@);
                return out;
            },
        };
        let mut out = String::from_str(head);
        out.append(body);
        out
    }
}

} // verus!
