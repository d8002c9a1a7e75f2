//! Errors of argument parsing and of the whole build-and-install run.
use vstd::prelude::*;

use crate::build_plan::BuildError;
use crate::commands::{spec_command_listing, CommandList};

verus! {

/// `std::io::Error`, carried through unchanged.
#[verifier::external_type_specification]
#[verifier::external_body]
pub struct ExIoError(std::io::Error);

/// Calls `std::io::Error`'s `Display`. The text of an operating-system error
/// comes from the platform's error strings, so nothing is claimed of it.
#[verifier::external_body]
pub(crate) fn io_error_text(e: &std::io::Error) -> (r: String) {
    format!("{}", e)
}

/// Errors while turning command-line arguments into an action.
#[derive(Debug)]
pub enum CliError {
    Io(std::io::Error),
    MissingFlagValue { flag: &'static str },
    PathNotADirectory { path: String, flag: &'static str },
    UnknownArgument { arg: String },
    InvalidBuildPath,
}

/// Errors of a whole run: parsing, building or installing.
#[derive(Debug)]
pub enum AppError {
    Cli(CliError),
    Build(BuildError),
    Install(std::io::Error),
}

impl CliError {
    /// The message shown for every error that does not wrap an I/O error.
    pub open spec fn spec_message(&self) -> Seq<char> {
        match self {
            CliError::Io(_) => Seq::empty(),
            CliError::MissingFlagValue { flag } => "Missing value for "@ + flag@,
            CliError::PathNotADirectory { path, flag } => "Input "@ + flag@
                + " is not a directory: "@ + path@,
            CliError::UnknownArgument { arg } => "Unknown argument '"@ + arg@
                + "'\n\nCommand list: \n"@ + spec_command_listing(),
            CliError::InvalidBuildPath => "Invalid build path"@,
        }
    }

    /// The message, given the text of the wrapped I/O error where there is one:
    /// an `Io` error shows that text unchanged.
    pub open spec fn spec_message_with(&self, io_text: Seq<char>) -> Seq<char> {
        match self {
            CliError::Io(_) => io_text,
            _ => self.spec_message(),
        }
    }

    /// The message of this error when the wrapped I/O error, if any, reads
    /// `io_text`.
    pub fn message_with_io_text(&self, io_text: &str) -> (r: String)
        ensures
            r@ == self.spec_message_with(io_text@),
    {
        match self {
            CliError::Io(_) => String::from_str(io_text),
            CliError::MissingFlagValue { flag } => String::from_str("Missing value for ").concat(
                flag,
            ),
            CliError::PathNotADirectory { path, flag } => String::from_str("Input ").concat(
                flag,
            ).concat(" is not a directory: ").concat(path.as_str()),
            CliError::UnknownArgument { arg } => {
                let listing = CommandList::to_string();
                String::from_str("Unknown argument '").concat(arg.as_str()).concat(
                    "'\n\nCommand list: \n",
                ).concat(listing.as_str())
            },
            CliError::InvalidBuildPath => String::from_str("Invalid build path"),
        }
    }

    /// The user-facing message of this error. For `Io` it is the I/O error's
    /// own text, which the platform supplies.
    pub fn message(&self) -> (r: String)
        ensures
            exists|t: Seq<char>| r@ == self.spec_message_with(t),
            !(self is Io) ==> r@ == self.spec_message(),
    {
        let text = match self {
            CliError::Io(err) => io_error_text(err),
            _ => String::new(),
        };
        self.message_with_io_text(text.as_str())
    }

    /// The underlying I/O error, the only error that has a source.
    pub fn io_source(&self) -> (r: Option<&std::io::Error>)
        ensures
            match self {
                CliError::Io(e) => r == Some(e),
                _ => r is None,
            },
    {
        match self {
            CliError::Io(e) => Some(e),
            _ => None,
        }
    }
}

impl From<std::io::Error> for CliError {
    fn from(e: std::io::Error) -> (r: CliError) {
        CliError::Io(e)
    }
}

impl vstd::std_specs::convert::FromSpecImpl<std::io::Error> for CliError {
    open spec fn obeys_from_spec() -> bool {
        true
    }

    open spec fn from_spec(v: std::io::Error) -> CliError {
        CliError::Io(v)
    }
}

/// The error an `AppError` wraps.
#[derive(Debug)]
pub enum AppErrorSource<'a> {
    Cli(&'a CliError),
    Build(&'a BuildError),
    Io(&'a std::io::Error),
}

impl AppError {
    /// The wrapped error: every application error has one.
    pub fn source(&self) -> (r: AppErrorSource<'_>)
        ensures
            match self {
                AppError::Cli(e) => r == AppErrorSource::Cli(e),
                AppError::Build(e) => r == AppErrorSource::Build(e),
                AppError::Install(e) => r == AppErrorSource::Io(e),
            },
    {
        match self {
            AppError::Cli(e) => AppErrorSource::Cli(e),
            AppError::Build(e) => AppErrorSource::Build(e),
            AppError::Install(e) => AppErrorSource::Io(e),
        }
    }

    /// The message, given the text of the I/O error inside it where there is
    /// one: that of the wrapped error, or for an install failure
    /// "Install I/O error: " followed by the I/O error's text.
    pub open spec fn spec_message_with(&self, io_text: Seq<char>) -> Seq<char> {
        match self {
            AppError::Cli(e) => e.spec_message_with(io_text),
            AppError::Build(e) => e.spec_message_with(io_text),
            AppError::Install(_) => "Install I/O error: "@ + io_text,
        }
    }

    /// The I/O error inside this error, directly or inside the wrapped error.
    pub fn inner_io_error(&self) -> (r: Option<&std::io::Error>)
        ensures
            match self {
                AppError::Cli(CliError::Io(e)) => r == Some(e),
                AppError::Build(BuildError::Io(e)) => r == Some(e),
                AppError::Install(e) => r == Some(e),
                _ => r is None,
            },
    {
        match self {
            AppError::Cli(CliError::Io(e)) => Some(e),
            AppError::Build(BuildError::Io(e)) => Some(e),
            AppError::Install(e) => Some(e),
            _ => None,
        }
    }

    /// The message of this error when the I/O error inside it, if any, reads
    /// `io_text`.
    pub fn message_with_io_text(&self, io_text: &str) -> (r: String)
        ensures
            r@ == self.spec_message_with(io_text@),
    {
        match self {
            AppError::Cli(e) => e.message_with_io_text(io_text),
            AppError::Build(e) => e.message_with_io_text(io_text),
            AppError::Install(_) => {
                let r = String::from_str("Install I/O error: ").concat(io_text);
                assert(r@ == "Install I/O error: "@ + io_text@);
                r
            },
        }
    }

    /// The user-facing message: that of the wrapped error, or for an install
    /// failure "Install I/O error: " followed by the I/O error's text, which
    /// the platform supplies.
    pub fn message(&self) -> (r: String)
        ensures
            exists|t: Seq<char>| r@ == self.spec_message_with(t),
            match self {
                AppError::Cli(e) => !(e is Io) ==> r@ == e.spec_message(),
                AppError::Build(e) => !(e is Io) ==> r@ == e.spec_message(),
                AppError::Install(_) => exists|t: Seq<char>| r@ == "Install I/O error: "@ + t,
            },
    {
        let text = match self.inner_io_error() {
            Some(e) => io_error_text(e),
            None => String::new(),
        };
        self.message_with_io_text(text.as_str())
    }
}

/// An application error that wraps an argument or build error shows that
/// error's message unchanged, whatever the text of an I/O error inside it.
pub proof fn lemma_wrapped_message_unchanged(cli: CliError, build: BuildError, io_text: Seq<char>)
    ensures
        AppError::Cli(cli).spec_message_with(io_text) == cli.spec_message_with(io_text),
        AppError::Build(build).spec_message_with(io_text) == build.spec_message_with(io_text),
{
}

impl From<CliError> for AppError {
    fn from(e: CliError) -> (r: AppError) {
        AppError::Cli(e)
    }
}

impl vstd::std_specs::convert::FromSpecImpl<CliError> for AppError {
    open spec fn obeys_from_spec() -> bool {
        true
    }

    open spec fn from_spec(v: CliError) -> AppError {
        AppError::Cli(v)
    }
}

impl From<BuildError> for AppError {
    fn from(e: BuildError) -> (r: AppError) {
        AppError::Build(e)
    }
}

impl vstd::std_specs::convert::FromSpecImpl<BuildError> for AppError {
    open spec fn obeys_from_spec() -> bool {
        true
    }

    open spec fn from_spec(v: BuildError) -> AppError {
        AppError::Build(v)
    }
}

impl From<std::io::Error> for AppError {
    fn from(e: std::io::Error) -> (r: AppError) {
        AppError::Install(e)
    }
}

impl vstd::std_specs::convert::FromSpecImpl<std::io::Error> for AppError {
    open spec fn obeys_from_spec() -> bool {
        true
    }

    open spec fn from_spec(v: std::io::Error) -> AppError {
        AppError::Install(v)
    }
}

} // verus!
