use vstd::prelude::*;

use crate::constants::{clone_strings, strs};

verus! {

/// Why a provisioning operation failed.
///
/// Commands are identified by their argument vectors, files by their paths.
#[derive(Debug)]
pub enum PeachConfigError {
    /// The program could not be started (missing binary, permission denied).
    CmdIoError { command: Vec<String>, reason: String },
    /// The program ran and exited unsuccessfully; `msg` is what it wrote to
    /// standard error.
    CmdError { msg: String, command: Vec<String> },
    /// The program's output was not valid UTF-8 text.
    CmdParseOutputError { command: Vec<String> },
    /// A file could not be written.
    FileWriteError { file: String, reason: String },
    /// A file could not be read.
    FileReadError { file: String, reason: String },
    /// A value could not be turned into JSON or read back from it.
    SerdeError { reason: String },
    /// A text pattern could not be compiled.
    PatternError { pattern: String },
}

/// The mathematical value of a [`PeachConfigError`].
pub enum ErrorView {
    CmdIoError { command: Seq<Seq<char>>, reason: Seq<char> },
    CmdError { msg: Seq<char>, command: Seq<Seq<char>> },
    CmdParseOutputError { command: Seq<Seq<char>> },
    FileWriteError { file: Seq<char>, reason: Seq<char> },
    FileReadError { file: Seq<char>, reason: Seq<char> },
    SerdeError { reason: Seq<char> },
    PatternError { pattern: Seq<char> },
}

impl View for PeachConfigError {
    type V = ErrorView;

    open spec fn view(&self) -> ErrorView {
        match self {
            PeachConfigError::CmdIoError { command, reason } => ErrorView::CmdIoError {
                command: strs(command@),
                reason: reason@,
            },
            PeachConfigError::CmdError { msg, command } => ErrorView::CmdError {
                msg: msg@,
                command: strs(command@),
            },
            PeachConfigError::CmdParseOutputError { command } => ErrorView::CmdParseOutputError {
                command: strs(command@),
            },
            PeachConfigError::FileWriteError { file, reason } => ErrorView::FileWriteError {
                file: file@,
                reason: reason@,
            },
            PeachConfigError::FileReadError { file, reason } => ErrorView::FileReadError {
                file: file@,
                reason: reason@,
            },
            PeachConfigError::SerdeError { reason } => ErrorView::SerdeError { reason: reason@ },
            PeachConfigError::PatternError { pattern } => ErrorView::PatternError {
                pattern: pattern@,
            },
        }
    }
}

/// The view of an optional error.
pub open spec fn opt_error_view(e: Option<PeachConfigError>) -> Option<ErrorView> {
    match e {
        Some(e) => Some(e@),
        None => None,
    }
}

} // verus!

verus! {

impl PeachConfigError {
    /// A copy of this error.
    pub fn duplicate(&self) -> (r: PeachConfigError)
        ensures
            r@ == self@,
    {
        match self {
            PeachConfigError::CmdIoError { command, reason } => PeachConfigError::CmdIoError {
                command: clone_strings(command),
                reason: reason.clone(),
            },
            PeachConfigError::CmdError { msg, command } => PeachConfigError::CmdError {
                msg: msg.clone(),
                command: clone_strings(command),
            },
            PeachConfigError::CmdParseOutputError { command } =>
                PeachConfigError::CmdParseOutputError { command: clone_strings(command) },
            PeachConfigError::FileWriteError { file, reason } => PeachConfigError::FileWriteError {
                file: file.clone(),
                reason: reason.clone(),
            },
            PeachConfigError::FileReadError { file, reason } => PeachConfigError::FileReadError {
                file: file.clone(),
                reason: reason.clone(),
            },
            PeachConfigError::SerdeError { reason } => PeachConfigError::SerdeError {
                reason: reason.clone(),
            },
            PeachConfigError::PatternError { pattern } => PeachConfigError::PatternError {
                pattern: pattern.clone(),
            },
        }
    }
}

} // verus!
