use vstd::prelude::*;

verus! {

/// The failure taxonomy of the library.
///
/// Extraction reports `NotFound` / `PermissionDenied` / `Io` for unreadable
/// files, config parsing reports `InvalidData`, catalog discovery reports
/// `Pattern` for a malformed glob, and the filter engine reports
/// `NotAProject` when asked to work outside a recognized project.
#[derive(Clone, Copy, Debug, PartialEq, Eq, Structural)]
pub enum AppError {
    NotFound,
    PermissionDenied,
    InvalidData,
    Pattern,
    NotAProject,
    Io,
}

impl AppError {
    /// A one-line diagnostic for each failure kind.
    pub fn message(&self) -> (r: &'static str)
        ensures
            r@ == self.message_spec(),
    {
        match self {
            AppError::NotFound => "file or path not found",
            AppError::PermissionDenied => "permission denied",
            AppError::InvalidData => "config file contains invalid data",
            AppError::Pattern => "invalid glob pattern",
            AppError::NotAProject => "directory is no project",
            AppError::Io => "input/output failure",
        }
    }

    pub open spec fn message_spec(&self) -> Seq<char> {
        match self {
            AppError::NotFound => "file or path not found"@,
            AppError::PermissionDenied => "permission denied"@,
            AppError::InvalidData => "config file contains invalid data"@,
            AppError::Pattern => "invalid glob pattern"@,
            AppError::NotAProject => "directory is no project"@,
            AppError::Io => "input/output failure"@,
        }
    }
}

} // verus!
