//! The closed error taxonomy of the library. Every rejection a validator,
//! planner or parser can produce is a distinct variant, so callers can branch
//! on the cause; [`AppError::message`] renders the human-readable text.

use vstd::prelude::*;

verus! {

/// Every failure the library reports.
#[derive(Debug, Clone)]
pub enum AppError {
    EmptyRepositoryPath,
    InvalidRepositoryPath,
    /// Carries the comma-joined list of accepted remote schemes.
    UnsupportedProtocol(String),
    RemotePathTooShort,
    PathTraversal,
    EmptySnapshotId,
    InvalidSnapshotId,
    SnapshotIdTooShort,
    SnapshotIdTooLong,
    SnapshotIdNotHex,
    EmptyTargetPath,
    InvalidTargetPath,
    RelativeTargetPath,
    /// Carries the missing ancestor directory.
    ParentDirectoryNotFound(String),
    EmptyIncludePath,
    InvalidIncludePath,
    ExcessiveParentTraversal,
    AbsoluteIncludePath,
    EmptyRepoId,
    InvalidRepoId,
    InvalidRepoIdCharacters,
    RepoIdTooLong,
    EmptyPassword,
    InvalidPassword,
    EmptyRepositoryName,
    RepositoryNameTooLong,
    NoIncludePaths,
    /// The subprocess could not be spawned at all; carries the OS error text.
    ResticExecution(String),
    /// Strict mode: the tool exited non-zero; carries the captured stderr.
    ResticError(String),
    /// Lenient mode, fatal marker matched; carries the captured stderr.
    RestoreFailed(String),
    SnapshotJsonParse(String),
    StatsJsonParse(String),
    RepoStatsJsonParse(String),
    /// A failure of the configuration store, passed through as text.
    Storage(String),
}

/// The rendered message of each error, payload included.
pub open spec fn spec_message(e: AppError) -> Seq<char> {
    match e {
        AppError::EmptyRepositoryPath => "Repository path cannot be empty"@,
        AppError::InvalidRepositoryPath => "Repository path contains invalid characters"@,
        AppError::UnsupportedProtocol(p) => "Unsupported repository protocol. Expected one of: "@
            + p@,
        AppError::RemotePathTooShort => "Remote repository path too short"@,
        AppError::PathTraversal => "Repository path cannot contain '..' components"@,
        AppError::EmptySnapshotId => "Snapshot ID cannot be empty"@,
        AppError::InvalidSnapshotId => "Snapshot ID contains invalid characters"@,
        AppError::SnapshotIdTooShort => "Snapshot ID too short (minimum 8 characters)"@,
        AppError::SnapshotIdTooLong => "Snapshot ID too long (maximum 64 characters)"@,
        AppError::SnapshotIdNotHex => "Snapshot ID must be hexadecimal (0-9, a-f)"@,
        AppError::EmptyTargetPath => "Target path cannot be empty"@,
        AppError::InvalidTargetPath => "Target path contains invalid characters"@,
        AppError::RelativeTargetPath =>
        "Target path must be absolute (e.g., C:\\restore or /home/user/restore)"@,
        AppError::ParentDirectoryNotFound(p) => "Parent directory does not exist: "@ + p@,
        AppError::EmptyIncludePath => "Include path cannot be empty"@,
        AppError::InvalidIncludePath => "Include path contains invalid characters"@,
        AppError::ExcessiveParentTraversal =>
        "Include path contains excessive '..' components (max 3)"@,
        AppError::AbsoluteIncludePath => "Include path should be relative, not absolute"@,
        AppError::EmptyRepoId => "Repository ID cannot be empty"@,
        AppError::InvalidRepoId => "Repository ID contains invalid characters"@,
        AppError::InvalidRepoIdCharacters =>
        "Repository ID can only contain letters, numbers, hyphens, and underscores"@,
        AppError::RepoIdTooLong => "Repository ID too long (maximum 100 characters)"@,
        AppError::EmptyPassword => "Password cannot be empty"@,
        AppError::InvalidPassword => "Password contains invalid characters"@,
        AppError::EmptyRepositoryName => "Repository name cannot be empty"@,
        AppError::RepositoryNameTooLong => "Repository name too long (maximum 200 characters)"@,
        AppError::NoIncludePaths =>
        "At least one include path is required for selective restore"@,
        AppError::ResticExecution(m) => "Failed to execute restic: "@ + m@,
        AppError::ResticError(m) => "Restic error: "@ + m@,
        AppError::RestoreFailed(m) => "Restore failed: "@ + m@,
        AppError::SnapshotJsonParse(m) => "Failed to parse snapshots JSON: "@ + m@,
        AppError::StatsJsonParse(m) => "Failed to parse stats JSON: "@ + m@,
        AppError::RepoStatsJsonParse(m) => "Failed to parse repository stats JSON: "@ + m@,
        AppError::Storage(m) => m@,
    }
}

impl AppError {
    /// Renders the error as the single human-readable line shown to callers.
    pub fn message(&self) -> (r: String)
        ensures
            r@ == spec_message(*self),
    {
        match self {
            AppError::EmptyRepositoryPath => String::from_str("Repository path cannot be empty"),
            AppError::InvalidRepositoryPath => String::from_str(
                "Repository path contains invalid characters",
            ),
            AppError::UnsupportedProtocol(p) => {
                let mut s = String::from_str("Unsupported repository protocol. Expected one of: ");
                s.append(p.as_str());
                s
            },
            AppError::RemotePathTooShort => String::from_str("Remote repository path too short"),
            AppError::PathTraversal => String::from_str(
                "Repository path cannot contain '..' components",
            ),
            AppError::EmptySnapshotId => String::from_str("Snapshot ID cannot be empty"),
            AppError::InvalidSnapshotId => String::from_str(
                "Snapshot ID contains invalid characters",
            ),
            AppError::SnapshotIdTooShort => String::from_str(
                "Snapshot ID too short (minimum 8 characters)",
            ),
            AppError::SnapshotIdTooLong => String::from_str(
                "Snapshot ID too long (maximum 64 characters)",
            ),
            AppError::SnapshotIdNotHex => String::from_str(
                "Snapshot ID must be hexadecimal (0-9, a-f)",
            ),
            AppError::EmptyTargetPath => String::from_str("Target path cannot be empty"),
            AppError::InvalidTargetPath => String::from_str(
                "Target path contains invalid characters",
            ),
            AppError::RelativeTargetPath => String::from_str(
                "Target path must be absolute (e.g., C:\\restore or /home/user/restore)",
            ),
            AppError::ParentDirectoryNotFound(p) => {
                let mut s = String::from_str("Parent directory does not exist: ");
                s.append(p.as_str());
                s
            },
            AppError::EmptyIncludePath => String::from_str("Include path cannot be empty"),
            AppError::InvalidIncludePath => String::from_str(
                "Include path contains invalid characters",
            ),
            AppError::ExcessiveParentTraversal => String::from_str(
                "Include path contains excessive '..' components (max 3)",
            ),
            AppError::AbsoluteIncludePath => String::from_str(
                "Include path should be relative, not absolute",
            ),
            AppError::EmptyRepoId => String::from_str("Repository ID cannot be empty"),
            AppError::InvalidRepoId => String::from_str("Repository ID contains invalid characters"),
            AppError::InvalidRepoIdCharacters => String::from_str(
                "Repository ID can only contain letters, numbers, hyphens, and underscores",
            ),
            AppError::RepoIdTooLong => String::from_str(
                "Repository ID too long (maximum 100 characters)",
            ),
            AppError::EmptyPassword => String::from_str("Password cannot be empty"),
            AppError::InvalidPassword => String::from_str("Password contains invalid characters"),
            AppError::EmptyRepositoryName => String::from_str("Repository name cannot be empty"),
            AppError::RepositoryNameTooLong => String::from_str(
                "Repository name too long (maximum 200 characters)",
            ),
            AppError::NoIncludePaths => String::from_str(
                "At least one include path is required for selective restore",
            ),
            AppError::ResticExecution(m) => {
                let mut s = String::from_str("Failed to execute restic: ");
                s.append(m.as_str());
                s
            },
            AppError::ResticError(m) => {
                let mut s = String::from_str("Restic error: ");
                s.append(m.as_str());
                s
            },
            AppError::RestoreFailed(m) => {
                let mut s = String::from_str("Restore failed: ");
                s.append(m.as_str());
                s
            },
            AppError::SnapshotJsonParse(m) => {
                let mut s = String::from_str("Failed to parse snapshots JSON: ");
                s.append(m.as_str());
                s
            },
            AppError::StatsJsonParse(m) => {
                let mut s = String::from_str("Failed to parse stats JSON: ");
                s.append(m.as_str());
                s
            },
            AppError::RepoStatsJsonParse(m) => {
                let mut s = String::from_str("Failed to parse repository stats JSON: ");
                s.append(m.as_str());
                s
            },
            AppError::Storage(m) => {
                let mut s = String::new();
                s.append(m.as_str());
                s
            },
        }
    }
}

} // verus!
