use vstd::prelude::*;

verus! {

/// The structural or filesystem problem that made a configuration invalid.
#[derive(Clone, Copy, Debug, PartialEq, Eq, Structural)]
pub enum ConfigIssue {
    MissingWorkdir,
    EmptyCommand,
    EmptySegment,
    EmptyProjectName,
    NoApplications,
    NoProjects,
}

/// The text shown to the user for each issue.
pub open spec fn reason_text(issue: ConfigIssue) -> Seq<char> {
    match issue {
        ConfigIssue::MissingWorkdir => "project directory no longer exists"@,
        ConfigIssue::EmptyCommand => "startup command needs to be specified"@,
        ConfigIssue::EmptySegment => "malformed command, a segment cannot be empty"@,
        ConfigIssue::EmptyProjectName => "project name cannot be empty"@,
        ConfigIssue::NoApplications => "project must contain at least one application"@,
        ConfigIssue::NoProjects => "no projects in config"@,
    }
}

impl ConfigIssue {
    /// The human-readable reason for this issue.
    pub fn reason(&self) -> (r: &'static str)
        ensures
            r@ == reason_text(*self),
    {
        match self {
            ConfigIssue::MissingWorkdir => "project directory no longer exists",
            ConfigIssue::EmptyCommand => "startup command needs to be specified",
            ConfigIssue::EmptySegment => "malformed command, a segment cannot be empty",
            ConfigIssue::EmptyProjectName => "project name cannot be empty",
            ConfigIssue::NoApplications => "project must contain at least one application",
            ConfigIssue::NoProjects => "no projects in config",
        }
    }
}

/// Errors that the launcher's logic can report.
#[derive(Clone, Copy, Debug, PartialEq, Eq, Structural)]
pub enum WorkonError {
    InvalidConfig(ConfigIssue),
    InvalidProjectNameError,
}

pub type WorkonResult<T> = Result<T, WorkonError>;

/// The result of a check that found `issue` (or nothing) on `v`.
pub open spec fn verdict<T>(v: T, issue: Option<ConfigIssue>) -> WorkonResult<T> {
    match issue {
        Some(i) => Err(WorkonError::InvalidConfig(i)),
        None => Ok(v),
    }
}

} // verus!
