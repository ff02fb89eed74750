use vstd::prelude::*;

verus! {

/// The class of an operating-system I/O error, as the daemon's decisions
/// read it.
#[derive(Debug, Clone, Copy, PartialEq, Eq, Structural)]
pub enum IoErrorKind {
    NotFound,
    PermissionDenied,
    BrokenPipe,
    WouldBlock,
    Interrupted,
    Other,
}

/// Every failure the daemon reports.
#[derive(Debug)]
pub enum QosError {
    /// An operating-system I/O failure: its kind and its rendered message.
    IoError(IoErrorKind, String),
    SystemCheckFailed(String),
    PermissionDenied(String),
    InvalidPath(String),
    InvalidInput(String),
    PsiParseError(String),
    FfiError(String),
}

/// The prefix under which a variant is shown to a human.
pub open spec fn error_prefix(e: QosError) -> Seq<char> {
    match e {
        QosError::IoError(_, _) => "I/O Error: "@,
        QosError::SystemCheckFailed(_) => "System Check Failed: "@,
        QosError::PermissionDenied(_) => "Permission Denied: "@,
        QosError::InvalidPath(_) => "Invalid Path: "@,
        QosError::InvalidInput(_) => "Invalid Input: "@,
        QosError::PsiParseError(_) => "PSI Parse Error: "@,
        QosError::FfiError(_) => "FFI Error: "@,
    }
}

/// The text that follows the prefix.
pub open spec fn error_detail(e: QosError) -> Seq<char> {
    match e {
        QosError::IoError(_, m) => m@,
        QosError::SystemCheckFailed(s) => s@,
        QosError::PermissionDenied(s) => s@,
        QosError::InvalidPath(s) => s@,
        QosError::InvalidInput(s) => s@,
        QosError::PsiParseError(s) => s@,
        QosError::FfiError(s) => s@,
    }
}

impl QosError {
    /// The human-readable form of the error: its prefix followed by its detail.
    pub fn describe(&self) -> (text: String)
        ensures
            text@ == error_prefix(*self) + error_detail(*self),
    {
        match self {
            QosError::IoError(_, m) => {
                let mut t = String::from_str("I/O Error: ");
                t.append(m.as_str());
                t
            },
            QosError::SystemCheckFailed(s) => {
                let mut t = String::from_str("System Check Failed: ");
                t.append(s.as_str());
                t
            },
            QosError::PermissionDenied(s) => {
                let mut t = String::from_str("Permission Denied: ");
                t.append(s.as_str());
                t
            },
            QosError::InvalidPath(s) => {
                let mut t = String::from_str("Invalid Path: ");
                t.append(s.as_str());
                t
            },
            QosError::InvalidInput(s) => {
                let mut t = String::from_str("Invalid Input: ");
                t.append(s.as_str());
                t
            },
            QosError::PsiParseError(s) => {
                let mut t = String::from_str("PSI Parse Error: ");
                t.append(s.as_str());
                t
            },
            QosError::FfiError(s) => {
                let mut t = String::from_str("FFI Error: ");
                t.append(s.as_str());
                t
            },
        }
    }
}

} // verus!
