//! What can go wrong in a synchronisation.

use vstd::prelude::*;
use vstd::string::*;
use crate::text::{is_prefix, join2};

verus! {

/// An error of a synchronisation, with its detail.
#[derive(Debug)]
pub enum SyncError {
    /// A file-system operation failed.
    Io(String),
    /// A path could not be used or mapped.
    PathError(String),
    SyncOperationError(String),
    /// The configuration does not allow the operation.
    ConfigError(String),
    WatcherError(String),
    /// An ignore pattern is not a valid regular expression.
    RegexError(regex::Error),
    /// The file-system notification service failed.
    NotifyError(String),
    /// The cloud transfer tool failed; its error output.
    RcloneError(String),
    /// The local transfer tool failed; its error output.
    RsyncError(String),
    /// The file is already there; its path.
    FileExists(String),
    /// The operation is none of those on offer; its name.
    UnsupportedOperation(String),
}

/// The result of a synchronisation step.
pub type SyncResult<T> = Result<T, SyncError>;

/// Calls `to_string` on a `regex::Error`: the message its `Display` gives.
/// Nothing is claimed of the wording.
#[verifier::external_body]
fn describe_regex_error(e: &regex::Error) -> String {
    e.to_string()
}

impl SyncError {
    /// What the message starts with.
    pub open spec fn spec_prefix(&self) -> Seq<char> {
        match self {
            SyncError::Io(_) => "IO error: "@,
            SyncError::PathError(_) => "Path error: "@,
            SyncError::SyncOperationError(_) => "Sync operation error: "@,
            SyncError::ConfigError(_) => "Invalid configuration: "@,
            SyncError::WatcherError(_) => "File watcher error: "@,
            SyncError::RegexError(_) => "Regex error: "@,
            SyncError::NotifyError(_) => "Notification error: "@,
            SyncError::RcloneError(_) => "Rclone error: "@,
            SyncError::RsyncError(_) => "Rsync error: "@,
            SyncError::FileExists(_) => "File already exists: "@,
            SyncError::UnsupportedOperation(_) => "Unsupported operation: "@,
        }
    }

    /// The detail that follows; for a pattern error it is worded by the
    /// `regex` crate and not specified.
    pub open spec fn spec_detail(&self) -> Option<Seq<char>> {
        match self {
            SyncError::Io(d) => Some(d@),
            SyncError::PathError(d) => Some(d@),
            SyncError::SyncOperationError(d) => Some(d@),
            SyncError::ConfigError(d) => Some(d@),
            SyncError::WatcherError(d) => Some(d@),
            SyncError::RegexError(_) => None,
            SyncError::NotifyError(d) => Some(d@),
            SyncError::RcloneError(d) => Some(d@),
            SyncError::RsyncError(d) => Some(d@),
            SyncError::FileExists(d) => Some(d@),
            SyncError::UnsupportedOperation(d) => Some(d@),
        }
    }

    /// The message for a reader: what kind of error, then the detail.
    pub fn message(&self) -> (r: String)
        ensures
            is_prefix(self.spec_prefix(), r@),
            self.spec_detail() matches Some(d) ==> r@ == self.spec_prefix() + d,
    {
        let r = match self {
            SyncError::Io(d) => join2("IO error: ", d.as_str()),
            SyncError::PathError(d) => join2("Path error: ", d.as_str()),
            SyncError::SyncOperationError(d) => join2("Sync operation error: ", d.as_str()),
            SyncError::ConfigError(d) => join2("Invalid configuration: ", d.as_str()),
            SyncError::WatcherError(d) => join2("File watcher error: ", d.as_str()),
            SyncError::RegexError(e) => join2("Regex error: ", describe_regex_error(e).as_str()),
            SyncError::NotifyError(d) => join2("Notification error: ", d.as_str()),
            SyncError::RcloneError(d) => join2("Rclone error: ", d.as_str()),
            SyncError::RsyncError(d) => join2("Rsync error: ", d.as_str()),
            SyncError::FileExists(d) => join2("File already exists: ", d.as_str()),
            SyncError::UnsupportedOperation(d) => join2("Unsupported operation: ", d.as_str()),
        };
        proof {
            assert(r@.subrange(0, self.spec_prefix().len() as int) =~= self.spec_prefix());
        }
        r
    }
}

} // verus!
