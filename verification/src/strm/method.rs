//! The transfer tools and modes.

use vstd::prelude::*;
use vstd::string::*;

verus! {

/// A transfer tool and, for the cloud tool, its mode.
#[derive(Debug, Clone, Copy)]
pub enum SyncMethod {
    Rsync,
    RcloneCopy,
    RcloneSync,
}

impl SyncMethod {
    /// The method as it is written on a command line.
    pub open spec fn spec_text(&self) -> Seq<char> {
        match self {
            SyncMethod::Rsync => "rsync"@,
            SyncMethod::RcloneCopy => "rclone copy"@,
            SyncMethod::RcloneSync => "rclone sync"@,
        }
    }

    /// The method as it is written on a command line.
    pub fn to_text(&self) -> (r: String)
        ensures
            r@ == self.spec_text(),
    {
        match self {
            SyncMethod::Rsync => String::from_str("rsync"),
            SyncMethod::RcloneCopy => String::from_str("rclone copy"),
            SyncMethod::RcloneSync => String::from_str("rclone sync"),
        }
    }
}

} // verus!
