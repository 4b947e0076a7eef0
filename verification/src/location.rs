//! A directory or file, on this host or behind SSH.

use vstd::prelude::*;
use vstd::string::*;
use crate::ssh::SshConfig;
use crate::text::{trim_end, trim_end_matches};

verus! {

/// A path, whether it names a directory, and how to reach its host.
#[derive(Debug)]
pub struct DirLocation {
    pub path: String,
    pub is_dir: bool,
    pub ssh_config: Option<SshConfig>,
}

impl Default for DirLocation {
    fn default() -> (r: Self)
        ensures
            r.path@ == Seq::<char>::empty(),
            r.is_dir,
            r.ssh_config is None,
    {
        DirLocation { path: String::new(), is_dir: true, ssh_config: None }
    }
}

impl Clone for DirLocation {
    fn clone(&self) -> (r: Self)
        ensures
            r == *self,
    {
        let ssh_config = match &self.ssh_config {
            Some(c) => Some(c.clone()),
            None => None,
        };
        DirLocation { path: self.path.clone(), is_dir: self.is_dir, ssh_config }
    }
}

impl DirLocation {
    /// The path without trailing slashes, with exactly one when it names a
    /// directory.
    pub open spec fn spec_base_path(&self) -> Seq<char> {
        if self.is_dir {
            trim_end(self.path@, '/') + "/"@
        } else {
            trim_end(self.path@, '/')
        }
    }

    /// The path as the transfer tool takes it: `USER@HOST:PATH` for a remote
    /// location, the plain path otherwise.
    pub open spec fn spec_path(&self) -> Seq<char> {
        match self.ssh_config {
            Some(c) => c.spec_username() + "@"@ + c.ip@ + ":"@ + self.spec_base_path(),
            None => self.spec_base_path(),
        }
    }

    /// The remote-shell argument of the location's SSH configuration.
    pub open spec fn spec_rsync_arg(&self) -> Option<Seq<char>> {
        match self.ssh_config {
            Some(c) => c.spec_rsync_arg(),
            None => None,
        }
    }

    /// A location with the given path, kind and host.
    pub fn new(path: &str, is_dir: bool, ssh_config: Option<SshConfig>) -> (r: Self)
        ensures
            r.path@ == path@,
            r.is_dir == is_dir,
            r.ssh_config == ssh_config,
    {
        DirLocation { path: String::from_str(path), is_dir, ssh_config }
    }

    /// The path as the transfer tool takes it.
    pub fn get_path(&self) -> (r: String)
        ensures
            r@ == self.spec_path(),
    {
        let mut base = trim_end_matches(self.path.as_str(), '/');
        if self.is_dir {
            base.append("/");
        }
        match &self.ssh_config {
            Some(c) => {
                let mut r = String::from_str(c.get_username());
                r.append("@");
                r.append(c.get_ip());
                r.append(":");
                r.append(base.as_str());
                r
            },
            None => base,
        }
    }

    /// The SSH configuration of a remote location.
    pub fn ssh_config(&self) -> (r: Option<&SshConfig>)
        ensures
            r is Some == self.ssh_config is Some,
            r matches Some(c) ==> *c == self.ssh_config->0,
    {
        self.ssh_config.as_ref()
    }

    /// The remote-shell argument for rsync, if the location is remote and
    /// has a credential.
    pub fn to_rsync_arg(&self) -> (r: Option<String>)
        ensures
            r is Some == self.spec_rsync_arg() is Some,
            r matches Some(a) ==> a@ == self.spec_rsync_arg()->0,
    {
        match &self.ssh_config {
            Some(c) => c.to_rsync_arg(),
            None => None,
        }
    }
}

} // verus!
