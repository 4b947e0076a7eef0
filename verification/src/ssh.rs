//! Connection parameters for a remote shell.

use vstd::prelude::*;
use vstd::string::*;
use crate::text::{decimal, int_text};
use crate::command::clone_opt;

verus! {

/// Remote-shell options used when a password is supplied through `sshpass`.
pub const SSH_PASSWORD_OPTIONS: &'static str = "ssh -o StrictHostKeyChecking=no";

/// Parameters of an SSH connection. A key and a password may both be set;
/// the key then takes precedence.
#[derive(Debug)]
pub struct SshConfig {
    pub username: Option<String>,
    pub key_path: Option<String>,
    pub password: Option<String>,
    pub ip: String,
    pub port: Option<u16>,
}

impl Default for SshConfig {
    fn default() -> (r: Self)
        ensures
            r.username is None,
            r.key_path is None,
            r.password is None,
            r.ip@ == "127.0.0.1"@,
            r.port is None,
    {
        SshConfig {
            username: None,
            key_path: None,
            password: None,
            ip: String::from_str("127.0.0.1"),
            port: None,
        }
    }
}

impl Clone for SshConfig {
    fn clone(&self) -> (r: Self)
        ensures
            r == *self,
    {
        SshConfig {
            username: clone_opt(&self.username),
            key_path: clone_opt(&self.key_path),
            password: clone_opt(&self.password),
            ip: self.ip.clone(),
            port: self.port,
        }
    }
}

impl SshConfig {
    /// The user to log in as: the configured one, else `root`.
    pub open spec fn spec_username(&self) -> Seq<char> {
        match self.username {
            Some(u) => u@,
            None => "root"@,
        }
    }

    /// The port to connect to: the configured one, else 22.
    pub open spec fn spec_port(&self) -> u16 {
        match self.port {
            Some(p) => p,
            None => 22u16,
        }
    }

    /// The remote-shell argument for rsync: with a key, `ssh -i KEY -p PORT`;
    /// with a password only, `ssh -p PORT`; with neither, none.
    pub open spec fn spec_rsync_arg(&self) -> Option<Seq<char>> {
        match (self.key_path, self.password) {
            (Some(key), _) => Some("ssh -i "@ + key@ + " -p "@ + decimal(self.spec_port() as int)),
            (None, Some(_)) => Some("ssh -p "@ + decimal(self.spec_port() as int)),
            (None, None) => None,
        }
    }

    /// The default configuration: no user, no credentials, localhost.
    pub fn new() -> (r: Self)
        ensures
            r.username is None,
            r.key_path is None,
            r.password is None,
            r.ip@ == "127.0.0.1"@,
            r.port is None,
    {
        SshConfig::default()
    }

    /// Starts a chain of `with_` calls from the default configuration.
    pub fn builder() -> (r: Self)
        ensures
            r.username is None,
            r.key_path is None,
            r.password is None,
            r.ip@ == "127.0.0.1"@,
            r.port is None,
    {
        SshConfig::new()
    }

    /// Sets the user to log in as.
    pub fn with_username(self, username: String) -> (r: Self)
        ensures
            r == (SshConfig { username: Some(username), ..self }),
    {
        SshConfig { username: Some(username), ..self }
    }

    /// Sets the path of the private key.
    pub fn with_key_path(self, key_path: String) -> (r: Self)
        ensures
            r == (SshConfig { key_path: Some(key_path), ..self }),
    {
        SshConfig { key_path: Some(key_path), ..self }
    }

    /// Sets the password.
    pub fn with_password(self, password: String) -> (r: Self)
        ensures
            r == (SshConfig { password: Some(password), ..self }),
    {
        SshConfig { password: Some(password), ..self }
    }

    /// Sets the host, by address or name.
    pub fn with_ip(self, ip: String) -> (r: Self)
        ensures
            r == (SshConfig { ip: ip, ..self }),
    {
        SshConfig { ip: ip, ..self }
    }

    /// Sets the port.
    pub fn with_port(self, port: u16) -> (r: Self)
        ensures
            r == (SshConfig { port: Some(port), ..self }),
    {
        SshConfig { port: Some(port), ..self }
    }

    /// The user to log in as: the configured one, else `root`.
    pub fn get_username(&self) -> (r: &str)
        ensures
            r@ == self.spec_username(),
    {
        match &self.username {
            Some(u) => u.as_str(),
            None => "root",
        }
    }

    /// The host.
    pub fn get_ip(&self) -> (r: &str)
        ensures
            r@ == self.ip@,
    {
        self.ip.as_str()
    }

    /// The port to connect to: the configured one, else 22.
    pub fn get_port(&self) -> (r: u16)
        ensures
            r == self.spec_port(),
    {
        match self.port {
            Some(p) => p,
            None => 22,
        }
    }

    /// The password, if one is set.
    pub fn get_password(&self) -> (r: Option<&str>)
        ensures
            r is Some == self.password is Some,
            r matches Some(p) ==> p@ == self.password->0@,
    {
        match &self.password {
            Some(p) => Some(p.as_str()),
            None => None,
        }
    }

    /// Whether a password is set.
    pub fn has_password(&self) -> (r: bool)
        ensures
            r == self.password is Some,
    {
        self.password.is_some()
    }

    /// The remote-shell argument for rsync, if any credential is configured.
    pub fn to_rsync_arg(&self) -> (r: Option<String>)
        ensures
            r is Some == self.spec_rsync_arg() is Some,
            r matches Some(a) ==> a@ == self.spec_rsync_arg()->0,
    {
        let port = int_text(self.get_port() as i64);
        match &self.key_path {
            Some(key) => {
                let mut a = String::from_str("ssh -i ");
                a.append(key.as_str());
                a.append(" -p ");
                a.append(port.as_str());
                Some(a)
            },
            None => {
                if self.password.is_some() {
                    let mut a = String::from_str("ssh -p ");
                    a.append(port.as_str());
                    Some(a)
                } else {
                    None
                }
            },
        }
    }
}

} // verus!
