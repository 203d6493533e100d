//! The persisted deployment configuration record.
//!
//! Each field is optional; `target_arch` and `target_dest` carry defaults,
//! `target_name` and `target_user` must be supplied interactively. Filling
//! the user also rewrites the destination to `/home/<user>/bin`, whatever
//! destination stood there before.

use vstd::prelude::*;

verus! {

/// The in-memory configuration record.
#[derive(Debug, PartialEq, Eq)]
pub struct DeployConfig {
    /// The instruction set of the remote device, for cross compiling.
    pub target_arch: Option<String>,
    /// The remote folder to which the executable is copied.
    pub target_dest: Option<String>,
    /// The hostname/IP of the remote device.
    pub target_name: Option<String>,
    /// The user on the remote device.
    pub target_user: Option<String>,
}

/// The mathematical model of a configuration record.
#[verifier::ext_equal]
pub struct ConfigModel {
    pub arch: Option<Seq<char>>,
    pub dest: Option<Seq<char>>,
    pub name: Option<Seq<char>>,
    pub user: Option<Seq<char>>,
}

pub open spec fn view_opt(o: Option<String>) -> Option<Seq<char>> {
    match o {
        Some(s) => Some(s@),
        None => None,
    }
}

impl View for DeployConfig {
    type V = ConfigModel;

    open spec fn view(&self) -> ConfigModel {
        ConfigModel {
            arch: view_opt(self.target_arch),
            dest: view_opt(self.target_dest),
            name: view_opt(self.target_name),
            user: view_opt(self.target_user),
        }
    }
}

pub open spec fn default_arch() -> Seq<char> {
    "aarch64-unknown-linux-gnu"@
}

pub open spec fn default_dest() -> Seq<char> {
    "/home/raspberry/bin"@
}

/// The architecture a record asks to build for.
pub open spec fn arch_of(m: ConfigModel) -> Seq<char> {
    match m.arch {
        Some(a) => a,
        None => default_arch(),
    }
}

/// The remote destination directory a record asks for.
pub open spec fn dest_of(m: ConfigModel) -> Seq<char> {
    match m.dest {
        Some(d) => d,
        None => default_dest(),
    }
}

/// The record constructed when no config file exists yet.
pub open spec fn default_model() -> ConfigModel {
    ConfigModel {
        arch: Some(default_arch()),
        dest: Some(default_dest()),
        name: None,
        user: None,
    }
}

impl Default for DeployConfig {
    /// The default record: architecture and destination filled with their
    /// documented defaults, host and user left for the prompt.
    fn default() -> (c: Self)
        ensures
            c@ == default_model(),
    {
        DeployConfig {
            target_arch: Some("aarch64-unknown-linux-gnu".to_owned()),
            target_dest: Some("/home/raspberry/bin".to_owned()),
            target_name: None,
            target_user: None,
        }
    }
}

impl DeployConfig {
    /// Whether the hostname/IP still has to be prompted for.
    pub fn needs_name(&self) -> (b: bool)
        ensures
            b == (self@.name is None),
    {
        self.target_name.is_none()
    }

    /// Whether the remote username still has to be prompted for.
    pub fn needs_user(&self) -> (b: bool)
        ensures
            b == (self@.user is None),
    {
        self.target_user.is_none()
    }

    /// Records the hostname/IP supplied at the prompt.
    pub fn set_name(&mut self, name: String)
        ensures
            final(self)@ == (ConfigModel { name: Some(name@), ..old(self)@ }),
    {
        self.target_name = Some(name);
    }

    /// Records the username supplied at the prompt, and rewrites the
    /// destination to `/home/<user>/bin` — unconditionally, even over a
    /// custom destination set earlier.
    pub fn set_user(&mut self, user: String)
        ensures
            final(self)@ == (ConfigModel {
                user: Some(user@),
                dest: Some("/home/"@ + user@ + "/bin"@),
                ..old(self)@
            }),
    {
        let dest = String::from_str("/home/").concat(user.as_str()).concat("/bin");
        self.target_user = Some(user);
        self.target_dest = Some(dest);
    }

    /// The architecture to build for: the configured one, or the documented
    /// default when the field is empty.
    pub fn arch_or_default(&self) -> (s: String)
        ensures
            s@ == arch_of(self@),
    {
        match &self.target_arch {
            Some(a) => a.clone(),
            None => "aarch64-unknown-linux-gnu".to_owned(),
        }
    }

    /// The remote destination directory: the configured one, or the
    /// documented default when the field is empty.
    pub fn dest_or_default(&self) -> (s: String)
        ensures
            s@ == dest_of(self@),
    {
        match &self.target_dest {
            Some(d) => d.clone(),
            None => "/home/raspberry/bin".to_owned(),
        }
    }
}

} // verus!
