//! The error taxonomy of the deployment workflow. Every error is terminal:
//! the driver prints the message and exits non-zero.

use vstd::prelude::*;

verus! {

#[derive(Clone, Copy, Debug, PartialEq, Eq, Structural)]
pub enum DeployError {
    /// The config file exists but could not be read.
    ConfigRead,
    /// The config file's contents are not valid JSON in the expected schema.
    ConfigParse,
    /// Writing the config file failed.
    ConfigWrite,
    /// The invoking user's home directory cannot be determined.
    HomeDirectoryUnknown,
    /// Generating the SSH key pair failed.
    KeyGeneration,
    /// Installing the public key on the remote host failed.
    KeyInstall,
    /// The build process exited non-zero.
    Build,
    /// The project metadata lists no binary build target.
    NoBinaryTarget,
    /// Root-package resolution is impossible.
    AmbiguousProject,
    /// Creating the remote directory failed.
    RemoteProvision,
    /// Copying the artifact to the remote host failed.
    Transfer,
}

pub open spec fn message_spec(e: DeployError) -> Seq<char> {
    match e {
        DeployError::ConfigRead => "Failed to read cargo_deploy.json"@,
        DeployError::ConfigParse => "Invalid JSON in cargo_deploy.json"@,
        DeployError::ConfigWrite => "Failed to write cargo_deploy.json"@,
        DeployError::HomeDirectoryUnknown => "HOME environment variable not set. Cannot locate '$HOME/.ssh/' on your machine."@,
        DeployError::KeyGeneration => "SSH key generation failed"@,
        DeployError::KeyInstall => "ssh-copy-id failed"@,
        DeployError::Build => "Build failed"@,
        DeployError::NoBinaryTarget => "No binary target found"@,
        DeployError::AmbiguousProject => "No root package found"@,
        DeployError::RemoteProvision => "Failed to create remote directory"@,
        DeployError::Transfer => "SCP file transfer failed"@,
    }
}

impl DeployError {
    /// The human-readable message the tool prints when it aborts on this
    /// error.
    pub fn message(&self) -> (s: String)
        ensures
            s@ == message_spec(*self),
    {
        match self {
            DeployError::ConfigRead => "Failed to read cargo_deploy.json".to_owned(),
            DeployError::ConfigParse => "Invalid JSON in cargo_deploy.json".to_owned(),
            DeployError::ConfigWrite => "Failed to write cargo_deploy.json".to_owned(),
            DeployError::HomeDirectoryUnknown => "HOME environment variable not set. Cannot locate '$HOME/.ssh/' on your machine.".to_owned(),
            DeployError::KeyGeneration => "SSH key generation failed".to_owned(),
            DeployError::KeyInstall => "ssh-copy-id failed".to_owned(),
            DeployError::Build => "Build failed".to_owned(),
            DeployError::NoBinaryTarget => "No binary target found".to_owned(),
            DeployError::AmbiguousProject => "No root package found".to_owned(),
            DeployError::RemoteProvision => "Failed to create remote directory".to_owned(),
            DeployError::Transfer => "SCP file transfer failed".to_owned(),
        }
    }
}

} // verus!
