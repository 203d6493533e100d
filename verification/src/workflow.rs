//! The derived strings and command lines of the deployment workflow: the
//! connection string, the deterministic SSH key path, the artifact path,
//! and the exact argument vectors handed to the external tools. Everything
//! here is a pure function of the configuration, with an exact contract.

use crate::chars::str_eq;
use crate::config::default_arch;
use crate::errors::DeployError;
use crate::sanitize::{sanitize_hostname, sanitize_spec};
use vstd::prelude::*;

verus! {

// ---------------------------------------------------------------------
// Derived strings.
// ---------------------------------------------------------------------
pub open spec fn conn_string_of(user: Seq<char>, host: Seq<char>) -> Seq<char> {
    user + "@"@ + host
}

pub open spec fn key_path_of(home: Seq<char>, user: Seq<char>, host: Seq<char>) -> Seq<char> {
    home + "/.ssh/id_ed25519_"@ + user + "_"@ + sanitize_spec(host)
}

pub open spec fn profile_name(release: bool) -> Seq<char> {
    if release {
        "release"@
    } else {
        "debug"@
    }
}

pub open spec fn artifact_path_of(arch: Seq<char>, release: bool, name: Seq<char>) -> Seq<char> {
    "target/"@ + arch + "/"@ + profile_name(release) + "/"@ + name
}

pub open spec fn mkdir_command_of(dest: Seq<char>) -> Seq<char> {
    "mkdir -p "@ + dest
}

pub open spec fn scp_target_of(user: Seq<char>, host: Seq<char>, dest: Seq<char>) -> Seq<char> {
    conn_string_of(user, host) + ":"@ + dest
}

pub open spec fn key_comment_of(tool: Seq<char>, version: Seq<char>) -> Seq<char> {
    "Key generated by "@ + tool + ", Version: "@ + version
}

pub open spec fn transfer_message_of(host: Seq<char>) -> Seq<char> {
    "SCP file transfer failed. Check your connection to "@ + host
}

/// `user@host`, recomputed each run; never persisted.
pub fn connection_string(user: &str, host: &str) -> (s: String)
    ensures
        s@ == conn_string_of(user@, host@),
{
    String::from_str(user).concat("@").concat(host)
}

/// `<home>/.ssh/id_ed25519_<user>_<sanitized host>`: the deterministic key
/// path that makes the trust bootstrap idempotent.
pub fn ssh_key_path(home: &str, user: &str, host: &str) -> (s: String)
    ensures
        s@ == key_path_of(home@, user@, host@),
{
    let tail = sanitize_hostname(host);
    String::from_str(home).concat("/.ssh/id_ed25519_").concat(user).concat("_").concat(
        tail.as_str(),
    )
}

/// `target/<arch>/<profile>/<name>`, where the built artifact lands.
pub fn artifact_path(arch: &str, release: bool, name: &str) -> (s: String)
    ensures
        s@ == artifact_path_of(arch@, release, name@),
{
    let profile = if release {
        "release"
    } else {
        "debug"
    };
    String::from_str("target/").concat(arch).concat("/").concat(profile).concat("/").concat(name)
}

/// The comment a freshly generated key carries, naming the generating tool
/// and its version.
pub fn key_comment(tool: &str, version: &str) -> (s: String)
    ensures
        s@ == key_comment_of(tool@, version@),
{
    String::from_str("Key generated by ").concat(tool).concat(", Version: ").concat(version)
}

/// The message printed when the transfer fails, naming the target host.
pub fn transfer_message(host: &str) -> (s: String)
    ensures
        s@ == transfer_message_of(host@),
{
    String::from_str("SCP file transfer failed. Check your connection to ").concat(host)
}

// ---------------------------------------------------------------------
// Argument vectors for the external tools.
// ---------------------------------------------------------------------
pub open spec fn argv_model(args: Seq<String>) -> Seq<Seq<char>> {
    args.map_values(|s: String| s@)
}

/// `ssh` arguments for the five-second, non-interactive connectivity probe.
pub open spec fn probe_argv(user: Seq<char>, host: Seq<char>) -> Seq<Seq<char>> {
    seq![
        "-o"@,
        "BatchMode=yes"@,
        "-o"@,
        "ConnectTimeout=5"@,
        conn_string_of(user, host),
        "echo connected"@,
    ]
}

/// `ssh-keygen` arguments: an ed25519 key at `path`, no passphrase.
pub open spec fn keygen_argv(path: Seq<char>, comment: Seq<char>) -> Seq<Seq<char>> {
    seq!["-t"@, "ed25519"@, "-f"@, path, "-N"@, ""@, "-C"@, comment]
}

/// `ssh-copy-id` arguments: install the key at `path` on `user@host`.
pub open spec fn copy_id_argv(path: Seq<char>, user: Seq<char>, host: Seq<char>) -> Seq<Seq<char>> {
    seq!["-i"@, path, conn_string_of(user, host)]
}

/// Build-tool arguments: `build --target <arch>`, plus `--release` unless a
/// debug build was asked for.
pub open spec fn build_argv(arch: Seq<char>, release: bool) -> Seq<Seq<char>> {
    if release {
        seq!["build"@, "--target"@, arch, "--release"@]
    } else {
        seq!["build"@, "--target"@, arch]
    }
}

/// `ssh` arguments for the remote `mkdir -p`.
pub open spec fn mkdir_argv(user: Seq<char>, host: Seq<char>, dest: Seq<char>) -> Seq<Seq<char>> {
    seq![conn_string_of(user, host), mkdir_command_of(dest)]
}

/// `scp` arguments: the local artifact, then `user@host:dest`.
pub open spec fn scp_argv(local: Seq<char>, user: Seq<char>, host: Seq<char>, dest: Seq<char>) -> Seq<
    Seq<char>,
> {
    seq![local, scp_target_of(user, host, dest)]
}

pub fn probe_args(user: &str, host: &str) -> (args: Vec<String>)
    ensures
        argv_model(args@) == probe_argv(user@, host@),
{
    let mut args: Vec<String> = Vec::new();
    args.push("-o".to_owned());
    args.push("BatchMode=yes".to_owned());
    args.push("-o".to_owned());
    args.push("ConnectTimeout=5".to_owned());
    args.push(connection_string(user, host));
    args.push("echo connected".to_owned());
    proof {
        assert(argv_model(args@) =~= probe_argv(user@, host@));
    }
    args
}

pub fn keygen_args(path: &str, comment: &str) -> (args: Vec<String>)
    ensures
        argv_model(args@) == keygen_argv(path@, comment@),
{
    let mut args: Vec<String> = Vec::new();
    args.push("-t".to_owned());
    args.push("ed25519".to_owned());
    args.push("-f".to_owned());
    args.push(path.to_owned());
    args.push("-N".to_owned());
    args.push("".to_owned());
    args.push("-C".to_owned());
    args.push(comment.to_owned());
    proof {
        assert(argv_model(args@) =~= keygen_argv(path@, comment@));
    }
    args
}

pub fn copy_id_args(path: &str, user: &str, host: &str) -> (args: Vec<String>)
    ensures
        argv_model(args@) == copy_id_argv(path@, user@, host@),
{
    let mut args: Vec<String> = Vec::new();
    args.push("-i".to_owned());
    args.push(path.to_owned());
    args.push(connection_string(user, host));
    proof {
        assert(argv_model(args@) =~= copy_id_argv(path@, user@, host@));
    }
    args
}

pub fn build_args(arch: &str, release: bool) -> (args: Vec<String>)
    ensures
        argv_model(args@) == build_argv(arch@, release),
{
    let mut args: Vec<String> = Vec::new();
    args.push("build".to_owned());
    args.push("--target".to_owned());
    args.push(arch.to_owned());
    if release {
        args.push("--release".to_owned());
    }
    proof {
        assert(argv_model(args@) =~= build_argv(arch@, release));
    }
    args
}

pub fn mkdir_args(user: &str, host: &str, dest: &str) -> (args: Vec<String>)
    ensures
        argv_model(args@) == mkdir_argv(user@, host@, dest@),
{
    let mut args: Vec<String> = Vec::new();
    args.push(connection_string(user, host));
    args.push(String::from_str("mkdir -p ").concat(dest));
    proof {
        assert(argv_model(args@) =~= mkdir_argv(user@, host@, dest@));
    }
    args
}

pub fn scp_args(local: &str, user: &str, host: &str, dest: &str) -> (args: Vec<String>)
    ensures
        argv_model(args@) == scp_argv(local@, user@, host@, dest@),
{
    let mut args: Vec<String> = Vec::new();
    args.push(local.to_owned());
    args.push(connection_string(user, host).concat(":").concat(dest));
    proof {
        assert(argv_model(args@) =~= scp_argv(local@, user@, host@, dest@));
    }
    args
}

// ---------------------------------------------------------------------
// Artifact name resolution.
// ---------------------------------------------------------------------
/// One build target of the project, as plain values: its name and the list
/// of target kinds the metadata gives it.
#[derive(Debug)]
pub struct TargetInfo {
    pub name: String,
    pub kinds: Vec<String>,
}

/// Whether a target is a binary target.
pub open spec fn is_bin_target(t: TargetInfo) -> bool {
    exists|j: int| 0 <= j < t.kinds@.len() && (#[trigger] t.kinds@[j])@ == "bin"@
}

/// The index of the first binary target, scanning from `i`.
pub open spec fn first_bin_from(ts: Seq<TargetInfo>, i: int) -> Option<int>
    decreases ts.len() - i when 0 <= i <= ts.len()
{
    if i >= ts.len() {
        None
    } else if is_bin_target(ts[i]) {
        Some(i)
    } else {
        first_bin_from(ts, i + 1)
    }
}

/// The name of the single binary build target: the first target whose kind
/// list holds `"bin"`. With no such target the project cannot be deployed.
pub fn select_binary_target(ts: &Vec<TargetInfo>) -> (r: Result<String, DeployError>)
    ensures
        match r {
            Ok(name) => {
                &&& first_bin_from(ts@, 0) is Some
                &&& name@ == ts@[first_bin_from(ts@, 0)->0].name@
            },
            Err(e) => first_bin_from(ts@, 0) is None && e == DeployError::NoBinaryTarget,
        },
{
    let n = ts.len();
    let mut i: usize = 0;
    while i < n
        invariant
            n == ts@.len(),
            i <= n,
            first_bin_from(ts@, 0) == first_bin_from(ts@, i as int),
        decreases n - i,
    {
        let t = &ts[i];
        let m = t.kinds.len();
        let mut j: usize = 0;
        let mut found = false;
        while j < m
            invariant
                m == t.kinds@.len(),
                j <= m,
                t == ts@[i as int],
                found ==> is_bin_target(ts@[i as int]),
                !found ==> forall|u: int| 0 <= u < j ==> (#[trigger] t.kinds@[u])@ != "bin"@,
            decreases m - j,
        {
            if !found && str_eq(t.kinds[j].as_str(), "bin") {
                found = true;
                proof {
                    assert((t.kinds@[j as int])@ == "bin"@);
                }
            }
            j = j + 1;
        }
        if found {
            return Ok(t.name.clone());
        }
        proof {
            assert(!is_bin_target(ts@[i as int])) by {
                if is_bin_target(ts@[i as int]) {
                    let u = choose|u: int|
                        0 <= u < t.kinds@.len() && (#[trigger] t.kinds@[u])@ == "bin"@;
                    assert((t.kinds@[u])@ != "bin"@);
                }
            }
        }
        i = i + 1;
    }
    Err(DeployError::NoBinaryTarget)
}

} // verus!