//! The orchestrator: one deployment run as a strictly linear state
//! machine — config bootstrap (with prompts for missing fields), build,
//! trust bootstrap, remote directory, transfer.
//!
//! The driver performs one outside action at a time and feeds the outcome
//! back as an event; [`DeployRun::step`] decides everything. Every failure
//! is terminal: the step returns the matching error, the run enters
//! [`RunPhase::Failed`], and no event fits that phase any more, so no later
//! step can run.

use crate::codec::{config_to_json, json_of, parse_config, parse_config_text};
use crate::config::{arch_of, default_model, dest_of, ConfigModel, DeployConfig};
use crate::errors::DeployError;
use crate::workflow::{
    argv_model, artifact_path, artifact_path_of, build_args, build_argv, first_bin_from,
    mkdir_args, mkdir_argv, scp_args, scp_argv, select_binary_target, TargetInfo,
};
use vstd::prelude::*;

verus! {

#[derive(Clone, Copy, Debug, PartialEq, Eq, Structural)]
pub enum RunPhase {
    LoadingConfig,
    CreatingConfig,
    PromptingHost,
    PromptingUser,
    SavingConfig,
    Building,
    Trusting,
    Provisioning,
    Resolving,
    Copying,
    Done,
    Failed,
}

/// What the driver found at the config file path.
pub enum ConfigFileProbe {
    /// No file exists.
    Absent,
    /// A file exists but could not be read.
    Unreadable,
    /// The file's text.
    Contents { text: String },
}

/// The outcome of one outside action, fed back by the driver.
pub enum RunEvent {
    /// What the config file read found.
    ConfigFile { probe: ConfigFileProbe },
    /// Whether writing the config file succeeded.
    WriteResult { ok: bool },
    /// The line the user typed at the hostname/IP prompt.
    HostInput { line: String },
    /// The line the user typed at the username prompt.
    UserInput { line: String },
    /// Whether the pending subprocess (build, mkdir or copy) exited
    /// successfully.
    Exit { ok: bool },
    /// The outcome of the trust bootstrap.
    TrustOutcome { result: Result<(), DeployError> },
    /// The root package's build targets, or `None` when no root package
    /// could be resolved.
    Targets { root: Option<Vec<TargetInfo>> },
}

/// The next outside action the driver must perform.
#[derive(Debug)]
pub enum RunAction {
    /// Read the config file.
    ReadConfigFile,
    /// Write `text` to the config file.
    WriteConfigFile { text: String },
    /// Ask the user for the remote hostname/IP.
    PromptHost,
    /// Ask the user for the remote username.
    PromptUser,
    /// Run the cross-compiling build tool with these arguments.
    RunBuild { args: Vec<String> },
    /// Drive a trust bootstrap for `user@host`.
    BootstrapTrust { user: String, host: String },
    /// Run `ssh` with these arguments to create the remote directory.
    RunMkdir { args: Vec<String> },
    /// Query the project metadata for the root package's targets.
    QueryTargets,
    /// Run `scp` with these arguments.
    RunCopy { args: Vec<String> },
    /// The run is complete; print `message`.
    Report { message: String },
}

/// Which event each phase waits for; the failed and finished phases wait
/// for nothing.
pub open spec fn run_fits(p: RunPhase, ev: RunEvent) -> bool {
    match ev {
        RunEvent::ConfigFile { .. } => p == RunPhase::LoadingConfig,
        RunEvent::WriteResult { .. } => p == RunPhase::CreatingConfig || p
            == RunPhase::SavingConfig,
        RunEvent::HostInput { .. } => p == RunPhase::PromptingHost,
        RunEvent::UserInput { .. } => p == RunPhase::PromptingUser,
        RunEvent::Exit { .. } => p == RunPhase::Building || p == RunPhase::Provisioning || p
            == RunPhase::Copying,
        RunEvent::TrustOutcome { .. } => p == RunPhase::Trusting,
        RunEvent::Targets { .. } => p == RunPhase::Resolving,
    }
}

/// Law: a failed run accepts no further event — in particular, after a
/// non-zero exit of the build, provisioning or transfer step (which
/// [`DeployRun::step`] answers with the matching error and the failed
/// phase) no later step can run.
pub proof fn lemma_failed_accepts_nothing(ev: RunEvent)
    ensures
        !run_fits(RunPhase::Failed, ev),
{
}

/// Law: a finished run accepts no further event either.
pub proof fn lemma_done_accepts_nothing(ev: RunEvent)
    ensures
        !run_fits(RunPhase::Done, ev),
{
}

/// Where a run stands once its configuration is in hand: prompt for the
/// host, then for the user, then persist any change, then build.
pub open spec fn gate_phase(m: ConfigModel, dirty: bool) -> RunPhase {
    if m.name is None {
        RunPhase::PromptingHost
    } else if m.user is None {
        RunPhase::PromptingUser
    } else if dirty {
        RunPhase::SavingConfig
    } else {
        RunPhase::Building
    }
}

/// The action that belongs to the phase `gate_phase` picked.
pub open spec fn gate_action(
    r: Result<RunAction, DeployError>,
    m: ConfigModel,
    dirty: bool,
    release: bool,
) -> bool {
    match gate_phase(m, dirty) {
        RunPhase::PromptingHost => r == Ok::<RunAction, DeployError>(RunAction::PromptHost),
        RunPhase::PromptingUser => r == Ok::<RunAction, DeployError>(RunAction::PromptUser),
        RunPhase::SavingConfig => r matches Ok(RunAction::WriteConfigFile { text }) && text@
            == json_of(m),
        RunPhase::Building => r matches Ok(RunAction::RunBuild { args }) && argv_model(args@)
            == build_argv(arch_of(m), release),
        _ => false,
    }
}

/// One deployment run.
pub struct DeployRun {
    /// Release mode unless a debug build was asked for.
    pub release: bool,
    pub config: DeployConfig,
    /// Whether a prompt changed the record since it was last persisted.
    pub dirty: bool,
    pub phase: RunPhase,
}

impl DeployRun {
    pub open spec fn wf(self) -> bool {
        &&& (self.phase == RunPhase::PromptingUser || self.phase == RunPhase::SavingConfig
            || self.phase == RunPhase::Building || self.phase == RunPhase::Trusting || self.phase
            == RunPhase::Provisioning || self.phase == RunPhase::Resolving || self.phase
            == RunPhase::Copying) ==> self.config@.name is Some
        &&& (self.phase == RunPhase::SavingConfig || self.phase == RunPhase::Building
            || self.phase == RunPhase::Trusting || self.phase == RunPhase::Provisioning
            || self.phase == RunPhase::Resolving || self.phase == RunPhase::Copying)
            ==> self.config@.user is Some
    }

    /// A fresh run; the first action is reading the config file.
    pub fn new(release: bool) -> (m: Self)
        ensures
            m.phase == RunPhase::LoadingConfig,
            m.release == release,
            m.dirty == false,
            m.wf(),
    {
        DeployRun {
            release,
            config: DeployConfig {
                target_arch: None,
                target_dest: None,
                target_name: None,
                target_user: None,
            },
            dirty: false,
            phase: RunPhase::LoadingConfig,
        }
    }

    pub fn initial_action(&self) -> (a: RunAction)
        ensures
            a == RunAction::ReadConfigFile,
    {
        RunAction::ReadConfigFile
    }

    /// Moves past the config bootstrap: prompts for whatever is missing,
    /// persists a changed record, and otherwise starts the build.
    fn advance(&mut self) -> (r: Result<RunAction, DeployError>)
        ensures
            final(self).release == old(self).release,
            final(self).config == old(self).config,
            final(self).dirty == old(self).dirty,
            final(self).phase == gate_phase(old(self).config@, old(self).dirty),
            gate_action(r, old(self).config@, old(self).dirty, old(self).release),
            final(self).wf(),
    {
        if self.config.needs_name() {
            self.phase = RunPhase::PromptingHost;
            Ok(RunAction::PromptHost)
        } else if self.config.needs_user() {
            self.phase = RunPhase::PromptingUser;
            Ok(RunAction::PromptUser)
        } else if self.dirty {
            self.phase = RunPhase::SavingConfig;
            Ok(RunAction::WriteConfigFile { text: config_to_json(&self.config) })
        } else {
            self.phase = RunPhase::Building;
            let arch = self.config.arch_or_default();
            Ok(RunAction::RunBuild { args: build_args(arch.as_str(), self.release) })
        }
    }

    /// Feeds one event in and decides the next action. Every transition is
    /// pinned down: config probe outcomes, prompt handling (filling the
    /// user rewrites the destination), the hard gate on every subprocess
    /// exit, and the artifact path of the final copy.
    pub fn step(&mut self, ev: RunEvent) -> (r: Result<RunAction, DeployError>)
        requires
            run_fits(old(self).phase, ev),
            old(self).wf(),
        ensures
            final(self).release == old(self).release,
            final(self).wf(),
            match ev {
                RunEvent::ConfigFile { probe } => match probe {
                    ConfigFileProbe::Absent => {
                        &&& final(self).config@ == default_model()
                        &&& final(self).dirty == false
                        &&& final(self).phase == RunPhase::CreatingConfig
                        &&& r matches Ok(RunAction::WriteConfigFile { text }) && text@ == json_of(
                            default_model(),
                        )
                    },
                    ConfigFileProbe::Unreadable => r == Err::<RunAction, DeployError>(
                        DeployError::ConfigRead,
                    ) && final(self).phase == RunPhase::Failed,
                    ConfigFileProbe::Contents { text } => match parse_config_text(text@) {
                        Some(m) => {
                            &&& final(self).config@ == m
                            &&& final(self).dirty == false
                            &&& final(self).phase == gate_phase(m, false)
                            &&& gate_action(r, m, false, old(self).release)
                        },
                        None => r == Err::<RunAction, DeployError>(DeployError::ConfigParse)
                            && final(self).phase == RunPhase::Failed,
                    },
                },
                RunEvent::WriteResult { ok } => if ok {
                    &&& final(self).config == old(self).config
                    &&& final(self).dirty == false
                    &&& final(self).phase == gate_phase(old(self).config@, false)
                    &&& gate_action(r, old(self).config@, false, old(self).release)
                } else {
                    r == Err::<RunAction, DeployError>(DeployError::ConfigWrite) && final(self).phase == RunPhase::Failed
                },
                RunEvent::HostInput { line } => {
                    &&& final(self).config@ == (ConfigModel {
                        name: Some(line@),
                        ..old(self).config@
                    })
                    &&& final(self).dirty == true
                    &&& final(self).phase == gate_phase(final(self).config@, true)
                    &&& gate_action(r, final(self).config@, true, old(self).release)
                },
                RunEvent::UserInput { line } => {
                    &&& final(self).config@ == (ConfigModel {
                        user: Some(line@),
                        dest: Some("/home/"@ + line@ + "/bin"@),
                        ..old(self).config@
                    })
                    &&& final(self).dirty == true
                    &&& final(self).phase == gate_phase(final(self).config@, true)
                    &&& gate_action(r, final(self).config@, true, old(self).release)
                },
                RunEvent::Exit { ok } => if old(self).phase == RunPhase::Building {
                    if ok {
                        &&& final(self).config == old(self).config
                        &&& final(self).phase == RunPhase::Trusting
                        &&& r matches Ok(RunAction::BootstrapTrust { user, host }) && user@ == old(
                            self,
                        ).config@.user->0 && host@ == old(self).config@.name->0
                    } else {
                        r == Err::<RunAction, DeployError>(DeployError::Build) && final(self).phase == RunPhase::Failed
                    }
                } else if old(self).phase == RunPhase::Provisioning {
                    if ok {
                        &&& final(self).config == old(self).config
                        &&& final(self).phase == RunPhase::Resolving
                        &&& r == Ok::<RunAction, DeployError>(RunAction::QueryTargets)
                    } else {
                        r == Err::<RunAction, DeployError>(DeployError::RemoteProvision) && final(self).phase == RunPhase::Failed
                    }
                } else {
                    if ok {
                        &&& final(self).phase == RunPhase::Done
                        &&& r matches Ok(RunAction::Report { message }) && message@
                            == "Deployment complete."@
                    } else {
                        r == Err::<RunAction, DeployError>(DeployError::Transfer) && final(self).phase == RunPhase::Failed
                    }
                },
                RunEvent::TrustOutcome { result } => match result {
                    Ok(u) => {
                        &&& final(self).config == old(self).config
                        &&& final(self).phase == RunPhase::Provisioning
                        &&& r matches Ok(RunAction::RunMkdir { args }) && argv_model(args@)
                            == mkdir_argv(
                            old(self).config@.user->0,
                            old(self).config@.name->0,
                            dest_of(old(self).config@),
                        )
                    },
                    Err(e) => r == Err::<RunAction, DeployError>(e) && final(self).phase
                        == RunPhase::Failed,
                },
                RunEvent::Targets { root } => match root {
                    None => r == Err::<RunAction, DeployError>(DeployError::AmbiguousProject)
                        && final(self).phase == RunPhase::Failed,
                    Some(ts) => match first_bin_from(ts@, 0) {
                        Some(bi) => {
                            &&& final(self).config == old(self).config
                            &&& final(self).phase == RunPhase::Copying
                            &&& r matches Ok(RunAction::RunCopy { args }) && argv_model(args@)
                                == scp_argv(
                                artifact_path_of(
                                    arch_of(old(self).config@),
                                    old(self).release,
                                    ts@[bi].name@,
                                ),
                                old(self).config@.user->0,
                                old(self).config@.name->0,
                                dest_of(old(self).config@),
                            )
                        },
                        None => r == Err::<RunAction, DeployError>(DeployError::NoBinaryTarget)
                            && final(self).phase == RunPhase::Failed,
                    },
                },
            },
    {
        match ev {
            RunEvent::ConfigFile { probe } => match probe {
                ConfigFileProbe::Absent => {
                    self.config = DeployConfig::default();
                    self.dirty = false;
                    self.phase = RunPhase::CreatingConfig;
                    Ok(RunAction::WriteConfigFile { text: config_to_json(&self.config) })
                },
                ConfigFileProbe::Unreadable => {
                    self.phase = RunPhase::Failed;
                    Err(DeployError::ConfigRead)
                },
                ConfigFileProbe::Contents { text } => match parse_config(text.as_str()) {
                    Ok(c) => {
                        self.config = c;
                        self.dirty = false;
                        self.advance()
                    },
                    Err(e) => {
                        self.phase = RunPhase::Failed;
                        Err(e)
                    },
                },
            },
            RunEvent::WriteResult { ok } => {
                if ok {
                    self.dirty = false;
                    self.advance()
                } else {
                    self.phase = RunPhase::Failed;
                    Err(DeployError::ConfigWrite)
                }
            },
            RunEvent::HostInput { line } => {
                self.config.set_name(line);
                self.dirty = true;
                self.advance()
            },
            RunEvent::UserInput { line } => {
                self.config.set_user(line);
                self.dirty = true;
                self.advance()
            },
            RunEvent::Exit { ok } => {
                if matches!(self.phase, RunPhase::Building) {
                    if ok {
                        self.phase = RunPhase::Trusting;
                        let user = match &self.config.target_user {
                            Some(u) => u.clone(),
                            None => unreached(),
                        };
                        let host = match &self.config.target_name {
                            Some(h) => h.clone(),
                            None => unreached(),
                        };
                        Ok(RunAction::BootstrapTrust { user, host })
                    } else {
                        self.phase = RunPhase::Failed;
                        Err(DeployError::Build)
                    }
                } else if matches!(self.phase, RunPhase::Provisioning) {
                    if ok {
                        self.phase = RunPhase::Resolving;
                        Ok(RunAction::QueryTargets)
                    } else {
                        self.phase = RunPhase::Failed;
                        Err(DeployError::RemoteProvision)
                    }
                } else {
                    if ok {
                        self.phase = RunPhase::Done;
                        Ok(RunAction::Report { message: "Deployment complete.".to_owned() })
                    } else {
                        self.phase = RunPhase::Failed;
                        Err(DeployError::Transfer)
                    }
                }
            },
            RunEvent::TrustOutcome { result } => match result {
                Ok(_) => {
                    self.phase = RunPhase::Provisioning;
                    let user = match &self.config.target_user {
                        Some(u) => u.clone(),
                        None => unreached(),
                    };
                    let host = match &self.config.target_name {
                        Some(h) => h.clone(),
                        None => unreached(),
                    };
                    let dest = self.config.dest_or_default();
                    Ok(
                        RunAction::RunMkdir {
                            args: mkdir_args(user.as_str(), host.as_str(), dest.as_str()),
                        },
                    )
                },
                Err(e) => {
                    self.phase = RunPhase::Failed;
                    Err(e)
                },
            },
            RunEvent::Targets { root } => match root {
                None => {
                    self.phase = RunPhase::Failed;
                    Err(DeployError::AmbiguousProject)
                },
                Some(ts) => match select_binary_target(&ts) {
                    Ok(name) => {
                        self.phase = RunPhase::Copying;
                        let user = match &self.config.target_user {
                            Some(u) => u.clone(),
                            None => unreached(),
                        };
                        let host = match &self.config.target_name {
                            Some(h) => h.clone(),
                            None => unreached(),
                        };
                        let dest = self.config.dest_or_default();
                        let arch = self.config.arch_or_default();
                        let local = artifact_path(arch.as_str(), self.release, name.as_str());
                        Ok(
                            RunAction::RunCopy {
                                args: scp_args(
                                    local.as_str(),
                                    user.as_str(),
                                    host.as_str(),
                                    dest.as_str(),
                                ),
                            },
                        )
                    },
                    Err(e) => {
                        self.phase = RunPhase::Failed;
                        Err(e)
                    },
                },
            },
        }
    }
}

} // verus!
