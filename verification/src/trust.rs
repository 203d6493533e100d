//! The trust bootstrapper: makes sure a command can run on `user@host`
//! without interactive prompts.
//!
//! The bootstrap is a small state machine. The driver performs one outside
//! action at a time (probe, home lookup, key check, key generation, key
//! installation) and feeds the outcome back as an event; [`TrustMachine::step`]
//! decides everything. The probe succeeding ends the run at once, and an
//! existing key at the deterministic path skips generation — both proved
//! below over whole runs.

use crate::errors::DeployError;
use crate::workflow::{
    argv_model, copy_id_args, copy_id_argv, key_path_of, keygen_args, keygen_argv, probe_args,
    probe_argv, ssh_key_path,
};
use vstd::prelude::*;

verus! {

#[derive(Clone, Copy, Debug, PartialEq, Eq, Structural)]
pub enum TrustPhase {
    AwaitProbe,
    AwaitHome,
    AwaitKeyCheck,
    AwaitKeygen,
    AwaitInstall,
    Done,
    Failed,
}

/// The outcome of one outside action, fed back by the driver.
pub enum TrustEvent {
    /// Whether the non-interactive probe command succeeded.
    ProbeResult { ok: bool },
    /// The invoking user's home directory, if it could be determined.
    HomeDir { dir: Option<String> },
    /// Whether a key file already exists at the deterministic path.
    KeyExists { yes: bool },
    /// Whether key generation exited successfully.
    KeygenExit { ok: bool },
    /// Whether key installation exited successfully.
    InstallExit { ok: bool },
}

/// The next outside action the driver must perform.
#[derive(Debug)]
pub enum TrustAction {
    /// Run `ssh` with these arguments, without interaction.
    RunProbe { args: Vec<String> },
    /// Determine the invoking user's home directory.
    LookupHome,
    /// Check whether a file exists at `path`.
    CheckKey { path: String },
    /// Run `ssh-keygen` with these arguments.
    GenerateKey { args: Vec<String> },
    /// Run `ssh-copy-id` with these arguments; this is the one step that
    /// may prompt for a password.
    InstallKey { args: Vec<String> },
    /// Trust is established; nothing more to do.
    Finished,
}

/// Which event each phase waits for.
pub open spec fn trust_fits(p: TrustPhase, ev: TrustEvent) -> bool {
    match ev {
        TrustEvent::ProbeResult { .. } => p == TrustPhase::AwaitProbe,
        TrustEvent::HomeDir { .. } => p == TrustPhase::AwaitHome,
        TrustEvent::KeyExists { .. } => p == TrustPhase::AwaitKeyCheck,
        TrustEvent::KeygenExit { .. } => p == TrustPhase::AwaitKeygen,
        TrustEvent::InstallExit { .. } => p == TrustPhase::AwaitInstall,
    }
}

/// The phase transition relation; an event that does not fit leaves the
/// phase unchanged.
pub open spec fn trust_phase_next(p: TrustPhase, ev: TrustEvent) -> TrustPhase {
    if !trust_fits(p, ev) {
        p
    } else {
        match ev {
            TrustEvent::ProbeResult { ok } => if ok {
                TrustPhase::Done
            } else {
                TrustPhase::AwaitHome
            },
            TrustEvent::HomeDir { dir } => if dir is Some {
                TrustPhase::AwaitKeyCheck
            } else {
                TrustPhase::Failed
            },
            TrustEvent::KeyExists { yes } => if yes {
                TrustPhase::AwaitInstall
            } else {
                TrustPhase::AwaitKeygen
            },
            TrustEvent::KeygenExit { ok } => if ok {
                TrustPhase::AwaitInstall
            } else {
                TrustPhase::Failed
            },
            TrustEvent::InstallExit { ok } => if ok {
                TrustPhase::Done
            } else {
                TrustPhase::Failed
            },
        }
    }
}

/// The phases a run passes through, one per event.
pub open spec fn trust_phases(p: TrustPhase, evs: Seq<TrustEvent>) -> Seq<TrustPhase>
    decreases evs.len(),
{
    if evs.len() == 0 {
        Seq::<TrustPhase>::empty()
    } else {
        let p2 = trust_phase_next(p, evs[0]);
        seq![p2] + trust_phases(p2, evs.drop_first())
    }
}

proof fn lemma_trust_phases_len(p: TrustPhase, evs: Seq<TrustEvent>)
    ensures
        trust_phases(p, evs).len() == evs.len(),
    decreases evs.len(),
{
    if evs.len() > 0 {
        lemma_trust_phases_len(trust_phase_next(p, evs[0]), evs.drop_first());
    }
}

proof fn lemma_trust_absorbing(p: TrustPhase, evs: Seq<TrustEvent>)
    requires
        p == TrustPhase::Done || p == TrustPhase::Failed,
    ensures
        forall|t: int|
            0 <= t < trust_phases(p, evs).len() ==> #[trigger] trust_phases(p, evs)[t] == p,
    decreases evs.len(),
{
    if evs.len() > 0 {
        assert(trust_phase_next(p, evs[0]) == p);
        lemma_trust_absorbing(p, evs.drop_first());
        assert forall|t: int| 0 <= t < trust_phases(p, evs).len() implies #[trigger] trust_phases(
            p,
            evs,
        )[t] == p by {
            if t > 0 {
                assert(trust_phases(p, evs)[t] == trust_phases(p, evs.drop_first())[t - 1]);
            }
        }
    }
}

/// Law: if the connectivity probe succeeds, the bootstrap is finished at
/// once — in the whole rest of the run the machine sits in its final
/// phase, so no key is ever generated and no installation ever runs.
pub proof fn lemma_probe_ok_is_noop(evs: Seq<TrustEvent>)
    requires
        evs.len() >= 1,
        evs[0] == (TrustEvent::ProbeResult { ok: true }),
    ensures
        forall|t: int|
            0 <= t < trust_phases(TrustPhase::AwaitProbe, evs).len() ==> #[trigger] trust_phases(
                TrustPhase::AwaitProbe,
                evs,
            )[t] == TrustPhase::Done,
{
    let ps = trust_phases(TrustPhase::AwaitProbe, evs);
    assert(trust_phase_next(TrustPhase::AwaitProbe, evs[0]) == TrustPhase::Done);
    lemma_trust_absorbing(TrustPhase::Done, evs.drop_first());
    assert forall|t: int| 0 <= t < ps.len() implies #[trigger] ps[t] == TrustPhase::Done by {
        if t > 0 {
            assert(ps[t] == trust_phases(TrustPhase::Done, evs.drop_first())[t - 1]);
        }
    }
}

proof fn lemma_no_keygen_ahead(p: TrustPhase, evs: Seq<TrustEvent>)
    requires
        p == TrustPhase::AwaitInstall || p == TrustPhase::Done || p == TrustPhase::Failed,
    ensures
        forall|t: int|
            0 <= t < trust_phases(p, evs).len() ==> #[trigger] trust_phases(p, evs)[t]
                != TrustPhase::AwaitKeygen,
    decreases evs.len(),
{
    if evs.len() > 0 {
        let p2 = trust_phase_next(p, evs[0]);
        assert(p2 == TrustPhase::AwaitInstall || p2 == TrustPhase::Done || p2
            == TrustPhase::Failed);
        lemma_no_keygen_ahead(p2, evs.drop_first());
        assert forall|t: int| 0 <= t < trust_phases(p, evs).len() implies #[trigger] trust_phases(
            p,
            evs,
        )[t] != TrustPhase::AwaitKeygen by {
            if t > 0 {
                assert(trust_phases(p, evs)[t] == trust_phases(p2, evs.drop_first())[t - 1]);
            }
        }
    }
}

/// Law: when the probe fails, the home directory is known, and a key
/// already exists at the deterministic path, the run moves straight to
/// installation — generation is skipped, in that step and in every later
/// one, while installation still runs.
pub proof fn lemma_existing_key_skips_generation(evs: Seq<TrustEvent>, home: String)
    requires
        evs.len() >= 3,
        evs[0] == (TrustEvent::ProbeResult { ok: false }),
        evs[1] == (TrustEvent::HomeDir { dir: Some(home) }),
        evs[2] == (TrustEvent::KeyExists { yes: true }),
    ensures
        trust_phases(TrustPhase::AwaitProbe, evs)[2] == TrustPhase::AwaitInstall,
        forall|t: int|
            0 <= t < trust_phases(TrustPhase::AwaitProbe, evs).len() ==> #[trigger] trust_phases(
                TrustPhase::AwaitProbe,
                evs,
            )[t] != TrustPhase::AwaitKeygen,
{
    let ps = trust_phases(TrustPhase::AwaitProbe, evs);
    let e1 = evs.drop_first();
    let e2 = e1.drop_first();
    let e3 = e2.drop_first();
    lemma_trust_phases_len(TrustPhase::AwaitProbe, evs);
    lemma_trust_phases_len(TrustPhase::AwaitHome, e1);
    lemma_trust_phases_len(TrustPhase::AwaitKeyCheck, e2);
    lemma_trust_phases_len(TrustPhase::AwaitInstall, e3);
    assert(e1[0] == evs[1] && e1[1] == evs[2]);
    assert(e2[0] == evs[2]);
    assert(trust_phase_next(TrustPhase::AwaitProbe, evs[0]) == TrustPhase::AwaitHome);
    assert(trust_phase_next(TrustPhase::AwaitHome, evs[1]) == TrustPhase::AwaitKeyCheck);
    assert(trust_phase_next(TrustPhase::AwaitKeyCheck, evs[2]) == TrustPhase::AwaitInstall);
    assert(ps[0] == TrustPhase::AwaitHome);
    assert(ps[1] == trust_phases(TrustPhase::AwaitHome, e1)[0]);
    assert(ps[2] == trust_phases(TrustPhase::AwaitHome, e1)[1]);
    assert(trust_phases(TrustPhase::AwaitHome, e1)[1] == trust_phases(
        TrustPhase::AwaitKeyCheck,
        e2,
    )[0]);
    assert(ps[2] == TrustPhase::AwaitInstall);
    lemma_no_keygen_ahead(TrustPhase::AwaitInstall, e3);
    assert forall|t: int| 0 <= t < ps.len() implies #[trigger] ps[t] != TrustPhase::AwaitKeygen by {
        if t >= 3 {
            assert(ps[t] == trust_phases(TrustPhase::AwaitHome, e1)[t - 1]);
            assert(trust_phases(TrustPhase::AwaitHome, e1)[t - 1] == trust_phases(
                TrustPhase::AwaitKeyCheck,
                e2,
            )[t - 2]);
            assert(trust_phases(TrustPhase::AwaitKeyCheck, e2)[t - 2] == trust_phases(
                TrustPhase::AwaitInstall,
                e3,
            )[t - 3]);
        }
    }
}

/// The trust bootstrapper for one `user@host`.
pub struct TrustMachine {
    pub user: String,
    pub host: String,
    /// The comment a freshly generated key is tagged with.
    pub comment: String,
    /// The deterministic key path, once the home directory is known.
    pub key_path: Option<String>,
    pub phase: TrustPhase,
}

impl TrustMachine {
    pub open spec fn wf(self) -> bool {
        (self.phase == TrustPhase::AwaitKeyCheck || self.phase == TrustPhase::AwaitKeygen
            || self.phase == TrustPhase::AwaitInstall) ==> self.key_path is Some
    }

    /// Starts a bootstrap for `user@host`; `comment` tags any key that has
    /// to be generated.
    pub fn new(user: String, host: String, comment: String) -> (m: Self)
        ensures
            m.phase == TrustPhase::AwaitProbe,
            m.user == user,
            m.host == host,
            m.comment == comment,
            m.key_path is None,
            m.wf(),
    {
        TrustMachine { user, host, comment, key_path: None, phase: TrustPhase::AwaitProbe }
    }

    /// The probe command every run starts with.
    pub fn probe_action(&self) -> (a: TrustAction)
        ensures
            a matches TrustAction::RunProbe { args } && argv_model(args@) == probe_argv(
                self.user@,
                self.host@,
            ),
    {
        TrustAction::RunProbe { args: probe_args(self.user.as_str(), self.host.as_str()) }
    }

    /// Feeds one event in and decides the next action; every transition is
    /// pinned down below, and the phase moves as `trust_phase_next` says.
    pub fn step(&mut self, ev: TrustEvent) -> (r: Result<TrustAction, DeployError>)
        requires
            trust_fits(old(self).phase, ev),
            old(self).wf(),
        ensures
            final(self).user == old(self).user,
            final(self).host == old(self).host,
            final(self).comment == old(self).comment,
            final(self).phase == trust_phase_next(old(self).phase, ev),
            final(self).wf(),
            match ev {
                TrustEvent::ProbeResult { ok } => final(self).key_path == old(self).key_path && (
                if ok {
                    r == Ok::<TrustAction, DeployError>(TrustAction::Finished)
                } else {
                    r == Ok::<TrustAction, DeployError>(TrustAction::LookupHome)
                }),
                TrustEvent::HomeDir { dir } => match dir {
                    Some(home) => {
                        &&& r matches Ok(TrustAction::CheckKey { path }) && path@ == key_path_of(
                            home@,
                            old(self).user@,
                            old(self).host@,
                        )
                        &&& final(self).key_path matches Some(p) && p@ == key_path_of(
                            home@,
                            old(self).user@,
                            old(self).host@,
                        )
                    },
                    None => r == Err::<TrustAction, DeployError>(DeployError::HomeDirectoryUnknown),
                },
                TrustEvent::KeyExists { yes } => final(self).key_path == old(self).key_path && (
                if yes {
                    r matches Ok(TrustAction::InstallKey { args }) && argv_model(args@)
                        == copy_id_argv(
                        old(self).key_path->0@,
                        old(self).user@,
                        old(self).host@,
                    )
                } else {
                    r matches Ok(TrustAction::GenerateKey { args }) && argv_model(args@)
                        == keygen_argv(old(self).key_path->0@, old(self).comment@)
                }),
                TrustEvent::KeygenExit { ok } => final(self).key_path == old(self).key_path && (
                if ok {
                    r matches Ok(TrustAction::InstallKey { args }) && argv_model(args@)
                        == copy_id_argv(
                        old(self).key_path->0@,
                        old(self).user@,
                        old(self).host@,
                    )
                } else {
                    r == Err::<TrustAction, DeployError>(DeployError::KeyGeneration)
                }),
                TrustEvent::InstallExit { ok } => final(self).key_path == old(self).key_path && (
                if ok {
                    r == Ok::<TrustAction, DeployError>(TrustAction::Finished)
                } else {
                    r == Err::<TrustAction, DeployError>(DeployError::KeyInstall)
                }),
            },
    {
        match ev {
            TrustEvent::ProbeResult { ok } => {
                if ok {
                    self.phase = TrustPhase::Done;
                    Ok(TrustAction::Finished)
                } else {
                    self.phase = TrustPhase::AwaitHome;
                    Ok(TrustAction::LookupHome)
                }
            },
            TrustEvent::HomeDir { dir } => match dir {
                Some(home) => {
                    let path = ssh_key_path(
                        home.as_str(),
                        self.user.as_str(),
                        self.host.as_str(),
                    );
                    self.key_path = Some(path.clone());
                    self.phase = TrustPhase::AwaitKeyCheck;
                    Ok(TrustAction::CheckKey { path })
                },
                None => {
                    self.phase = TrustPhase::Failed;
                    Err(DeployError::HomeDirectoryUnknown)
                },
            },
            TrustEvent::KeyExists { yes } => {
                let path = match &self.key_path {
                    Some(p) => p.clone(),
                    None => unreached(),
                };
                if yes {
                    self.phase = TrustPhase::AwaitInstall;
                    Ok(
                        TrustAction::InstallKey {
                            args: copy_id_args(
                                path.as_str(),
                                self.user.as_str(),
                                self.host.as_str(),
                            ),
                        },
                    )
                } else {
                    self.phase = TrustPhase::AwaitKeygen;
                    Ok(
                        TrustAction::GenerateKey {
                            args: keygen_args(path.as_str(), self.comment.as_str()),
                        },
                    )
                }
            },
            TrustEvent::KeygenExit { ok } => {
                if ok {
                    let path = match &self.key_path {
                        Some(p) => p.clone(),
                        None => unreached(),
                    };
                    self.phase = TrustPhase::AwaitInstall;
                    Ok(
                        TrustAction::InstallKey {
                            args: copy_id_args(
                                path.as_str(),
                                self.user.as_str(),
                                self.host.as_str(),
                            ),
                        },
                    )
                } else {
                    self.phase = TrustPhase::Failed;
                    Err(DeployError::KeyGeneration)
                }
            },
            TrustEvent::InstallExit { ok } => {
                if ok {
                    self.phase = TrustPhase::Done;
                    Ok(TrustAction::Finished)
                } else {
                    self.phase = TrustPhase::Failed;
                    Err(DeployError::KeyInstall)
                }
            },
        }
    }
}

} // verus!
