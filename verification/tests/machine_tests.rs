use cargo_deploy::errors::DeployError;
use cargo_deploy::run::{ConfigFileProbe, DeployRun, RunAction, RunEvent, RunPhase};
use cargo_deploy::trust::{TrustAction, TrustEvent, TrustMachine, TrustPhase};
use cargo_deploy::workflow::{artifact_path, key_comment, select_binary_target, transfer_message, TargetInfo};

fn target(name: &str, kinds: &[&str]) -> TargetInfo {
    TargetInfo {
        name: name.to_string(),
        kinds: kinds.iter().map(|k| k.to_string()).collect(),
    }
}

#[test]
fn probe_action_arguments() {
    let m = TrustMachine::new("alice".to_string(), "pi.local".to_string(), "c".to_string());
    match m.probe_action() {
        TrustAction::RunProbe { args } => {
            assert_eq!(
                args,
                vec!["-o", "BatchMode=yes", "-o", "ConnectTimeout=5", "alice@pi.local", "echo connected"]
            );
        }
        _ => panic!("expected the probe command"),
    }
}

#[test]
fn trust_probe_success_is_noop() {
    // A successful connectivity probe ends the bootstrap: no key check, no
    // generation, no installation.
    let mut m = TrustMachine::new("alice".to_string(), "pi.local".to_string(), "c".to_string());
    let r = m.step(TrustEvent::ProbeResult { ok: true });
    assert!(matches!(r, Ok(TrustAction::Finished)));
    assert_eq!(m.phase, TrustPhase::Done);
}

#[test]
fn trust_full_bootstrap() {
    let comment = key_comment("cargo_deploy", "0.1.0");
    assert_eq!(comment, "Key generated by cargo_deploy, Version: 0.1.0");
    let mut m = TrustMachine::new("alice".to_string(), "pi.local".to_string(), comment.clone());
    let r = m.step(TrustEvent::ProbeResult { ok: false });
    assert!(matches!(r, Ok(TrustAction::LookupHome)));
    let r = m.step(TrustEvent::HomeDir { dir: Some("/home/me".to_string()) });
    match r {
        Ok(TrustAction::CheckKey { path }) => {
            assert_eq!(path, "/home/me/.ssh/id_ed25519_alice_pi_local");
        }
        _ => panic!("expected a key check"),
    }
    let r = m.step(TrustEvent::KeyExists { yes: false });
    match r {
        Ok(TrustAction::GenerateKey { args }) => {
            assert_eq!(
                args,
                vec![
                    "-t",
                    "ed25519",
                    "-f",
                    "/home/me/.ssh/id_ed25519_alice_pi_local",
                    "-N",
                    "",
                    "-C",
                    "Key generated by cargo_deploy, Version: 0.1.0"
                ]
            );
        }
        _ => panic!("expected key generation"),
    }
    let r = m.step(TrustEvent::KeygenExit { ok: true });
    match r {
        Ok(TrustAction::InstallKey { args }) => {
            assert_eq!(
                args,
                vec!["-i", "/home/me/.ssh/id_ed25519_alice_pi_local", "alice@pi.local"]
            );
        }
        _ => panic!("expected key installation"),
    }
    let r = m.step(TrustEvent::InstallExit { ok: true });
    assert!(matches!(r, Ok(TrustAction::Finished)));
    assert_eq!(m.phase, TrustPhase::Done);
}

#[test]
fn trust_existing_key_skips_generation() {
    // A key already at the deterministic path: generation is skipped but
    // installation still runs.
    let mut m = TrustMachine::new("alice".to_string(), "pi.local".to_string(), "c".to_string());
    m.step(TrustEvent::ProbeResult { ok: false }).unwrap();
    m.step(TrustEvent::HomeDir { dir: Some("/home/me".to_string()) }).unwrap();
    let r = m.step(TrustEvent::KeyExists { yes: true });
    assert!(matches!(r, Ok(TrustAction::InstallKey { .. })));
    assert_eq!(m.phase, TrustPhase::AwaitInstall);
}

#[test]
fn trust_home_unknown_fails() {
    let mut m = TrustMachine::new("a".to_string(), "h".to_string(), "c".to_string());
    m.step(TrustEvent::ProbeResult { ok: false }).unwrap();
    let r = m.step(TrustEvent::HomeDir { dir: None });
    assert_eq!(r.unwrap_err(), DeployError::HomeDirectoryUnknown);
    assert_eq!(m.phase, TrustPhase::Failed);
}

#[test]
fn trust_keygen_failure_fails() {
    let mut m = TrustMachine::new("a".to_string(), "h".to_string(), "c".to_string());
    m.step(TrustEvent::ProbeResult { ok: false }).unwrap();
    m.step(TrustEvent::HomeDir { dir: Some("/home/me".to_string()) }).unwrap();
    m.step(TrustEvent::KeyExists { yes: false }).unwrap();
    let r = m.step(TrustEvent::KeygenExit { ok: false });
    assert_eq!(r.unwrap_err(), DeployError::KeyGeneration);
}

#[test]
fn trust_install_failure_fails() {
    let mut m = TrustMachine::new("a".to_string(), "h".to_string(), "c".to_string());
    m.step(TrustEvent::ProbeResult { ok: false }).unwrap();
    m.step(TrustEvent::HomeDir { dir: Some("/home/me".to_string()) }).unwrap();
    m.step(TrustEvent::KeyExists { yes: true }).unwrap();
    let r = m.step(TrustEvent::InstallExit { ok: false });
    assert_eq!(r.unwrap_err(), DeployError::KeyInstall);
}

#[test]
fn run_end_to_end_fresh_config() {
    // Config file absent; the user supplies "pi.local" and "alice".
    let mut m = DeployRun::new(true);
    assert!(matches!(m.initial_action(), RunAction::ReadConfigFile));
    let r = m.step(RunEvent::ConfigFile { probe: ConfigFileProbe::Absent });
    match r {
        Ok(RunAction::WriteConfigFile { text }) => {
            assert!(text.contains("\"target_arch\": \"aarch64-unknown-linux-gnu\""));
        }
        _ => panic!("expected the default file to be written"),
    }
    let r = m.step(RunEvent::WriteResult { ok: true });
    assert!(matches!(r, Ok(RunAction::PromptHost)));
    let r = m.step(RunEvent::HostInput { line: "pi.local".to_string() });
    assert!(matches!(r, Ok(RunAction::PromptUser)));
    let r = m.step(RunEvent::UserInput { line: "alice".to_string() });
    assert!(matches!(r, Ok(RunAction::WriteConfigFile { .. })));
    assert_eq!(m.config.target_arch.as_deref(), Some("aarch64-unknown-linux-gnu"));
    assert_eq!(m.config.target_dest.as_deref(), Some("/home/alice/bin"));
    assert_eq!(m.config.target_name.as_deref(), Some("pi.local"));
    assert_eq!(m.config.target_user.as_deref(), Some("alice"));
    let r = m.step(RunEvent::WriteResult { ok: true });
    match r {
        Ok(RunAction::RunBuild { args }) => {
            assert_eq!(args, vec!["build", "--target", "aarch64-unknown-linux-gnu", "--release"]);
        }
        _ => panic!("expected the build to start"),
    }
    let r = m.step(RunEvent::Exit { ok: true });
    match r {
        Ok(RunAction::BootstrapTrust { user, host }) => {
            assert_eq!(user, "alice");
            assert_eq!(host, "pi.local");
        }
        _ => panic!("expected the trust bootstrap"),
    }
    let r = m.step(RunEvent::TrustOutcome { result: Ok(()) });
    match r {
        Ok(RunAction::RunMkdir { args }) => {
            assert_eq!(args, vec!["alice@pi.local", "mkdir -p /home/alice/bin"]);
        }
        _ => panic!("expected the remote directory step"),
    }
    let r = m.step(RunEvent::Exit { ok: true });
    assert!(matches!(r, Ok(RunAction::QueryTargets)));
    let targets = vec![target("mylib", &["lib"]), target("myapp", &["bin"])];
    let r = m.step(RunEvent::Targets { root: Some(targets) });
    match r {
        Ok(RunAction::RunCopy { args }) => {
            assert_eq!(
                args,
                vec![
                    "target/aarch64-unknown-linux-gnu/release/myapp",
                    "alice@pi.local:/home/alice/bin"
                ]
            );
        }
        _ => panic!("expected the transfer"),
    }
    let r = m.step(RunEvent::Exit { ok: true });
    match r {
        Ok(RunAction::Report { message }) => assert_eq!(message, "Deployment complete."),
        _ => panic!("expected the final report"),
    }
    assert_eq!(m.phase, RunPhase::Done);
}

#[test]
fn run_complete_config_goes_straight_to_build() {
    let mut m = DeployRun::new(false);
    let text = "{\"target_arch\":\"x\",\"target_dest\":\"/d\",\"target_name\":\"h\",\"target_user\":\"u\"}";
    let r = m.step(RunEvent::ConfigFile {
        probe: ConfigFileProbe::Contents { text: text.to_string() },
    });
    match r {
        Ok(RunAction::RunBuild { args }) => {
            assert_eq!(args, vec!["build", "--target", "x"]);
        }
        _ => panic!("expected the build to start"),
    }
}

#[test]
fn run_build_failure_stops_everything() {
    let mut m = DeployRun::new(true);
    let text = "{\"target_arch\":null,\"target_dest\":\"/d\",\"target_name\":\"h\",\"target_user\":\"u\"}";
    m.step(RunEvent::ConfigFile { probe: ConfigFileProbe::Contents { text: text.to_string() } })
        .unwrap();
    let r = m.step(RunEvent::Exit { ok: false });
    assert_eq!(r.unwrap_err(), DeployError::Build);
    assert_eq!(m.phase, RunPhase::Failed);
}

#[test]
fn run_provision_failure_stops_everything() {
    let mut m = DeployRun::new(true);
    let text = "{\"target_arch\":null,\"target_dest\":\"/d\",\"target_name\":\"h\",\"target_user\":\"u\"}";
    m.step(RunEvent::ConfigFile { probe: ConfigFileProbe::Contents { text: text.to_string() } })
        .unwrap();
    m.step(RunEvent::Exit { ok: true }).unwrap();
    m.step(RunEvent::TrustOutcome { result: Ok(()) }).unwrap();
    let r = m.step(RunEvent::Exit { ok: false });
    assert_eq!(r.unwrap_err(), DeployError::RemoteProvision);
    assert_eq!(m.phase, RunPhase::Failed);
}

#[test]
fn run_transfer_failure_stops_everything() {
    let mut m = DeployRun::new(true);
    let text = "{\"target_arch\":null,\"target_dest\":\"/d\",\"target_name\":\"h\",\"target_user\":\"u\"}";
    m.step(RunEvent::ConfigFile { probe: ConfigFileProbe::Contents { text: text.to_string() } })
        .unwrap();
    m.step(RunEvent::Exit { ok: true }).unwrap();
    m.step(RunEvent::TrustOutcome { result: Ok(()) }).unwrap();
    m.step(RunEvent::Exit { ok: true }).unwrap();
    m.step(RunEvent::Targets { root: Some(vec![target("app", &["bin"])]) }).unwrap();
    let r = m.step(RunEvent::Exit { ok: false });
    assert_eq!(r.unwrap_err(), DeployError::Transfer);
    assert_eq!(m.phase, RunPhase::Failed);
    assert_eq!(
        transfer_message("h"),
        "SCP file transfer failed. Check your connection to h"
    );
}

#[test]
fn run_trust_failure_propagates() {
    let mut m = DeployRun::new(true);
    let text = "{\"target_arch\":null,\"target_dest\":\"/d\",\"target_name\":\"h\",\"target_user\":\"u\"}";
    m.step(RunEvent::ConfigFile { probe: ConfigFileProbe::Contents { text: text.to_string() } })
        .unwrap();
    m.step(RunEvent::Exit { ok: true }).unwrap();
    let r = m.step(RunEvent::TrustOutcome { result: Err(DeployError::KeyInstall) });
    assert_eq!(r.unwrap_err(), DeployError::KeyInstall);
    assert_eq!(m.phase, RunPhase::Failed);
}

#[test]
fn run_unreadable_config_fails() {
    let mut m = DeployRun::new(true);
    let r = m.step(RunEvent::ConfigFile { probe: ConfigFileProbe::Unreadable });
    assert_eq!(r.unwrap_err(), DeployError::ConfigRead);
    assert_eq!(m.phase, RunPhase::Failed);
}

#[test]
fn run_invalid_config_fails() {
    let mut m = DeployRun::new(true);
    let r = m.step(RunEvent::ConfigFile {
        probe: ConfigFileProbe::Contents { text: "not json".to_string() },
    });
    assert_eq!(r.unwrap_err(), DeployError::ConfigParse);
    assert_eq!(m.phase, RunPhase::Failed);
}

#[test]
fn run_config_write_failure_fails() {
    let mut m = DeployRun::new(true);
    m.step(RunEvent::ConfigFile { probe: ConfigFileProbe::Absent }).unwrap();
    let r = m.step(RunEvent::WriteResult { ok: false });
    assert_eq!(r.unwrap_err(), DeployError::ConfigWrite);
    assert_eq!(m.phase, RunPhase::Failed);
}

#[test]
fn run_no_binary_target_fails() {
    let mut m = DeployRun::new(true);
    let text = "{\"target_arch\":null,\"target_dest\":\"/d\",\"target_name\":\"h\",\"target_user\":\"u\"}";
    m.step(RunEvent::ConfigFile { probe: ConfigFileProbe::Contents { text: text.to_string() } })
        .unwrap();
    m.step(RunEvent::Exit { ok: true }).unwrap();
    m.step(RunEvent::TrustOutcome { result: Ok(()) }).unwrap();
    m.step(RunEvent::Exit { ok: true }).unwrap();
    let r = m.step(RunEvent::Targets { root: Some(vec![target("mylib", &["lib"])]) });
    assert_eq!(r.unwrap_err(), DeployError::NoBinaryTarget);
}

#[test]
fn run_no_root_package_fails() {
    let mut m = DeployRun::new(true);
    let text = "{\"target_arch\":null,\"target_dest\":\"/d\",\"target_name\":\"h\",\"target_user\":\"u\"}";
    m.step(RunEvent::ConfigFile { probe: ConfigFileProbe::Contents { text: text.to_string() } })
        .unwrap();
    m.step(RunEvent::Exit { ok: true }).unwrap();
    m.step(RunEvent::TrustOutcome { result: Ok(()) }).unwrap();
    m.step(RunEvent::Exit { ok: true }).unwrap();
    let r = m.step(RunEvent::Targets { root: None });
    assert_eq!(r.unwrap_err(), DeployError::AmbiguousProject);
}

#[test]
fn select_binary_target_picks_first_bin() {
    let ts = vec![
        target("lib1", &["lib"]),
        target("app1", &["bin"]),
        target("app2", &["bin"]),
    ];
    assert_eq!(select_binary_target(&ts).unwrap(), "app1");
}

#[test]
fn select_binary_target_none() {
    let ts = vec![target("lib1", &["lib"]), target("proc", &["proc-macro"])];
    assert_eq!(select_binary_target(&ts), Err(DeployError::NoBinaryTarget));
    let empty: Vec<TargetInfo> = Vec::new();
    assert_eq!(select_binary_target(&empty), Err(DeployError::NoBinaryTarget));
}

#[test]
fn artifact_path_debug_and_release() {
    assert_eq!(
        artifact_path("aarch64-unknown-linux-gnu", true, "app"),
        "target/aarch64-unknown-linux-gnu/release/app"
    );
    assert_eq!(
        artifact_path("aarch64-unknown-linux-gnu", false, "app"),
        "target/aarch64-unknown-linux-gnu/debug/app"
    );
}

#[test]
fn debug_mode_build_has_no_release_flag() {
    let mut m = DeployRun::new(false);
    let text = "{\"target_arch\":null,\"target_dest\":\"/d\",\"target_name\":\"h\",\"target_user\":\"u\"}";
    let r = m.step(RunEvent::ConfigFile {
        probe: ConfigFileProbe::Contents { text: text.to_string() },
    });
    match r {
        Ok(RunAction::RunBuild { args }) => {
            assert_eq!(args, vec!["build", "--target", "aarch64-unknown-linux-gnu"]);
        }
        _ => panic!("expected the build to start"),
    }
}
