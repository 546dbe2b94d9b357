use naia_supervisor::agent::{
    is_protocol_line, plan_agent_launch, SendEvent, SendPhase, SendProtocol, SendResult,
};

#[test]
fn live_handle_delivers_without_respawn() {
    let mut m = SendProtocol::new(true);
    assert_eq!(m.step(SendEvent::ProcessLive), SendPhase::Writing);
    let p = m.step(SendEvent::WriteOk);
    assert_eq!(p, SendPhase::Done(SendResult::Delivered { retried: false }));
    assert_eq!(m.respawns, 0);
    assert_eq!(m.writes, 1);
    assert_eq!(m.deliveries, 1);
}

#[test]
fn dead_handle_respawns_once_and_retries_once() {
    let mut m = SendProtocol::new(true);
    assert_eq!(m.step(SendEvent::ProcessDead), SendPhase::Respawning);
    assert_eq!(m.step(SendEvent::SpawnOk), SendPhase::Inspect);
    assert_eq!(m.step(SendEvent::ProcessLive), SendPhase::Writing);
    let p = m.step(SendEvent::WriteOk);
    assert_eq!(p, SendPhase::Done(SendResult::Delivered { retried: true }));
    assert_eq!(m.respawns, 1);
    assert_eq!(m.writes, 1);
    assert_eq!(m.deliveries, 1);
}

#[test]
fn second_crash_gets_its_own_respawn() {
    // two consecutive sends each finding a dead handle: each performs
    // one independent respawn and one retried write
    for _ in 0..2 {
        let mut m = SendProtocol::new(true);
        m.step(SendEvent::ProcessDead);
        m.step(SendEvent::SpawnOk);
        m.step(SendEvent::ProcessLive);
        let p = m.step(SendEvent::WriteOk);
        assert_eq!(p, SendPhase::Done(SendResult::Delivered { retried: true }));
        assert_eq!(m.respawns, 1);
        assert_eq!(m.deliveries, 1);
    }
}

#[test]
fn crash_between_sends_neither_loses_nor_duplicates() {
    // first send against the live process
    let mut first = SendProtocol::new(true);
    first.step(SendEvent::ProcessLive);
    assert_eq!(
        first.step(SendEvent::WriteOk),
        SendPhase::Done(SendResult::Delivered { retried: false })
    );
    assert_eq!(first.deliveries, 1);
    // the agent exits; the next send finds the handle dead, respawns,
    // and delivers its own message exactly once
    let mut second = SendProtocol::new(true);
    second.step(SendEvent::ProcessDead);
    second.step(SendEvent::SpawnOk);
    second.step(SendEvent::ProcessLive);
    assert_eq!(
        second.step(SendEvent::WriteOk),
        SendPhase::Done(SendResult::Delivered { retried: true })
    );
    assert_eq!(second.writes, 1);
    assert_eq!(second.deliveries, 1);
}

#[test]
fn write_failure_respawns_and_retries() {
    let mut m = SendProtocol::new(true);
    m.step(SendEvent::ProcessLive);
    assert_eq!(m.step(SendEvent::WriteError), SendPhase::Respawning);
    m.step(SendEvent::SpawnOk);
    m.step(SendEvent::ProcessLive);
    let p = m.step(SendEvent::WriteOk);
    assert_eq!(p, SendPhase::Done(SendResult::Delivered { retried: true }));
    assert_eq!(m.respawns, 1);
    assert_eq!(m.writes, 2);
    assert_eq!(m.deliveries, 1);
}

#[test]
fn no_restart_authority_fails_explicitly() {
    let mut m = SendProtocol::new(false);
    assert_eq!(m.step(SendEvent::SlotEmpty), SendPhase::Done(SendResult::NotRunning));
    assert_eq!(m.respawns, 0);

    let mut m = SendProtocol::new(false);
    m.step(SendEvent::ProcessLive);
    assert_eq!(m.step(SendEvent::WriteError), SendPhase::Done(SendResult::WriteFailed));
    assert_eq!(m.respawns, 0);
}

#[test]
fn failed_respawn_fails_the_send() {
    let mut m = SendProtocol::new(true);
    m.step(SendEvent::ProcessDead);
    assert_eq!(m.step(SendEvent::SpawnFailed), SendPhase::Done(SendResult::RestartFailed));
    assert_eq!(m.deliveries, 0);
}

#[test]
fn retry_never_respawns_again() {
    // the retry pass finds the fresh process already dead: the send
    // fails instead of respawning a second time
    let mut m = SendProtocol::new(true);
    m.step(SendEvent::ProcessDead);
    m.step(SendEvent::SpawnOk);
    assert_eq!(m.step(SendEvent::ProcessDead), SendPhase::Done(SendResult::NotRunning));
    assert_eq!(m.respawns, 1);

    // or its write fails: same, the failure is reported
    let mut m = SendProtocol::new(true);
    m.step(SendEvent::ProcessDead);
    m.step(SendEvent::SpawnOk);
    m.step(SendEvent::ProcessLive);
    assert_eq!(m.step(SendEvent::WriteError), SendPhase::Done(SendResult::WriteFailed));
    assert_eq!(m.respawns, 1);
}

#[test]
fn launch_plan_defaults_to_packaged_artifact() {
    let p = plan_agent_launch(None, None, None, None);
    assert_eq!(p.script, "../agent/dist/index.js");
    assert!(!p.uses_script_runner);
    assert_eq!(p.runner, "node");
}

#[test]
fn launch_plan_prefers_environment_script() {
    let p = plan_agent_launch(
        None,
        Some("custom/agent.ts".to_string()),
        None,
        Some("../../agent/src/index.ts".to_string()),
    );
    assert_eq!(p.script, "custom/agent.ts");
    assert!(p.uses_script_runner);
    assert_eq!(p.runner, "npx");
}

#[test]
fn launch_plan_uses_dev_checkout_when_found() {
    let p = plan_agent_launch(None, None, None, Some("../../agent/src/index.ts".to_string()));
    assert_eq!(p.script, "../../agent/src/index.ts");
    assert!(p.uses_script_runner);
    assert_eq!(p.runner, "npx");
}

#[test]
fn launch_plan_honours_runner_and_path_overrides() {
    let p = plan_agent_launch(None, Some("a.ts".to_string()), Some("bunx".to_string()), None);
    assert_eq!(p.runner, "bunx");

    let p = plan_agent_launch(Some("node22".to_string()), Some("dist/agent.js".to_string()), None, None);
    assert!(!p.uses_script_runner);
    assert_eq!(p.runner, "node22");
}

#[test]
fn relay_forwards_only_json_looking_lines() {
    assert!(is_protocol_line("{\"type\":\"text\"}"));
    assert!(is_protocol_line("   {\"a\":1}"));
    assert!(is_protocol_line("\t{"));
    assert!(!is_protocol_line(""));
    assert!(!is_protocol_line("   "));
    assert!(!is_protocol_line("listening on port 18789"));
    assert!(!is_protocol_line("x {\"a\":1}"));
}

#[test]
fn relay_trims_all_unicode_whitespace() {
    // the line filter agrees with str::trim on every whitespace kind
    assert!(is_protocol_line("\u{a0}{\"a\":1}"));
    assert!(is_protocol_line("\u{3000}\u{2028}{"));
    assert!(is_protocol_line("\u{85}\u{2009}{}"));
    assert!(!is_protocol_line("\u{a0}"));
    assert!(!is_protocol_line("\u{1680}\u{205f}"));
    assert!(!is_protocol_line("\u{a0}x{"));
    // zero-width space has no White_Space property: not trimmed
    assert!(!is_protocol_line("\u{200b}{"));
}
