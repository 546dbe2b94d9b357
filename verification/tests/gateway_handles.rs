use naia_supervisor::gateway::{
    attach_handle, plan_gateway_setup, plan_teardown, spawned_handle, GatewayHandle, GatewayPlan,
    HealthWait, WaitStep, HEALTH_WAIT_MAX_POLLS,
};

#[test]
fn healthy_probe_means_attach() {
    assert_eq!(plan_gateway_setup(true), GatewayPlan::Attach);
    assert_eq!(plan_gateway_setup(false), GatewayPlan::Spawn);
}

#[test]
fn gateway_process_we_spawned_flag() {
    let process = attach_handle(None);
    assert!(!process.we_spawned);
    assert!(process.node_host_pid.is_none());

    let process2 = spawned_handle(4242, Some(4243));
    assert!(process2.we_spawned);
    assert!(process2.node_host_pid.is_some());
}

#[test]
fn teardown_never_kills_an_attached_gateway() {
    let h = attach_handle(Some(7));
    let p = plan_teardown(&h);
    assert_eq!(p.kill_gateway, None);
    assert!(!p.remove_gateway_record);
    // the node host is always ours: killed first, record cleared
    assert_eq!(p.kill_node_host, Some(7));
    assert!(p.remove_node_host_record);
}

#[test]
fn teardown_always_kills_an_owned_gateway() {
    let h = spawned_handle(910, Some(911));
    let p = plan_teardown(&h);
    assert_eq!(p.kill_gateway, Some(910));
    assert!(p.remove_gateway_record);
    assert_eq!(p.kill_node_host, Some(911));

    let lone = GatewayHandle { pid: 77, node_host_pid: None, we_spawned: true };
    let p = plan_teardown(&lone);
    assert_eq!(p.kill_gateway, Some(77));
    assert_eq!(p.kill_node_host, None);
}

#[test]
fn health_wait_stops_at_first_healthy_answer() {
    let mut w = HealthWait::new();
    assert_eq!(w.record_poll(false), WaitStep::PollAgain);
    assert_eq!(w.record_poll(false), WaitStep::PollAgain);
    assert_eq!(w.record_poll(true), WaitStep::BecameHealthy);
}

#[test]
fn health_wait_gives_up_after_its_budget() {
    let mut w = HealthWait::new();
    for i in 1..HEALTH_WAIT_MAX_POLLS {
        assert_eq!(w.record_poll(false), WaitStep::PollAgain, "poll {}", i);
    }
    assert_eq!(w.record_poll(false), WaitStep::GiveUp);
}
