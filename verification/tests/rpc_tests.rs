use hermit_server::clock::Clock;
use hermit_server::rpc::{HermitService, ServerState};

fn test_state() -> ServerState {
    ServerState {
        version: "0.1.0".to_string(),
        region: "us-west1".to_string(),
        started_at_secs: 1_700_000_000,
        started_at_nanos: 123_456_789,
        grpc_port: 9090,
        tcp_port: 9091,
    }
}

#[test]
fn ping_echoes_and_orders_timestamps() {
    let svc = HermitService::new(test_state(), true);
    let mut clock = Clock::new();
    let r = svc.ping(&mut clock, -12345);
    assert_eq!(r.client_send_ns, -12345);
    assert!(0 <= r.server_recv_ns);
    assert!(r.server_recv_ns <= r.server_send_ns);
}

#[test]
fn benchmark_zero_iterations_is_clamped_to_one() {
    let svc = HermitService::new(test_state(), false);
    let mut clock = Clock::new();
    let r = svc.benchmark(&mut clock, 0, 0);
    assert_eq!(r.latencies_ns.len(), 1);
    assert!(r.latencies_ns[0] >= 0);
    assert_eq!(r.min_ns, r.latencies_ns[0]);
    assert_eq!(r.max_ns, r.latencies_ns[0]);
    assert_eq!(r.mean_ns, r.latencies_ns[0]);
    assert!(!r.tls_active);
    assert_eq!(r.tls_version, "");
}

#[test]
fn benchmark_oversized_iterations_are_clamped_to_ten_thousand() {
    let svc = HermitService::new(test_state(), true);
    let mut clock = Clock::new();
    let r = svc.benchmark(&mut clock, 50_000, 1024);
    assert_eq!(r.latencies_ns.len(), 10_000);
    for &sample in &r.latencies_ns {
        assert!(sample >= 0);
    }
    for pair in r.latencies_ns.windows(2) {
        assert!(pair[0] <= pair[1]);
    }
    assert_eq!(r.min_ns, r.latencies_ns[0]);
    assert_eq!(r.max_ns, r.latencies_ns[9_999]);
    assert_eq!(r.p50_ns, r.latencies_ns[5_000]);
    assert_eq!(r.p99_ns, r.latencies_ns[9_900]);
    assert!(r.min_ns <= r.p50_ns && r.p50_ns <= r.p99_ns && r.p99_ns <= r.max_ns);
    assert!(r.processing_overhead_ns >= 0);
    assert!(r.tls_active);
    assert_eq!(r.tls_version, "TLS 1.3");
}

#[test]
fn login_always_succeeds_with_fresh_session() {
    let svc = HermitService::new(test_state(), true);
    let a = svc.login("alice");
    let b = svc.login("bob");
    assert!(a.success);
    assert!(b.success);
    assert_eq!(a.error, "");
    assert_eq!(a.session_id.len(), 36);
    assert_eq!(b.session_id.len(), 36);
    assert_ne!(a.session_id, b.session_id);
}

#[test]
fn server_info_reports_state_and_non_decreasing_uptime() {
    let svc = HermitService::new(test_state(), true);
    let mut clock = Clock::new();
    let first = svc.server_info(&mut clock);
    assert_eq!(first.version, "0.1.0");
    assert_eq!(first.rust_version, "0.1.0");
    assert_eq!(first.region, "us-west1");
    assert_eq!(first.started_at_secs, 1_700_000_000);
    assert_eq!(first.started_at_nanos, 123_456_789);
    assert!(first.tls_enabled);
    assert_eq!(first.grpc_port, 9090);
    assert_eq!(first.tcp_port, 9091);
    assert!(first.uptime_seconds >= 0);

    // Burn a little monotonic time between the two calls.
    let mut spin = 0u64;
    for i in 0..100_000u64 {
        spin = spin.wrapping_add(i);
    }
    let _ = std::hint::black_box(spin);

    let second = svc.server_info(&mut clock);
    assert!(second.uptime_seconds >= first.uptime_seconds);
}

#[test]
fn uptime_is_whole_seconds_of_the_monotonic_reading() {
    assert_eq!(hermit_server::clock::uptime_seconds(0), 0);
    assert_eq!(hermit_server::clock::uptime_seconds(999_999_999), 0);
    assert_eq!(hermit_server::clock::uptime_seconds(1_000_000_000), 1);
    assert_eq!(hermit_server::clock::uptime_seconds(2_500_000_000), 2);
}

#[test]
fn clock_readings_never_decrease() {
    let mut clock = Clock::new();
    let mut prev = clock.now_ns();
    assert!(prev >= 0);
    for _ in 0..1000 {
        let next = clock.now_ns();
        assert!(next >= prev);
        prev = next;
    }
}
