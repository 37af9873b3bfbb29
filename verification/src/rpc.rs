//! The structured RPC operations: Ping, Benchmark, ServerInfo and Login.
//!
//! All four are pure computations over the shared read-only server state
//! and the monotonic clock; none of them can fail. The transport that
//! carries them lives outside the library and hands in plain values.

use vstd::prelude::*;
use crate::clock::{uptime_of, uptime_seconds, Clock};
use crate::stats::{
    div_trunc, p50_index, p99_index, sort_batch, sorted_ascending, sum_of, Stats,
};

verus! {

/// Immutable description of the running server, built once at startup and
/// shared read-only by every RPC call.
pub struct ServerState {
    /// Semantic version of the server.
    pub version: String,
    /// Region label reported by ServerInfo.
    pub region: String,
    /// Wall-clock start time: whole seconds since the Unix epoch.
    pub started_at_secs: u64,
    /// Nanosecond remainder of the wall-clock start time.
    pub started_at_nanos: u32,
    /// Configured RPC port.
    pub grpc_port: u16,
    /// Configured plaintext echo port.
    pub tcp_port: u16,
}

impl ServerState {
    /// The start time is a proper wall-clock timestamp: the nanosecond
    /// part stays under one second and the seconds fit a signed 64-bit
    /// value when reported.
    pub open spec fn wf(&self) -> bool {
        &&& self.started_at_nanos < 1_000_000_000
        &&& self.started_at_secs < 0x8000_0000_0000_0000
    }
}

/// Response to Ping: the client's timestamp echoed, bracketed by the two
/// server-side timestamps.
pub struct PingResponse {
    pub client_send_ns: i64,
    pub server_recv_ns: i64,
    pub server_send_ns: i64,
}

/// Response to Benchmark: the full sorted batch, its reduction, the fixed
/// loop overhead, and the transport's TLS flags.
pub struct BenchmarkResponse {
    pub latencies_ns: Vec<i64>,
    pub min_ns: i64,
    pub max_ns: i64,
    pub mean_ns: i64,
    pub p50_ns: i64,
    pub p99_ns: i64,
    pub processing_overhead_ns: i64,
    pub tls_active: bool,
    pub tls_version: String,
}

/// Response to Login. The current login flow is a placeholder: it always
/// succeeds with a fresh opaque session identifier and must not be taken
/// for real credential verification.
pub struct LoginResponse {
    pub success: bool,
    pub session_id: String,
    pub error: String,
}

/// Response to ServerInfo.
pub struct ServerInfoResponse {
    pub version: String,
    pub region: String,
    pub started_at_secs: i64,
    pub started_at_nanos: i32,
    pub uptime_seconds: i64,
    pub rust_version: String,
    pub tls_enabled: bool,
    pub grpc_port: u32,
    pub tcp_port: u32,
}

/// Iterations are clamped into `[1, 10000]` before the benchmark loop.
pub open spec fn clamped_iterations(iterations: u32) -> int {
    if iterations < 1 {
        1
    } else if iterations > 10_000 {
        10_000
    } else {
        iterations as int
    }
}

/// The executable clamp of the requested iteration count.
pub fn clamp_iterations(iterations: u32) -> (r: usize)
    ensures
        r == clamped_iterations(iterations),
        1 <= r <= 10_000,
{
    if iterations < 1 {
        1
    } else if iterations > 10_000 {
        10_000
    } else {
        iterations as usize
    }
}

/// The RPC service: the shared state plus whether its transport runs
/// under TLS.
pub struct HermitService {
    pub state: ServerState,
    pub tls_enabled: bool,
}

impl HermitService {
    pub fn new(state: ServerState, tls_enabled: bool) -> (r: HermitService)
        ensures
            r.state == state,
            r.tls_enabled == tls_enabled,
    {
        HermitService { state, tls_enabled }
    }

    /// Ping: echo the client's timestamp and bracket it with an arrival
    /// and a departure reading of the monotonic clock, in that order.
    pub fn ping(&self, clock: &mut Clock, client_send_ns: i64) -> (r: PingResponse)
        ensures
            r.client_send_ns == client_send_ns,
            0 <= r.server_recv_ns <= r.server_send_ns,
            r.server_recv_ns >= old(clock).last_spec(),
            r.server_send_ns == final(clock).last_spec(),
    {
        let recv = clock.now_ns();
        let send = clock.now_ns();
        PingResponse { client_send_ns, server_recv_ns: recv, server_send_ns: send }
    }

    /// Benchmark: clamp the iteration count into `[1, 10000]`, allocate
    /// the payload buffer once (before the measured window), time the
    /// payload-touch operation once per iteration, and reduce the sorted
    /// batch. The whole loop is bracketed separately as the processing
    /// overhead. Never fails.
    pub fn benchmark(&self, clock: &mut Clock, iterations: u32, payload_bytes: u32) -> (r:
        BenchmarkResponse)
        ensures
            ({
                let s = r.latencies_ns@;
                let n = s.len() as int;
                &&& n == clamped_iterations(iterations)
                &&& sorted_ascending(s)
                &&& forall|k: int| 0 <= k < n ==> s[k] >= 0
                &&& r.min_ns == s[0]
                &&& r.max_ns == s[n - 1]
                &&& r.mean_ns == div_trunc(sum_of(s), n)
                &&& r.p50_ns == s[p50_index(n)]
                &&& r.p99_ns == s[p99_index(n)]
                &&& r.min_ns <= r.p50_ns <= r.p99_ns <= r.max_ns
            }),
            r.processing_overhead_ns >= 0,
            r.tls_active == self.tls_enabled,
            self.tls_enabled ==> r.tls_version@ == "TLS 1.3"@,
            !self.tls_enabled ==> r.tls_version@ == Seq::<char>::empty(),
            final(clock).last_spec() >= old(clock).last_spec(),
    {
        broadcast use vstd::seq_lib::group_to_multiset_ensures;

        let iters: usize = clamp_iterations(iterations);
        let payload = make_payload(payload_bytes);

        let mut latencies: Vec<i64> = Vec::new();
        let overhead_start = clock.now_ns();
        let mut it: usize = 0;
        while it < iters
            invariant
                it <= iters,
                latencies@.len() == it,
                forall|k: int| 0 <= k < it ==> latencies@[k] >= 0,
                overhead_start >= 0,
                clock.last_spec() >= overhead_start,
            decreases iters - it,
        {
            let t0 = clock.now_ns();
            if payload.len() > 0 {
                touch_payload(&payload);
            }
            let t1 = clock.now_ns();
            latencies.push(t1 - t0);
            it = it + 1;
        }
        let overhead_end = clock.now_ns();

        let ghost unsorted = latencies@;
        sort_batch(&mut latencies);
        proof {
            assert forall|k: int| 0 <= k < latencies@.len() implies latencies@[k] >= 0 by {
                assert(latencies@.contains(latencies@[k]));
                assert(latencies@.to_multiset().count(latencies@[k]) > 0);
                assert(unsorted.contains(latencies@[k]));
            }
        }
        let stats = Stats::from_sorted(latencies.as_slice());

        BenchmarkResponse {
            latencies_ns: latencies,
            min_ns: stats.min,
            max_ns: stats.max,
            mean_ns: stats.mean,
            p50_ns: stats.p50,
            p99_ns: stats.p99,
            processing_overhead_ns: overhead_end - overhead_start,
            tls_active: self.tls_enabled,
            tls_version: if self.tls_enabled {
                "TLS 1.3".to_owned()
            } else {
                String::new()
            },
        }
    }

    /// Login: a placeholder that always succeeds with a fresh opaque
    /// session identifier. Real credential verification is yet to replace
    /// it; nothing may rely on this as a security boundary.
    pub fn login(&self, _username: &str) -> (r: LoginResponse)
        ensures
            r.success == true,
            r.session_id@.len() == 36,
            r.error@ == Seq::<char>::empty(),
    {
        let session_id = fresh_session_id();
        LoginResponse { success: true, session_id, error: String::new() }
    }

    /// ServerInfo: report the immutable startup facts plus the uptime in
    /// whole seconds, computed from the monotonic clock so that wall-clock
    /// adjustments cannot disturb it.
    pub fn server_info(&self, clock: &mut Clock) -> (r: ServerInfoResponse)
        requires
            self.state.wf(),
        ensures
            r.version@ == self.state.version@,
            r.region@ == self.state.region@,
            r.started_at_secs == self.state.started_at_secs,
            r.started_at_nanos == self.state.started_at_nanos,
            r.uptime_seconds == uptime_of(final(clock).last_spec()),
            r.uptime_seconds >= 0,
            r.rust_version@ == self.state.version@,
            r.tls_enabled == self.tls_enabled,
            r.grpc_port == self.state.grpc_port,
            r.tcp_port == self.state.tcp_port,
            final(clock).last_spec() >= old(clock).last_spec(),
    {
        let now = clock.now_ns();
        let uptime = uptime_seconds(now);
        ServerInfoResponse {
            version: self.state.version.clone(),
            region: self.state.region.clone(),
            started_at_secs: self.state.started_at_secs as i64,
            started_at_nanos: self.state.started_at_nanos as i32,
            uptime_seconds: uptime,
            rust_version: self.state.version.clone(),
            tls_enabled: self.tls_enabled,
            grpc_port: self.state.grpc_port as u32,
            tcp_port: self.state.tcp_port as u32,
        }
    }
}

/// The reusable benchmark payload: a buffer of the requested size holding
/// a fixed byte value, allocated once and shared by every iteration.
fn make_payload(payload_bytes: u32) -> (r: Vec<u8>)
    ensures
        r@.len() == payload_bytes,
        forall|k: int| 0 <= k < r@.len() ==> r@[k] == 0xAB,
{
    let n: usize = payload_bytes as usize;
    let mut v: Vec<u8> = Vec::new();
    let mut i: usize = 0;
    while i < n
        invariant
            i <= n,
            v@.len() == i,
            forall|k: int| 0 <= k < i ==> v@[k] == 0xAB,
        decreases n - i,
    {
        v.push(0xAB);
        i = i + 1;
    }
    v
}

/// Relies on `std::hint::black_box` to make the read of the payload
/// buffer visible to the compiler, so the timed operation is not
/// optimized away.
#[verifier::external_body]
fn touch_payload(payload: &Vec<u8>) {
    std::hint::black_box(payload);
}

/// Relies on `uuid::Uuid::new_v4` and its `Display` form: a freshly
/// generated random UUID rendered in the hyphenated format, which is
/// exactly 36 characters. Nothing else can be promised of a random value.
#[verifier::external_body]
fn fresh_session_id() -> (r: String)
    ensures
        r@.len() == 36,
{
    uuid::Uuid::new_v4().to_string()
}

} // verus!
