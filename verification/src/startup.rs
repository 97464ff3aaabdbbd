//! Startup decisions: the state constructed once per worker (with the
//! CPU counts sampled exactly once), the choice between adopting an
//! inherited listening socket and binding a fresh one, and the
//! declarative server settings.

use vstd::prelude::*;

use crate::state::AppState;

verus! {

/// Workers in the pool.
pub const WORKER_COUNT: usize = 4;

/// Idle keep-alive duration for established connections, in seconds.
pub const KEEP_ALIVE_SECS: u64 = 75;

/// Artificial latency of the counter endpoint, in seconds; suspends
/// the request without blocking the worker.
pub const COUNT_DELAY_SECS: u64 = 10;

/// Relies on `num_cpus::get`: the number of logical CPUs, which the
/// crate documents as always at least 1.
#[verifier::external_body]
fn logical_cpu_count() -> (n: usize)
    ensures
        n >= 1,
{
    num_cpus::get()
}

/// Relies on `num_cpus::get_physical`: the number of physical CPUs,
/// which the crate documents as always at least 1.
#[verifier::external_body]
fn physical_cpu_count() -> (n: usize)
    ensures
        n >= 1,
{
    num_cpus::get_physical()
}

/// The state a worker starts from: counter at zero, the given
/// application name, and the CPU counts sampled here, once — every
/// later request reads these same values.
pub fn startup_state(app_name: String) -> (s: AppState)
    ensures
        s.counter == 0,
        s.app_name == app_name,
        s.logical_cpus >= 1,
        s.physical_cpus >= 1,
{
    let logical = logical_cpu_count();
    let physical = physical_cpu_count();
    AppState::new(app_name, logical, physical)
}

/// The address the server binds when no socket is inherited.
pub fn default_bind_address() -> (r: String)
    ensures
        r@ == "127.0.0.1:3000"@,
{
    String::from_str("127.0.0.1:3000")
}

/// How the listener comes to exist: adopt the socket a process manager
/// handed over, or bind the given address ourselves.
pub enum BindPlan {
    /// Serve on the inherited, already-bound socket; perform no bind.
    UseInherited,
    /// No socket was inherited: bind this address.
    BindTo(String),
}

/// Decide the listener setup. An inherited socket is always taken in
/// preference to binding, so a restart handoff never re-binds.
pub fn choose_bind_plan(inherited: bool, addr: String) -> (p: BindPlan)
    ensures
        inherited ==> p == BindPlan::UseInherited,
        !inherited ==> p == BindPlan::BindTo(addr),
{
    if inherited {
        BindPlan::UseInherited
    } else {
        BindPlan::BindTo(addr)
    }
}

} // verus!
