//! The connect-or-spawn acquisition policy.  A channel to the player is
//! obtained by waiting a short grace period, attempting a connection to the
//! well-known control-socket path, and, when that fails, spawning the player
//! process and trying again — indefinitely, until a connection succeeds.
//! Only spawning itself failing is fatal: an unspawnable player has no
//! recovery path.  The loop that sleeps, connects and spawns lives with the
//! server binary; this module decides each step and names the constants the
//! loop runs on.
use vstd::prelude::*;

verus! {

/// What one connection attempt reported.
pub enum ConnectOutcome {
    /// The control socket accepted the connection.
    Connected,
    /// The control socket could not be reached.
    Unreachable,
}

/// What the acquisition loop does next.
pub enum AcquireAction {
    /// Hand the freshly connected channel to the caller.
    UseChannel,
    /// Spawn the player process, wait the grace period, and try again.
    SpawnAndRetry,
}

/// Decides the next step of the acquisition loop: a reachable channel is
/// used as it is; an unreachable one has the player spawned and the attempt
/// repeated.
pub fn acquire_step(outcome: &ConnectOutcome) -> (a: AcquireAction)
    ensures
        (*outcome is Connected) == (a is UseChannel),
        (*outcome is Unreachable) == (a is SpawnAndRetry),
{
    match outcome {
        ConnectOutcome::Connected => AcquireAction::UseChannel,
        ConnectOutcome::Unreachable => AcquireAction::SpawnAndRetry,
    }
}

/// Runs the acquisition policy over a foreseen run of connection attempts:
/// attempts are taken in order, each unreachable one has the player spawned
/// and the attempt repeated, and the first reachable one ends the loop with
/// its channel.  Returns the index of the attempt that connects — the number
/// of spawns issued before it — or nothing when every attempt in the run is
/// unreachable; the live loop then simply keeps retrying.
pub fn acquire_scan(outcomes: &Vec<ConnectOutcome>) -> (r: Option<usize>)
    ensures
        r matches Some(i) ==> (i < outcomes@.len() && outcomes@[i as int] is Connected
            && forall|j: int| 0 <= j < i ==> outcomes@[j] is Unreachable),
        r is None ==> forall|j: int| 0 <= j < outcomes@.len() ==> outcomes@[j] is Unreachable,
{
    let n: usize = outcomes.len();
    let mut k: usize = 0;
    while k < n
        invariant
            n == outcomes@.len(),
            k <= n,
            forall|j: int| 0 <= j < k ==> outcomes@[j] is Unreachable,
        decreases n - k,
    {
        match acquire_step(&outcomes[k]) {
            AcquireAction::UseChannel => {
                return Some(k);
            },
            AcquireAction::SpawnAndRetry => {},
        }
        k = k + 1;
    }
    None
}

/// The well-known path of the player's control socket.
pub fn socket_path() -> (r: String)
    ensures
        r@ == "/tmp/mpvsocket"@,
{
    "/tmp/mpvsocket".to_owned()
}

/// The arguments the player is spawned with: create the control socket at
/// the well-known path, and idle instead of exiting when no media is loaded.
pub fn spawn_args() -> (r: Vec<String>)
    ensures
        r@.len() == 2,
        r@[0]@ == "--input-ipc-server=/tmp/mpvsocket"@,
        r@[1]@ == "--idle"@,
{
    let mut v: Vec<String> = Vec::new();
    v.push("--input-ipc-server=/tmp/mpvsocket".to_owned());
    v.push("--idle".to_owned());
    v
}

/// The grace period, in milliseconds, waited before each connection attempt
/// so that a just-spawned player has time to open its socket.
pub fn grace_period_millis() -> (r: u64)
    ensures
        r == 100,
{
    100
}

} // verus!
