use vstd::prelude::*;
use crate::error::{ErrorKind, NmError};

verus! {

/// Device states reported by the daemon.
#[derive(Debug, Clone, Copy, PartialEq, Eq, Structural)]
pub enum NmDeviceState {
    Unknown,
    Unmanaged,
    Unavailable,
    Disconnected,
    Prepare,
    Config,
    NeedAuth,
    IpConfig,
    IpCheck,
    Secondaries,
    Activated,
    Deactivating,
    Failed,
}

/// Why a device last changed state, as far as this library distinguishes.
#[derive(Debug, Clone, Copy, PartialEq, Eq, Structural)]
pub enum NmDeviceStateReason {
    NewActivation,
    Other,
}

/// A network device as the daemon reports it.
#[derive(Debug, Clone, PartialEq, Eq)]
pub struct NmDevice {
    pub name: String,
    pub obj_path: String,
    pub state: NmDeviceState,
    pub state_reason: NmDeviceStateReason,
}

/// A connection profile. An empty `obj_path` marks one the daemon does not
/// hold yet.
#[derive(Debug, Clone, PartialEq, Eq)]
pub struct NmConnection {
    pub uuid: String,
    pub iface_name: Option<String>,
    pub obj_path: String,
}

/// A connection the daemon has activated on a device.
#[derive(Debug, Clone, PartialEq, Eq)]
pub struct NmActiveConnection {
    pub uuid: String,
    pub iface_name: String,
    pub obj_path: String,
}

/// A DNS resolver entry of the daemon's configuration.
#[derive(Debug, Clone, PartialEq, Eq)]
pub struct NmDnsEntry {
    pub iface: String,
    pub name_servers: Vec<String>,
    pub priority: i32,
}

/// A link-layer discovery neighbour record of a device.
#[derive(Debug, Clone, PartialEq, Eq)]
pub struct NmLldpNeighbor {
    pub chassis_id: String,
    pub port_id: String,
    pub system_name: Option<String>,
}

/// The transport to the network management daemon, implemented by the
/// embedding application (over D-Bus in production, by a fake in tests). It
/// also provides the clock and the sleep the rollback wait uses.
pub trait NmDbus {
    fn version(&self) -> Result<String, NmError>;

    fn checkpoint_create(&self, timeout: u32) -> Result<String, NmError>;

    fn checkpoint_destroy(&self, checkpoint: &str) -> Result<(), NmError>;

    fn checkpoint_rollback(&self, checkpoint: &str) -> Result<(), NmError>;

    /// The active checkpoints, most recent first.
    fn checkpoints(&self) -> Result<Vec<String>, NmError>;

    fn checkpoint_timeout_extend(&self, checkpoint: &str, added_time_sec: u32) -> Result<
        (),
        NmError,
    >;

    fn get_conn_obj_path_by_uuid(&self, uuid: &str) -> Result<String, NmError>;

    fn connection_activate(&self, obj_path: &str) -> Result<(), NmError>;

    fn connection_deactivate(&self, obj_path: &str) -> Result<(), NmError>;

    fn nm_conn_obj_paths_get(&self) -> Result<Vec<String>, NmError>;

    fn connection_get(&self, obj_path: &str) -> Result<NmConnection, NmError>;

    fn connection_add(&self, nm_conn: &NmConnection, memory_only: bool) -> Result<(), NmError>;

    fn connection_update(
        &self,
        obj_path: &str,
        nm_conn: &NmConnection,
        memory_only: bool,
    ) -> Result<(), NmError>;

    fn connection_delete(&self, obj_path: &str) -> Result<(), NmError>;

    fn nm_dev_obj_paths_get(&self) -> Result<Vec<String>, NmError>;

    fn nm_dev_obj_path_get(&self, iface_name: &str) -> Result<String, NmError>;

    fn nm_dev_applied_connection_get(&self, obj_path: &str) -> Result<NmConnection, NmError>;

    fn nm_dev_reapply(&self, obj_path: &str, nm_conn: &NmConnection) -> Result<(), NmError>;

    fn device_get(&self, obj_path: &str) -> Result<NmDevice, NmError>;

    fn device_delete(&self, obj_path: &str) -> Result<(), NmError>;

    fn device_lldp_neighbor_get(&self, obj_path: &str) -> Result<Vec<NmLldpNeighbor>, NmError>;

    fn active_connections(&self) -> Result<Vec<String>, NmError>;

    /// `None` when the active connection is gone.
    fn active_connection_get(&self, obj_path: &str) -> Result<Option<NmActiveConnection>, NmError>;

    fn active_connection_uuid_get(&self, obj_path: &str) -> Result<String, NmError>;

    fn get_dns_configuration(&self) -> Result<Vec<NmDnsEntry>, NmError>;

    fn hostname_set(&self, hostname: &str) -> Result<(), NmError>;

    /// Milliseconds on a monotonic clock.
    fn now_millis(&self) -> u64;

    fn sleep_millis(&self, millis: u64);
}

/// The pause between two device listings while waiting for a rollback.
pub const ROLLBACK_POLL_INTERVAL_MS: u64 = 500;

/// The values a list of results holds, in order, the errors left out.
pub open spec fn ok_values<T>(s: Seq<Result<T, NmError>>) -> Seq<T>
    decreases s.len(),
{
    if s.len() == 0 {
        Seq::empty()
    } else {
        let rest = ok_values(s.subrange(1, s.len() as int));
        match s[0] {
            Ok(v) => seq![v] + rest,
            Err(_) => rest,
        }
    }
}

/// Keeps the values of the resolutions that succeeded and drops the failed
/// ones: an object may vanish between being listed and being read.
pub fn keep_resolved<T>(results: Vec<Result<T, NmError>>) -> (r: Vec<T>)
    ensures
        r@ == ok_values(results@),
{
    let ghost all = results@;
    let mut rest = results;
    let mut out: Vec<T> = Vec::new();
    while rest.len() > 0
        invariant
            out@ + ok_values(rest@) == ok_values(all),
        decreases rest@.len(),
    {
        let ghost before = rest@;
        let item = rest.remove(0);
        proof {
            assert(rest@ =~= before.subrange(1, before.len() as int));
        }
        match item {
            Ok(v) => {
                proof {
                    assert(out@.push(v) + ok_values(rest@) =~= out@ + ok_values(before));
                }
                out.push(v);
            },
            Err(_) => {},
        }
    }
    assert(out@ + ok_values(rest@) =~= out@);
    out
}

/// The checkpoint an empty handle stands for: the first of the daemon's
/// listing, or `NotFound` when nothing is listed.
pub fn first_checkpoint(checkpoints: Vec<String>) -> (r: Result<String, NmError>)
    ensures
        match r {
            Ok(c) => checkpoints@.len() > 0 && c@ == checkpoints@[0]@,
            Err(e) => checkpoints@.len() == 0 && e.kind == ErrorKind::NotFound,
        },
{
    let mut checkpoints = checkpoints;
    if checkpoints.len() > 0 {
        Ok(checkpoints.remove(0))
    } else {
        Err(NmError::new(ErrorKind::NotFound, String::from_str("Not active checkpoints")))
    }
}

/// A device still settling: a new activation in progress, acquiring its IP
/// configuration, or deactivating.
pub open spec fn device_waiting(d: NmDevice) -> bool {
    d.state_reason == NmDeviceStateReason::NewActivation || d.state == NmDeviceState::IpConfig
        || d.state == NmDeviceState::Deactivating
}

pub fn is_device_waiting(d: &NmDevice) -> (r: bool)
    ensures
        r == device_waiting(*d),
{
    d.state_reason == NmDeviceStateReason::NewActivation || d.state == NmDeviceState::IpConfig
        || d.state == NmDeviceState::Deactivating
}

/// Whether any of the devices is still settling.
pub fn any_device_waiting(devs: &Vec<NmDevice>) -> (r: bool)
    ensures
        r == exists|i: int| 0 <= i < devs@.len() && device_waiting(#[trigger] devs@[i]),
{
    let mut i: usize = 0;
    while i < devs.len()
        invariant
            i <= devs@.len(),
            forall|k: int| 0 <= k < i ==> !device_waiting(#[trigger] devs@[k]),
        decreases devs@.len() - i,
    {
        if is_device_waiting(&devs[i]) {
            return true;
        }
        i += 1;
    }
    false
}

/// The most device listings the rollback wait makes for a timeout: with
/// sleeps of `ROLLBACK_POLL_INTERVAL_MS` the deadline has passed after them.
pub open spec fn max_rollback_rounds(timeout_sec: u32) -> int {
    2 * timeout_sec + 1
}

/// Whether the rollback wait is over: more than `timeout_sec` seconds have
/// passed, or it has made its `max_rollback_rounds` listings already.
pub fn rollback_deadline_passed(elapsed_ms: u64, timeout_sec: u32, rounds: u64) -> (r: bool)
    ensures
        r == (elapsed_ms > timeout_sec * 1000 || rounds >= max_rollback_rounds(timeout_sec)),
{
    elapsed_ms > (timeout_sec as u64) * 1000 || rounds >= (timeout_sec as u64) * 2 + 1
}

/// What the rollback wait does after a device listing made `elapsed_ms`
/// after it began, in round `rounds` (counted from 0).
#[derive(Debug, Clone, Copy, PartialEq, Eq, Structural)]
pub enum RollbackStep {
    /// No device is settling: the wait succeeds.
    Settled,
    /// Some device is still settling: sleep and list again.
    Poll,
    /// The wait is over: it fails with `Timeout`.
    TimedOut,
}

pub open spec fn rollback_step_spec(
    elapsed_ms: u64,
    timeout_sec: u32,
    rounds: u64,
    devs: Seq<NmDevice>,
) -> RollbackStep {
    if elapsed_ms > timeout_sec * 1000 || rounds >= max_rollback_rounds(timeout_sec) {
        RollbackStep::TimedOut
    } else if exists|i: int| 0 <= i < devs.len() && device_waiting(#[trigger] devs[i]) {
        RollbackStep::Poll
    } else {
        RollbackStep::Settled
    }
}

/// The decision of one round of the rollback wait.
pub fn rollback_step(elapsed_ms: u64, timeout_sec: u32, rounds: u64, devs: &Vec<NmDevice>) -> (r:
    RollbackStep)
    ensures
        r == rollback_step_spec(elapsed_ms, timeout_sec, rounds, devs@),
{
    if rollback_deadline_passed(elapsed_ms, timeout_sec, rounds) {
        RollbackStep::TimedOut
    } else if any_device_waiting(devs) {
        RollbackStep::Poll
    } else {
        RollbackStep::Settled
    }
}

/// A failure of the daemon client, wrapped with the failing operation's
/// context.
pub fn daemon_error(context: &str, e: NmError) -> (r: NmError)
    ensures
        r.kind == ErrorKind::DaemonError,
        r.msg@ == context@ + ": "@ + e.msg@,
{
    proof {
        reveal_strlit(": ");
    }
    let msg = context.to_owned().concat(": ").concat(e.msg.as_str());
    NmError::new(ErrorKind::DaemonError, msg)
}

/// A client result with its failure wrapped as a `DaemonError`.
pub fn from_daemon<T>(context: &str, r: Result<T, NmError>) -> (o: Result<T, NmError>)
    ensures
        match r {
            Ok(v) => o == Ok::<T, NmError>(v),
            Err(_) => o matches Err(e) && e.kind == ErrorKind::DaemonError,
        },
{
    match r {
        Ok(v) => Ok(v),
        Err(e) => Err(daemon_error(context, e)),
    }
}

/// The values of the resolutions that found their object, in order: failed
/// ones and ones whose object is gone are left out.
pub open spec fn present_values<T>(s: Seq<Result<Option<T>, NmError>>) -> Seq<T>
    decreases s.len(),
{
    if s.len() == 0 {
        Seq::empty()
    } else {
        let rest = present_values(s.subrange(1, s.len() as int));
        match s[0] {
            Ok(Some(v)) => seq![v] + rest,
            _ => rest,
        }
    }
}

/// Keeps the objects that were resolved and still exist.
pub fn keep_present<T>(results: Vec<Result<Option<T>, NmError>>) -> (r: Vec<T>)
    ensures
        r@ == present_values(results@),
{
    let ghost all = results@;
    let mut rest = results;
    let mut out: Vec<T> = Vec::new();
    while rest.len() > 0
        invariant
            out@ + present_values(rest@) == present_values(all),
        decreases rest@.len(),
    {
        let ghost before = rest@;
        let item = rest.remove(0);
        proof {
            assert(rest@ =~= before.subrange(1, before.len() as int));
        }
        match item {
            Ok(Some(v)) => {
                proof {
                    assert(out@.push(v) + present_values(rest@) =~= out@ + present_values(before));
                }
                out.push(v);
            },
            _ => {},
        }
    }
    assert(out@ + present_values(rest@) =~= out@);
    out
}

/// The checkpoint an empty handle stands for, from the daemon's listing: its
/// first entry; `NotFound` when it is empty; a `DaemonError` when the listing
/// failed.
pub fn resolve_checkpoint(listing: Result<Vec<String>, NmError>) -> (r: Result<String, NmError>)
    ensures
        match listing {
            Ok(l) => match r {
                Ok(c) => l@.len() > 0 && c@ == l@[0]@,
                Err(e) => l@.len() == 0 && e.kind == ErrorKind::NotFound,
            },
            Err(_) => r matches Err(e) && e.kind == ErrorKind::DaemonError,
        },
{
    match listing {
        Ok(cps) => first_checkpoint(cps),
        Err(e) => Err(daemon_error("checkpoint list", e)),
    }
}

/// The client of the network management daemon: checkpoint transactions,
/// connection and device operations, and best-effort listings.
pub struct NmApi<D: NmDbus> {
    pub dbus: D,
}

/// A result whose failure is a daemon failure.
pub open spec fn daemon_failure<T>(r: Result<T, NmError>) -> bool {
    r matches Err(e) ==> e.kind == ErrorKind::DaemonError
}

impl<D: NmDbus> NmApi<D> {
    pub fn new(dbus: D) -> (r: Self)
        ensures
            r.dbus == dbus,
    {
        NmApi { dbus }
    }

    pub fn version(&self) -> (r: Result<String, NmError>)
        ensures
            daemon_failure(r),
    {
        from_daemon("version", self.dbus.version())
    }

    /// Opens a checkpoint that the daemon rolls back after `timeout` seconds
    /// unless it is destroyed first.
    pub fn checkpoint_create(&self, timeout: u32) -> (r: Result<String, NmError>)
        ensures
            daemon_failure(r),
    {
        from_daemon("checkpoint create", self.dbus.checkpoint_create(timeout))
    }

    /// Commits: destroys the checkpoint, the most recent one when
    /// `checkpoint` is empty (`NotFound` when there is none).
    pub fn checkpoint_destroy(&self, checkpoint: &str) -> (r: Result<(), NmError>)
        ensures
            r matches Err(e) ==> e.kind == ErrorKind::DaemonError || (e.kind == ErrorKind::NotFound
                && checkpoint@.len() == 0),
    {
        if checkpoint.is_empty() {
            match resolve_checkpoint(self.dbus.checkpoints()) {
                Ok(cp) => from_daemon("checkpoint destroy", self.dbus.checkpoint_destroy(cp.as_str())),
                Err(e) => Err(e),
            }
        } else {
            from_daemon("checkpoint destroy", self.dbus.checkpoint_destroy(checkpoint))
        }
    }

    /// Reverts everything since the checkpoint, the most recent one when
    /// `checkpoint` is empty (`NotFound` when there is none).
    pub fn checkpoint_rollback(&self, checkpoint: &str) -> (r: Result<(), NmError>)
        ensures
            r matches Err(e) ==> e.kind == ErrorKind::DaemonError || (e.kind == ErrorKind::NotFound
                && checkpoint@.len() == 0),
    {
        if checkpoint.is_empty() {
            match resolve_checkpoint(self.dbus.checkpoints()) {
                Ok(cp) => from_daemon(
                    "checkpoint rollback",
                    self.dbus.checkpoint_rollback(cp.as_str()),
                ),
                Err(e) => Err(e),
            }
        } else {
            from_daemon("checkpoint rollback", self.dbus.checkpoint_rollback(checkpoint))
        }
    }

    pub fn connection_activate(&self, uuid: &str) -> (r: Result<(), NmError>)
        ensures
            daemon_failure(r),
    {
        match from_daemon("connection lookup", self.dbus.get_conn_obj_path_by_uuid(uuid)) {
            Ok(path) => from_daemon("connection activate", self.dbus.connection_activate(path.as_str())),
            Err(e) => Err(e),
        }
    }

    /// Deactivates the active connection of this UUID, if there is one; a
    /// failed lookup is not an error.
    pub fn connection_deactivate(&self, uuid: &str) -> (r: Result<(), NmError>)
        ensures
            daemon_failure(r),
    {
        if let Ok(nm_ac) = get_nm_ac_obj_path_by_uuid(&self.dbus, uuid) {
            if nm_ac.as_str().len() > 0 {
                return from_daemon(
                    "connection deactivate",
                    self.dbus.connection_deactivate(nm_ac.as_str()),
                );
            }
        }
        Ok(())
    }

    /// The connections that could be read; one deleted meanwhile is left out.
    pub fn connections_get(&self) -> (r: Result<Vec<NmConnection>, NmError>)
        ensures
            daemon_failure(r),
    {
        let paths = match from_daemon("connection list", self.dbus.nm_conn_obj_paths_get()) {
            Ok(p) => p,
            Err(e) => return Err(e),
        };
        let mut resolved: Vec<Result<NmConnection, NmError>> = Vec::new();
        let mut i: usize = 0;
        while i < paths.len()
            invariant
                i <= paths@.len(),
            decreases paths@.len() - i,
        {
            resolved.push(self.dbus.connection_get(paths[i].as_str()));
            i += 1;
        }
        Ok(keep_resolved(resolved))
    }

    /// The connections applied on the devices that could be read.
    pub fn applied_connections_get(&self) -> (r: Result<Vec<NmConnection>, NmError>)
        ensures
            daemon_failure(r),
    {
        let paths = match from_daemon("device list", self.dbus.nm_dev_obj_paths_get()) {
            Ok(p) => p,
            Err(e) => return Err(e),
        };
        let mut resolved: Vec<Result<NmConnection, NmError>> = Vec::new();
        let mut i: usize = 0;
        while i < paths.len()
            invariant
                i <= paths@.len(),
            decreases paths@.len() - i,
        {
            resolved.push(self.dbus.nm_dev_applied_connection_get(paths[i].as_str()));
            i += 1;
        }
        Ok(keep_resolved(resolved))
    }

    /// Updates the connection where the daemon holds it already (its object
    /// path is set), and adds it otherwise.
    pub fn connection_add(&self, nm_conn: &NmConnection, memory_only: bool) -> (r: Result<
        (),
        NmError,
    >)
        ensures
            daemon_failure(r),
    {
        if nm_conn.obj_path.as_str().len() > 0 {
            from_daemon(
                "connection update",
                self.dbus.connection_update(nm_conn.obj_path.as_str(), nm_conn, memory_only),
            )
        } else {
            from_daemon("connection add", self.dbus.connection_add(nm_conn, memory_only))
        }
    }

    /// Deletes the connection of this UUID, if the daemon holds one; a failed
    /// lookup is not an error.
    pub fn connection_delete(&self, uuid: &str) -> (r: Result<(), NmError>)
        ensures
            daemon_failure(r),
    {
        if let Ok(path) = self.dbus.get_conn_obj_path_by_uuid(uuid) {
            if path.as_str().len() > 0 {
                return from_daemon("connection delete", self.dbus.connection_delete(path.as_str()));
            }
        }
        Ok(())
    }

    /// Reapplies the connection on the device of its interface; a connection
    /// without an interface name is an invalid argument.
    pub fn connection_reapply(&self, nm_conn: &NmConnection) -> (r: Result<(), NmError>)
        ensures
            nm_conn.iface_name is None ==> (r matches Err(e) && e.kind
                == ErrorKind::InvalidArgument),
            nm_conn.iface_name is Some ==> daemon_failure(r),
    {
        match &nm_conn.iface_name {
            Some(iface_name) => match from_daemon(
                "device lookup",
                self.dbus.nm_dev_obj_path_get(iface_name.as_str()),
            ) {
                Ok(path) => from_daemon(
                    "connection reapply",
                    self.dbus.nm_dev_reapply(path.as_str(), nm_conn),
                ),
                Err(e) => Err(e),
            },
            None => Err(
                NmError::new(
                    ErrorKind::InvalidArgument,
                    String::from_str("Failed to extract interface name from connection"),
                ),
            ),
        }
    }

    /// The active connections that could be read; one gone meanwhile is left
    /// out.
    pub fn active_connections_get(&self) -> (r: Result<Vec<NmActiveConnection>, NmError>)
        ensures
            daemon_failure(r),
    {
        let paths = match from_daemon("active connection list", self.dbus.active_connections()) {
            Ok(p) => p,
            Err(e) => return Err(e),
        };
        let mut resolved: Vec<Result<Option<NmActiveConnection>, NmError>> = Vec::new();
        let mut i: usize = 0;
        while i < paths.len()
            invariant
                i <= paths@.len(),
            decreases paths@.len() - i,
        {
            resolved.push(self.dbus.active_connection_get(paths[i].as_str()));
            i += 1;
        }
        Ok(keep_present(resolved))
    }

    /// Extends the daemon-side expiry of an active checkpoint.
    pub fn checkpoint_timeout_extend(&self, checkpoint: &str, added_time_sec: u32) -> (r: Result<
        (),
        NmError,
    >)
        ensures
            daemon_failure(r),
    {
        from_daemon(
            "checkpoint extend",
            self.dbus.checkpoint_timeout_extend(checkpoint, added_time_sec),
        )
    }

    /// The devices that could be read; one deleted meanwhile is left out.
    pub fn devices_get(&self) -> (r: Result<Vec<NmDevice>, NmError>)
        ensures
            daemon_failure(r),
    {
        let paths = match from_daemon("device list", self.dbus.nm_dev_obj_paths_get()) {
            Ok(p) => p,
            Err(e) => return Err(e),
        };
        let mut resolved: Vec<Result<NmDevice, NmError>> = Vec::new();
        let mut i: usize = 0;
        while i < paths.len()
            invariant
                i <= paths@.len(),
            decreases paths@.len() - i,
        {
            resolved.push(self.dbus.device_get(paths[i].as_str()));
            i += 1;
        }
        Ok(keep_resolved(resolved))
    }

    pub fn device_delete(&self, nm_dev_obj_path: &str) -> (r: Result<(), NmError>)
        ensures
            daemon_failure(r),
    {
        from_daemon("device delete", self.dbus.device_delete(nm_dev_obj_path))
    }

    pub fn device_lldp_neighbor_get(&self, nm_dev_obj_path: &str) -> (r: Result<
        Vec<NmLldpNeighbor>,
        NmError,
    >)
        ensures
            daemon_failure(r),
    {
        from_daemon("LLDP neighbor get", self.dbus.device_lldp_neighbor_get(nm_dev_obj_path))
    }

    /// Waits after a rollback until no device is settling any more. Each round
    /// reads the clock; when `rollback_deadline_passed` says the wait is over
    /// it fails with `Timeout`, else it lists the devices and acts as
    /// `rollback_step` says, sleeping `ROLLBACK_POLL_INTERVAL_MS` before the
    /// next round. So it lists devices at most `max_rollback_rounds(timeout)`
    /// times; with sleeps that last their interval the deadline passes no
    /// sooner.
    pub fn wait_checkpoint_rollback(&self, timeout: u32) -> (r: Result<(), NmError>)
        ensures
            r matches Err(e) ==> e.kind == ErrorKind::Timeout || e.kind == ErrorKind::DaemonError,
    {
        let start = self.dbus.now_millis();
        let max_rounds: u64 = (timeout as u64) * 2 + 1;
        let mut rounds: u64 = 0;
        while rounds < max_rounds
            invariant
                rounds <= max_rounds,
                max_rounds == max_rollback_rounds(timeout),
            decreases max_rounds - rounds,
        {
            let now = self.dbus.now_millis();
            let elapsed: u64 = if now >= start {
                now - start
            } else {
                0
            };
            if rollback_deadline_passed(elapsed, timeout, rounds) {
                break;
            }
            let devs = match self.devices_get() {
                Ok(d) => d,
                Err(e) => return Err(e),
            };
            match rollback_step(elapsed, timeout, rounds, &devs) {
                RollbackStep::Settled => return Ok(()),
                RollbackStep::TimedOut => break,
                RollbackStep::Poll => self.dbus.sleep_millis(ROLLBACK_POLL_INTERVAL_MS),
            }
            rounds += 1;
        }
        Err(rollback_timeout_error())
    }

    pub fn get_dns_configuration(&self) -> (r: Result<Vec<NmDnsEntry>, NmError>)
        ensures
            daemon_failure(r),
    {
        from_daemon("DNS configuration get", self.dbus.get_dns_configuration())
    }

    /// Sets the static hostname. An empty name asks for no daemon call: the
    /// daemon cannot remove a static hostname, which the caller does itself.
    pub fn hostname_set(&self, hostname: &str) -> (r: Result<(), NmError>)
        ensures
            hostname@.len() == 0 ==> r is Ok,
            daemon_failure(r),
    {
        if hostname.is_empty() {
            Ok(())
        } else {
            from_daemon("hostname set", self.dbus.hostname_set(hostname))
        }
    }
}

fn rollback_timeout_error() -> (e: NmError)
    ensures
        e.kind == ErrorKind::Timeout,
{
    NmError::new(ErrorKind::Timeout, String::from_str("Timeout on waiting rollback"))
}

/// The object path of the active connection of this UUID, or an empty path
/// when none is active.
fn get_nm_ac_obj_path_by_uuid<D: NmDbus>(dbus: &D, uuid: &str) -> (r: Result<String, NmError>)
    ensures
        daemon_failure(r),
{
    let paths = match from_daemon("active connection list", dbus.active_connections()) {
        Ok(p) => p,
        Err(e) => return Err(e),
    };
    let mut paths = paths;
    while paths.len() > 0
        decreases paths@.len(),
    {
        let path = paths.remove(0);
        match from_daemon("active connection UUID get", dbus.active_connection_uuid_get(path.as_str())) {
            Ok(u) => {
                if u.as_str() == uuid {
                    return Ok(path);
                }
            },
            Err(e) => return Err(e),
        }
    }
    Ok(String::new())
}

} // verus!
