//! The tunnel process supervisor. It owns the tunnel registry, the table of
//! live process handles, the per-tunnel status tracker and the status event
//! feed, and it decides every transition of the per-tunnel state machine.
//!
//! The supervisor itself performs no I/O: spawning, killing and observing
//! the external SSH subprocesses is the surrounding runtime's job. Each
//! operation here takes what that runtime observed (a spawn failure, an
//! early exit, a liveness check) and returns what it must do next (the
//! argument list to spawn, the process ids to terminate).

use vstd::prelude::*;
use vstd::string::*;
use crate::assoc::{
    Entry, assoc_map, keys_distinct, find_entry, lemma_assoc_map_contains, lemma_assoc_map_get,
    lemma_assoc_map_push, lemma_assoc_map_remove, lemma_assoc_map_update,
};
use crate::command::{build_start_args, spec_start_args};
use crate::tunnels::{
    ActiveHandle, ErrorView, StatusUpdate, StatusView, Tunnel, TunnelError, TunnelStatus,
    TunnelView, UpdateView, spec_error_message,
};

verus! {

/// What a `start` call asks the runtime to do.
#[derive(Debug)]
pub enum StartAction {
    /// A handle already exists for this name; starting is a no-op.
    AlreadyActive,
    /// Spawn the SSH client with these arguments and report back.
    Spawn(Vec<String>),
}

/// Whether some live handle of `m` has this process id.
pub open spec fn pid_of_some_handle(m: ManagerView, pid: u32) -> bool {
    exists|n: Seq<char>| #[trigger] m.active.contains_key(n) && m.active[n].pid == pid
}

/// The effect of `stop` on the supervisor: a transition to `Disconnected`
/// when a handle exists, and no change at all otherwise.
pub open spec fn stop_effect(m: ManagerView, name: Seq<char>) -> ManagerView {
    if m.active.contains_key(name) {
        m.stopped(name)
    } else {
        m
    }
}

/// The effect of the already-active check of `start`: a transition to
/// `Connecting` when no handle exists, and no change at all otherwise.
pub open spec fn start_effect(m: ManagerView, name: Seq<char>) -> ManagerView {
    if m.active.contains_key(name) {
        m
    } else {
        m.start_noted(name)
    }
}

/// The effect of one monitor tick that observed `exit_detail` of the child:
/// nothing at all without a handle, nothing while the child lives, and the
/// crash transition when the child was found gone.
pub open spec fn monitor_effect(
    m: ManagerView,
    name: Seq<char>,
    exit_detail: Option<Seq<char>>,
    now_millis: u64,
) -> ManagerView {
    if !m.active.contains_key(name) {
        m
    } else {
        match exit_detail {
            Some(detail) => m.crash_observed(name, detail, now_millis),
            None => m,
        }
    }
}

/// Mathematical image of the supervisor: the registry as a sequence, the
/// handle table and status tracker as maps keyed by tunnel name, the event
/// feed as the sequence of all events ever published, and one read cursor
/// per subscriber.
pub struct ManagerView {
    pub tunnels: Seq<TunnelView>,
    pub active: Map<Seq<char>, ActiveHandle>,
    pub statuses: Map<Seq<char>, StatusView>,
    pub log: Seq<UpdateView>,
    pub cursors: Seq<usize>,
}

impl ManagerView {
    /// The state of a freshly created supervisor.
    pub open spec fn init() -> ManagerView {
        ManagerView {
            tunnels: Seq::empty(),
            active: Map::empty(),
            statuses: Map::empty(),
            log: Seq::empty(),
            cursors: Seq::empty(),
        }
    }

    /// The status a caller observes for `name`: the tracked entry, or
    /// `Disconnected` when the tunnel was never started.
    pub open spec fn status_of(self, name: Seq<char>) -> StatusView {
        if self.statuses.contains_key(name) {
            self.statuses[name]
        } else {
            StatusView::Disconnected
        }
    }

    /// One status transition: the tracker is updated and the paired event
    /// is published.
    pub open spec fn noted(self, name: Seq<char>, st: StatusView, ev: UpdateView) -> ManagerView {
        ManagerView {
            statuses: self.statuses.insert(name, st),
            log: self.log.push(ev),
            ..self
        }
    }

    /// A `start` call has passed the already-active check: the tunnel is
    /// `Connecting` and the event is out.
    pub open spec fn start_noted(self, name: Seq<char>) -> ManagerView {
        self.noted(name, StatusView::Connecting, UpdateView::Connecting(name))
    }

    /// The runtime spawned the subprocess: its handle enters the table.
    pub open spec fn spawn_registered(self, name: Seq<char>, h: ActiveHandle) -> ManagerView {
        ManagerView { active: self.active.insert(name, h), ..self }
    }

    /// The operating system refused to spawn: the tunnel is in error.
    pub open spec fn spawn_failed(self, name: Seq<char>, detail: Seq<char>, now_millis: u64) -> ManagerView {
        let e = ErrorView::ProcessSpawnFailed(detail);
        self.noted(
            name,
            (StatusView::Error { error: spec_error_message(e), occurred_at_millis: now_millis }),
            UpdateView::Error(name, e),
        )
    }

    /// The grace-period check found the child already gone: the handle is
    /// discarded and the tunnel is in error.
    pub open spec fn start_aborted(self, name: Seq<char>, detail: Seq<char>, now_millis: u64) -> ManagerView {
        let e = ErrorView::UnexpectedTermination("Process exited immediately with status: "@ + detail);
        ManagerView { active: self.active.remove(name), ..self }.noted(
            name,
            (StatusView::Error { error: spec_error_message(e), occurred_at_millis: now_millis }),
            UpdateView::Error(name, e),
        )
    }

    /// The grace-period check found the child alive: the tunnel is connected.
    pub open spec fn start_confirmed(self, name: Seq<char>, now_millis: u64) -> ManagerView {
        self.noted(
            name,
            (StatusView::Connected { connected_at_millis: now_millis }),
            UpdateView::Connected(name),
        )
    }

    /// The monitor observed the child exit on its own: the handle is
    /// discarded and the tunnel is in error.
    pub open spec fn crash_observed(self, name: Seq<char>, detail: Seq<char>, now_millis: u64) -> ManagerView {
        let e = ErrorView::UnexpectedTermination("Exit status: "@ + detail);
        ManagerView { active: self.active.remove(name), ..self }.noted(
            name,
            (StatusView::Error { error: spec_error_message(e), occurred_at_millis: now_millis }),
            UpdateView::Error(name, e),
        )
    }

    /// A deliberate stop: the handle is discarded and the tunnel is
    /// disconnected.
    pub open spec fn stopped(self, name: Seq<char>) -> ManagerView {
        ManagerView { active: self.active.remove(name), ..self }.noted(
            name,
            StatusView::Disconnected,
            UpdateView::Disconnected(name),
        )
    }

    /// Teardown: every handle is discarded; statuses and the event feed are
    /// left untouched.
    pub open spec fn cleaned(self) -> ManagerView {
        ManagerView { active: Map::empty(), ..self }
    }

    /// A new subscriber attaches at the current end of the event feed.
    pub open spec fn subscribed(self) -> ManagerView {
        ManagerView { cursors: self.cursors.push(self.log.len() as usize), ..self }
    }

    /// Subscriber `sub` has read everything up to the current end.
    pub open spec fn polled(self, sub: int) -> ManagerView {
        ManagerView { cursors: self.cursors.update(sub, self.log.len() as usize), ..self }
    }
}

/// The tunnel process supervisor.
pub struct TunnelManager {
    tunnels: Vec<Tunnel>,
    active: Vec<Entry<ActiveHandle>>,
    statuses: Vec<Entry<TunnelStatus>>,
    log: Vec<StatusUpdate>,
    cursors: Vec<usize>,
}

impl View for TunnelManager {
    type V = ManagerView;

    closed spec fn view(&self) -> ManagerView {
        ManagerView {
            tunnels: self.tunnels.deep_view(),
            active: assoc_map(self.active@),
            statuses: assoc_map(self.statuses@),
            log: self.log.deep_view(),
            cursors: self.cursors@,
        }
    }
}

impl TunnelManager {
    /// The handle table and status tracker have pairwise-distinct names and
    /// no subscriber cursor points past the end of the event feed.
    pub closed spec fn wf(&self) -> bool {
        &&& keys_distinct(self.active@)
        &&& keys_distinct(self.statuses@)
        &&& forall|i: int| 0 <= i < self.cursors@.len() ==> self.cursors@[i] <= self.log@.len()
    }

    /// A supervisor with an empty registry, no live handle, no tracked
    /// status, an empty event feed and no subscriber.
    pub fn new() -> (r: TunnelManager)
        ensures
            r@ == ManagerView::init(),
            r.wf(),
    {
        let r = TunnelManager {
            tunnels: Vec::new(),
            active: Vec::new(),
            statuses: Vec::new(),
            log: Vec::new(),
            cursors: Vec::new(),
        };
        proof {
            assert(r@.tunnels =~= ManagerView::init().tunnels);
            assert(r@.log =~= ManagerView::init().log);
            assert(r@ == ManagerView::init());
        }
        r
    }

    /// Replace the registry's contents.
    pub fn set_tunnels(&mut self, tunnels: Vec<Tunnel>)
        requires
            old(self).wf(),
        ensures
            final(self).wf(),
            final(self)@ == (ManagerView { tunnels: tunnels.deep_view(), ..old(self)@ }),
    {
        self.tunnels = tunnels;
    }

    /// The registered tunnels, in registry order.
    pub fn get_tunnels(&self) -> (r: &Vec<Tunnel>)
        ensures
            r.deep_view() == self@.tunnels,
    {
        &self.tunnels
    }

    /// Append a tunnel to the registry.
    pub fn add_tunnel(&mut self, tunnel: Tunnel)
        requires
            old(self).wf(),
        ensures
            final(self).wf(),
            final(self)@ == (ManagerView { tunnels: old(self)@.tunnels.push(tunnel@), ..old(self)@ }),
    {
        let ghost prev = self.tunnels.deep_view();
        let ghost t = tunnel@;
        self.tunnels.push(tunnel);
        proof {
            assert(self.tunnels.deep_view() =~= prev.push(t));
        }
    }

    /// Whether a live handle exists for `name`.
    pub fn is_tunnel_active(&self, name: &str) -> (r: bool)
        ensures
            r == self@.active.contains_key(name@),
    {
        let key = String::from_str(name);
        let found = find_entry(&self.active, &key);
        proof {
            lemma_assoc_map_contains(self.active@, name@);
        }
        match found {
            Some(_) => true,
            None => false,
        }
    }

    /// The status a caller observes for `name`: the tracked entry, or
    /// `Disconnected` when the tunnel was never started in this process.
    pub fn get_tunnel_status(&self, name: &str) -> (r: TunnelStatus)
        requires
            self.wf(),
        ensures
            r@ == self@.status_of(name@),
    {
        let key = String::from_str(name);
        let found = find_entry(&self.statuses, &key);
        proof {
            lemma_assoc_map_contains(self.statuses@, name@);
        }
        match found {
            Some(i) => {
                proof {
                    lemma_assoc_map_get(self.statuses@, i as int);
                }
                self.statuses[i].val.duplicate()
            },
            None => TunnelStatus::Disconnected,
        }
    }

    /// Attach a new observer of status transitions; it will see only events
    /// published after this call — no historical replay. Returns the
    /// subscriber's identifier. Publishing never blocks the supervisor: the
    /// feed is an append-only log and every subscriber reads at its own
    /// cursor, so a slow observer only lags and can never stall a
    /// transition.
    pub fn subscribe(&mut self) -> (r: usize)
        requires
            old(self).wf(),
        ensures
            final(self).wf(),
            final(self)@ == old(self)@.subscribed(),
            r == old(self)@.cursors.len(),
    {
        let r = self.cursors.len();
        let end = self.log.len();
        self.cursors.push(end);
        r
    }

    /// Every event published since subscriber `sub` last polled, oldest
    /// first; the subscriber's cursor moves to the end of the feed.
    pub fn poll_updates(&mut self, sub: usize) -> (r: Vec<StatusUpdate>)
        requires
            old(self).wf(),
            sub < old(self)@.cursors.len(),
        ensures
            final(self).wf(),
            final(self)@ == old(self)@.polled(sub as int),
            r.deep_view() == old(self)@.log.subrange(
                old(self)@.cursors[sub as int] as int,
                old(self)@.log.len() as int,
            ),
    {
        let start = self.cursors[sub];
        let end = self.log.len();
        let mut r: Vec<StatusUpdate> = Vec::new();
        let mut j: usize = start;
        while j < end
            invariant
                start <= j <= end,
                end == self.log@.len(),
                r.deep_view() =~= self.log.deep_view().subrange(start as int, j as int),
            decreases end - j,
        {
            let ghost prev = r.deep_view();
            let u = self.log[j].duplicate();
            let ghost uv = u@;
            r.push(u);
            proof {
                assert(uv == self.log.deep_view()[j as int]);
                assert(r.deep_view() =~= prev.push(uv));
                assert(prev.push(uv) =~= self.log.deep_view().subrange(start as int, j as int + 1));
            }
            j = j + 1;
        }
        self.cursors.set(sub, end);
        r
    }

    /// Record one status transition: update the tracker in place (or create
    /// the entry on a first start) and publish the paired event.
    fn note(&mut self, key: &String, status: TunnelStatus, event: StatusUpdate)
        requires
            old(self).wf(),
        ensures
            final(self).wf(),
            final(self)@ == old(self)@.noted(key@, status@, event@),
    {
        let ghost prev_log = self.log.deep_view();
        let ghost ev = event@;
        self.log.push(event);
        proof {
            assert(self.log.deep_view() =~= prev_log.push(ev));
        }
        let found = find_entry(&self.statuses, key);
        let e = Entry { key: key.clone(), val: status };
        let ghost entry = e;
        match found {
            Some(i) => {
                proof {
                    lemma_assoc_map_update(self.statuses@, i as int, entry);
                }
                self.statuses.set(i, e);
            },
            None => {
                proof {
                    lemma_assoc_map_push(self.statuses@, entry);
                }
                self.statuses.push(e);
                assert(keys_distinct(self.statuses@));
            },
        }
    }

    /// `start`: if a handle already exists for the tunnel's name this is a
    /// no-op (exactly-one-active policy, not an error); otherwise the tunnel
    /// transitions to `Connecting`, the event is published, and the runtime
    /// is asked to spawn the SSH forwarding invocation.
    pub fn start_tunnel(&mut self, tunnel: &Tunnel) -> (r: StartAction)
        requires
            old(self).wf(),
        ensures
            final(self).wf(),
            old(self)@.active.contains_key(tunnel@.name) ==> r is AlreadyActive && final(self)@
                == old(self)@,
            !old(self)@.active.contains_key(tunnel@.name) ==> (r matches StartAction::Spawn(args)
                && args.deep_view() == spec_start_args(tunnel@)) && final(self)@ == old(
                self,
            )@.start_noted(tunnel@.name),
    {
        let key = String::from_str(tunnel.name.as_str());
        let found = find_entry(&self.active, &key);
        proof {
            lemma_assoc_map_contains(self.active@, key@);
        }
        match found {
            Some(_) => StartAction::AlreadyActive,
            None => {
                self.note(&key, TunnelStatus::Connecting, StatusUpdate::Connecting(key.clone()));
                StartAction::Spawn(build_start_args(tunnel))
            },
        }
    }

    /// The runtime spawned the subprocess: record its handle. The caller
    /// guarantees no handle exists yet for this name (it holds the
    /// supervisor across the `start` sequence).
    pub fn register_spawn(&mut self, name: &str, pid: u32, now_millis: u64)
        requires
            old(self).wf(),
            !old(self)@.active.contains_key(name@),
        ensures
            final(self).wf(),
            final(self)@ == old(self)@.spawn_registered(
                name@,
                (ActiveHandle { pid, started_at_millis: now_millis }),
            ),
    {
        let key = String::from_str(name);
        proof {
            lemma_assoc_map_contains(self.active@, key@);
        }
        let e = Entry { key, val: ActiveHandle { pid, started_at_millis: now_millis } };
        let ghost entry = e;
        proof {
            lemma_assoc_map_push(self.active@, entry);
        }
        self.active.push(e);
        proof {
            assert(keys_distinct(self.active@));
        }
    }

    /// The operating system could not create the subprocess: the tunnel is
    /// in error, the event is published, and the typed error is returned
    /// for the caller to propagate.
    pub fn fail_spawn(&mut self, name: &str, detail: String, now_millis: u64) -> (r: TunnelError)
        requires
            old(self).wf(),
        ensures
            final(self).wf(),
            r@ == ErrorView::ProcessSpawnFailed(detail@),
            final(self)@ == old(self)@.spawn_failed(name@, detail@, now_millis),
    {
        let key = String::from_str(name);
        let err = TunnelError::ProcessSpawnFailed(detail);
        let msg = err.message();
        let ev = StatusUpdate::Error(key.clone(), err.duplicate());
        self.note(&key, TunnelStatus::Error { error: msg, occurred_at_millis: now_millis }, ev);
        err
    }

    /// Outcome of the one grace-period liveness check after spawning.
    /// `early_exit` carries the exit detail when the child was already gone:
    /// the handle is discarded, the tunnel is in error and the error is
    /// returned. Otherwise the tunnel is connected. When no handle exists
    /// any more (the monitor raced and removed it) nothing changes.
    pub fn confirm_start(&mut self, name: &str, early_exit: Option<String>, now_millis: u64) -> (r:
        Result<(), TunnelError>)
        requires
            old(self).wf(),
        ensures
            final(self).wf(),
            !old(self)@.active.contains_key(name@) ==> r is Ok && final(self)@ == old(self)@,
            old(self)@.active.contains_key(name@) ==> match early_exit {
                Some(detail) => (r matches Err(e) && e@ == ErrorView::UnexpectedTermination(
                    "Process exited immediately with status: "@ + detail@,
                )) && final(self)@ == old(self)@.start_aborted(name@, detail@, now_millis),
                None => r is Ok && final(self)@ == old(self)@.start_confirmed(name@, now_millis),
            },
    {
        let key = String::from_str(name);
        let found = find_entry(&self.active, &key);
        proof {
            lemma_assoc_map_contains(self.active@, key@);
        }
        match found {
            None => Ok(()),
            Some(i) => match early_exit {
                Some(detail) => {
                    proof {
                        lemma_assoc_map_get(self.active@, i as int);
                        lemma_assoc_map_remove(self.active@, i as int);
                    }
                    self.active.remove(i);
                    let err = TunnelError::UnexpectedTermination(
                        String::from_str("Process exited immediately with status: ").concat(
                            detail.as_str(),
                        ),
                    );
                    let msg = err.message();
                    let ev = StatusUpdate::Error(key.clone(), err.duplicate());
                    self.note(
                        &key,
                        TunnelStatus::Error { error: msg, occurred_at_millis: now_millis },
                        ev,
                    );
                    Err(err)
                },
                None => {
                    self.note(
                        &key,
                        TunnelStatus::Connected { connected_at_millis: now_millis },
                        StatusUpdate::Connected(key.clone()),
                    );
                    Ok(())
                },
            },
        }
    }

    /// One tick of a tunnel's monitor. `exit_detail` carries the exit
    /// detail when the non-blocking liveness check found the child gone:
    /// the handle is discarded, the tunnel is in error and the event is
    /// published. When no handle exists any more (the tunnel was stopped
    /// deliberately) nothing is touched. Returns whether the monitor's loop
    /// shall keep running.
    pub fn monitor_tick(&mut self, name: &str, exit_detail: Option<String>, now_millis: u64) -> (keep:
        bool)
        requires
            old(self).wf(),
        ensures
            final(self).wf(),
            !old(self)@.active.contains_key(name@) ==> !keep && final(self)@ == old(self)@,
            old(self)@.active.contains_key(name@) ==> match exit_detail {
                Some(detail) => !keep && final(self)@ == old(self)@.crash_observed(
                    name@,
                    detail@,
                    now_millis,
                ),
                None => keep && final(self)@ == old(self)@,
            },
    {
        let key = String::from_str(name);
        let found = find_entry(&self.active, &key);
        proof {
            lemma_assoc_map_contains(self.active@, key@);
        }
        match found {
            None => false,
            Some(i) => match exit_detail {
                Some(detail) => {
                    proof {
                        lemma_assoc_map_get(self.active@, i as int);
                        lemma_assoc_map_remove(self.active@, i as int);
                    }
                    self.active.remove(i);
                    let err = TunnelError::UnexpectedTermination(
                        String::from_str("Exit status: ").concat(detail.as_str()),
                    );
                    let msg = err.message();
                    let ev = StatusUpdate::Error(key.clone(), err.duplicate());
                    self.note(
                        &key,
                        TunnelStatus::Error { error: msg, occurred_at_millis: now_millis },
                        ev,
                    );
                    false
                },
                None => true,
            },
        }
    }

    /// `stop`: with no handle this is a no-op success with zero status
    /// transitions. With a handle, the handle leaves the table, the tunnel
    /// is disconnected, the event is published, and the child's process id
    /// is returned for the runtime to cancel its monitor and then terminate
    /// it — in that order.
    pub fn stop_tunnel(&mut self, name: &str) -> (r: Option<u32>)
        requires
            old(self).wf(),
        ensures
            final(self).wf(),
            !old(self)@.active.contains_key(name@) ==> r is None && final(self)@ == old(self)@,
            old(self)@.active.contains_key(name@) ==> r == Some(old(self)@.active[name@].pid)
                && final(self)@ == old(self)@.stopped(name@),
    {
        let key = String::from_str(name);
        let found = find_entry(&self.active, &key);
        proof {
            lemma_assoc_map_contains(self.active@, key@);
        }
        match found {
            None => None,
            Some(i) => {
                let pid = self.active[i].val.pid;
                proof {
                    lemma_assoc_map_get(self.active@, i as int);
                    lemma_assoc_map_remove(self.active@, i as int);
                }
                self.active.remove(i);
                self.note(&key, TunnelStatus::Disconnected, StatusUpdate::Disconnected(key.clone()));
                Some(pid)
            },
        }
    }

    /// Teardown: every handle leaves the table. Returns the process ids the
    /// runtime must now terminate (cancelling each monitor first); statuses
    /// and the event feed are untouched. Idempotent: a second call finds
    /// nothing and returns nothing.
    pub fn cleanup(&mut self) -> (pids: Vec<u32>)
        requires
            old(self).wf(),
        ensures
            final(self).wf(),
            final(self)@ == old(self)@.cleaned(),
            forall|i: int|
                0 <= i < pids@.len() ==> pid_of_some_handle(old(self)@, #[trigger] pids@[i]),
            forall|n: Seq<char>|
                #[trigger] old(self)@.active.contains_key(n) ==> pids@.contains(
                    old(self)@.active[n].pid,
                ),
    {
        let mut pids: Vec<u32> = Vec::new();
        let n = self.active.len();
        let mut i: usize = 0;
        while i < n
            invariant
                n == old(self).active@.len(),
                self == old(self),
                i <= n,
                pids@.len() == i,
                forall|j: int| 0 <= j < i ==> pids@[j] == old(self).active@[j].val.pid,
            decreases n - i,
        {
            pids.push(self.active[i].val.pid);
            i = i + 1;
        }
        proof {
            assert forall|k: int|
                0 <= k < pids@.len() implies pid_of_some_handle(old(self)@, #[trigger] pids@[k]) by {
                lemma_assoc_map_get(old(self).active@, k);
                let nm = old(self).active@[k].key@;
                assert(old(self)@.active.contains_key(nm) && old(self)@.active[nm].pid == pids@[k]);
            }
            assert forall|nm: Seq<char>| #[trigger] old(self)@.active.contains_key(nm)
                implies pids@.contains(old(self)@.active[nm].pid) by {
                lemma_assoc_map_contains(old(self).active@, nm);
                let k = choose|k: int|
                    0 <= k < old(self).active@.len() && old(self).active@[k].key@ == nm;
                lemma_assoc_map_get(old(self).active@, k);
                assert(pids@[k] == old(self)@.active[nm].pid);
            }
        }
        self.active.clear();
        pids
    }

    /// Replace the registered tunnel carrying `tunnel_id` (the first such
    /// entry) by `updated_tunnel`; an unknown id is a registry error and
    /// changes nothing.
    pub fn update_tunnel(&mut self, tunnel_id: &str, updated_tunnel: Tunnel) -> (r: Result<
        (),
        TunnelError,
    >)
        requires
            old(self).wf(),
        ensures
            final(self).wf(),
            (exists|i: int|
                0 <= i < old(self)@.tunnels.len() && old(self)@.tunnels[i].id == tunnel_id@) ==> (
            r is Ok && exists|i: int|
                0 <= i < old(self)@.tunnels.len() && old(self)@.tunnels[i].id == tunnel_id@ && (
                forall|j: int| 0 <= j < i ==> old(self)@.tunnels[j].id != tunnel_id@)
                && final(self)@ == (ManagerView {
                    tunnels: old(self)@.tunnels.update(i, updated_tunnel@),
                    ..old(self)@
                })),
            !(exists|i: int|
                0 <= i < old(self)@.tunnels.len() && old(self)@.tunnels[i].id == tunnel_id@) ==> (
            r matches Err(e) && e@ == ErrorView::RegistryNotFound(tunnel_id@)) && final(self)@
                == old(self)@,
    {
        let key = String::from_str(tunnel_id);
        let n = self.tunnels.len();
        let mut found: Option<usize> = None;
        let mut i: usize = 0;
        while i < n
            invariant
                n == self.tunnels@.len(),
                self == old(self),
                i <= n,
                match found {
                    Some(f) => f < i && self.tunnels@[f as int].id@ == key@ && forall|j: int|
                        0 <= j < f ==> self.tunnels@[j].id@ != key@,
                    None => forall|j: int| 0 <= j < i ==> self.tunnels@[j].id@ != key@,
                },
            decreases n - i,
        {
            if found.is_none() && self.tunnels[i].id == key {
                found = Some(i);
            }
            i = i + 1;
        }
        proof {
            assert forall|j: int|
                0 <= j < n implies old(self)@.tunnels[j].id == self.tunnels@[j].id@ by {
                assert(old(self)@.tunnels[j] == self.tunnels@[j]@);
            }
        }
        match found {
            Some(f) => {
                let ghost prev = self.tunnels.deep_view();
                let ghost t = updated_tunnel@;
                self.tunnels.set(f, updated_tunnel);
                proof {
                    assert(self.tunnels.deep_view() =~= prev.update(f as int, t));
                    assert(old(self)@.tunnels[f as int].id == tunnel_id@);
                    assert(forall|j: int| 0 <= j < f ==> old(self)@.tunnels[j].id != tunnel_id@);
                    assert(self@ == (ManagerView {
                        tunnels: old(self)@.tunnels.update(f as int, t),
                        ..old(self)@
                    }));
                }
                Ok(())
            },
            None => {
                proof {
                    assert(forall|j: int|
                        0 <= j < old(self)@.tunnels.len() ==> old(self)@.tunnels[j].id
                            != tunnel_id@);
                }
                Err(TunnelError::RegistryNotFound(key))
            },
        }
    }

    /// Remove the registered tunnel named `name` (the first such entry),
    /// stopping it first when a handle exists; the caller receives the
    /// process id to terminate, as in `stop_tunnel`. A name absent from the
    /// registry is a registry error and the registry is unchanged.
    pub fn remove_tunnel(&mut self, name: &str) -> (r: Result<Option<u32>, TunnelError>)
        requires
            old(self).wf(),
        ensures
            final(self).wf(),
            (exists|i: int|
                0 <= i < old(self)@.tunnels.len() && old(self)@.tunnels[i].name == name@) ==> (
            r matches Ok(act) && act == (if old(self)@.active.contains_key(name@) {
                Some(old(self)@.active[name@].pid)
            } else {
                None::<u32>
            }) && exists|i: int|
                0 <= i < old(self)@.tunnels.len() && old(self)@.tunnels[i].name == name@ && (
                forall|j: int| 0 <= j < i ==> old(self)@.tunnels[j].name != name@) && final(self)@
                == (ManagerView {
                    tunnels: old(self)@.tunnels.remove(i),
                    ..stop_effect(old(self)@, name@)
                })),
            !(exists|i: int|
                0 <= i < old(self)@.tunnels.len() && old(self)@.tunnels[i].name == name@) ==> (
            r matches Err(e) && e@ == ErrorView::RegistryNotFound(name@)) && final(self)@
                == stop_effect(old(self)@, name@),
    {
        let act = self.stop_tunnel(name);
        let ghost mid = *self;
        let key = String::from_str(name);
        let n = self.tunnels.len();
        let mut found: Option<usize> = None;
        let mut i: usize = 0;
        while i < n
            invariant
                n == self.tunnels@.len(),
                *self == mid,
                i <= n,
                match found {
                    Some(f) => f < i && self.tunnels@[f as int].name@ == key@ && forall|j: int|
                        0 <= j < f ==> self.tunnels@[j].name@ != key@,
                    None => forall|j: int| 0 <= j < i ==> self.tunnels@[j].name@ != key@,
                },
            decreases n - i,
        {
            if found.is_none() && self.tunnels[i].name == key {
                found = Some(i);
            }
            i = i + 1;
        }
        proof {
            assert(self@.tunnels == old(self)@.tunnels);
            assert forall|j: int|
                0 <= j < n implies old(self)@.tunnels[j].name == self.tunnels@[j].name@ by {
                assert(old(self)@.tunnels[j] == self.tunnels@[j]@);
            }
        }
        match found {
            Some(f) => {
                let ghost prev = self.tunnels.deep_view();
                self.tunnels.remove(f);
                proof {
                    assert(self.tunnels.deep_view() =~= prev.remove(f as int));
                    assert(old(self)@.tunnels[f as int].name == name@);
                    assert(forall|j: int| 0 <= j < f ==> old(self)@.tunnels[j].name != name@);
                    assert(mid@ == stop_effect(old(self)@, name@));
                    assert(self@ == (ManagerView {
                        tunnels: old(self)@.tunnels.remove(f as int),
                        ..stop_effect(old(self)@, name@)
                    }));
                }
                Ok(act)
            },
            None => {
                proof {
                    assert(forall|j: int|
                        0 <= j < old(self)@.tunnels.len() ==> old(self)@.tunnels[j].name != name@);
                    assert(self@ == stop_effect(old(self)@, name@));
                }
                Err(TunnelError::RegistryNotFound(key))
            },
        }
    }
}

} // verus!
