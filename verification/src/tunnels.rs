//! Core data types of the tunnel supervisor: tunnel records, statuses,
//! errors, and the status events published to observers.

use vstd::prelude::*;

verus! {

/// A named SSH local port-forwarding configuration: identity, local and
/// remote endpoints, SSH target, and an optional private-key path.
#[derive(Debug, Clone)]
pub struct Tunnel {
    pub id: String,
    pub name: String,
    pub local_host: String,
    pub local_port: String,
    pub remote_host: String,
    pub remote_port: String,
    pub ssh_user: String,
    pub ssh_host: String,
    pub ssh_port: String,
    pub private_key: String,
}

/// Mathematical image of a tunnel record: each field as a character sequence.
#[verifier::ext_equal]
pub struct TunnelView {
    pub id: Seq<char>,
    pub name: Seq<char>,
    pub local_host: Seq<char>,
    pub local_port: Seq<char>,
    pub remote_host: Seq<char>,
    pub remote_port: Seq<char>,
    pub ssh_user: Seq<char>,
    pub ssh_host: Seq<char>,
    pub ssh_port: Seq<char>,
    pub private_key: Seq<char>,
}

impl View for Tunnel {
    type V = TunnelView;

    open spec fn view(&self) -> TunnelView {
        TunnelView {
            id: self.id@,
            name: self.name@,
            local_host: self.local_host@,
            local_port: self.local_port@,
            remote_host: self.remote_host@,
            remote_port: self.remote_port@,
            ssh_user: self.ssh_user@,
            ssh_host: self.ssh_host@,
            ssh_port: self.ssh_port@,
            private_key: self.private_key@,
        }
    }
}

impl DeepView for Tunnel {
    type V = TunnelView;

    open spec fn deep_view(&self) -> TunnelView {
        self.view()
    }
}

impl Tunnel {
    /// Field-for-field copy of the record.
    pub fn duplicate(&self) -> (r: Tunnel)
        ensures
            r@ == self@,
    {
        Tunnel {
            id: self.id.clone(),
            name: self.name.clone(),
            local_host: self.local_host.clone(),
            local_port: self.local_port.clone(),
            remote_host: self.remote_host.clone(),
            remote_port: self.remote_port.clone(),
            ssh_user: self.ssh_user.clone(),
            ssh_host: self.ssh_host.clone(),
            ssh_port: self.ssh_port.clone(),
            private_key: self.private_key.clone(),
        }
    }
}

/// Typed errors of the supervisor, one variant per failure kind of the
/// error taxonomy; each carries a human-readable detail string.
#[derive(Debug, Clone)]
pub enum TunnelError {
    /// The operating system could not create the subprocess.
    ProcessSpawnFailed(String),
    /// The child process exited on its own; carries the exit detail.
    UnexpectedTermination(String),
    /// A one-shot connectivity probe failed; carries captured diagnostics.
    ProbeFailure(String),
    /// An operation referenced a name or id absent from the registry.
    RegistryNotFound(String),
    /// The tunnel store could not be read or written.
    PersistenceFailure(String),
}

/// Mathematical image of a supervisor error.
pub enum ErrorView {
    ProcessSpawnFailed(Seq<char>),
    UnexpectedTermination(Seq<char>),
    ProbeFailure(Seq<char>),
    RegistryNotFound(Seq<char>),
    PersistenceFailure(Seq<char>),
}

impl View for TunnelError {
    type V = ErrorView;

    open spec fn view(&self) -> ErrorView {
        match self {
            TunnelError::ProcessSpawnFailed(d) => ErrorView::ProcessSpawnFailed(d@),
            TunnelError::UnexpectedTermination(d) => ErrorView::UnexpectedTermination(d@),
            TunnelError::ProbeFailure(d) => ErrorView::ProbeFailure(d@),
            TunnelError::RegistryNotFound(d) => ErrorView::RegistryNotFound(d@),
            TunnelError::PersistenceFailure(d) => ErrorView::PersistenceFailure(d@),
        }
    }
}

/// The rendering of an error as one line of text.
pub open spec fn spec_error_message(e: ErrorView) -> Seq<char> {
    match e {
        ErrorView::ProcessSpawnFailed(d) => "Process spawn failed: "@ + d,
        ErrorView::UnexpectedTermination(d) => "Tunnel unexpectedly terminated: "@ + d,
        ErrorView::ProbeFailure(d) => "SSH connection failed: "@ + d,
        ErrorView::RegistryNotFound(d) => "Not found in registry: "@ + d,
        ErrorView::PersistenceFailure(d) => "Tunnel store failure: "@ + d,
    }
}

impl TunnelError {
    /// Variant-for-variant copy of the error.
    pub fn duplicate(&self) -> (r: TunnelError)
        ensures
            r@ == self@,
    {
        match self {
            TunnelError::ProcessSpawnFailed(d) => TunnelError::ProcessSpawnFailed(d.clone()),
            TunnelError::UnexpectedTermination(d) => TunnelError::UnexpectedTermination(d.clone()),
            TunnelError::ProbeFailure(d) => TunnelError::ProbeFailure(d.clone()),
            TunnelError::RegistryNotFound(d) => TunnelError::RegistryNotFound(d.clone()),
            TunnelError::PersistenceFailure(d) => TunnelError::PersistenceFailure(d.clone()),
        }
    }

    /// One line of text naming the failure kind and its detail.
    pub fn message(&self) -> (r: String)
        ensures
            r@ == spec_error_message(self@),
    {
        match self {
            TunnelError::ProcessSpawnFailed(d) => {
                String::from_str("Process spawn failed: ").concat(d.as_str())
            },
            TunnelError::UnexpectedTermination(d) => {
                String::from_str("Tunnel unexpectedly terminated: ").concat(d.as_str())
            },
            TunnelError::ProbeFailure(d) => {
                String::from_str("SSH connection failed: ").concat(d.as_str())
            },
            TunnelError::RegistryNotFound(d) => {
                String::from_str("Not found in registry: ").concat(d.as_str())
            },
            TunnelError::PersistenceFailure(d) => {
                String::from_str("Tunnel store failure: ").concat(d.as_str())
            },
        }
    }
}

/// Status of one tunnel, a tagged state of the per-tunnel state machine.
/// Timestamps are milliseconds since the Unix epoch, supplied by the caller.
#[derive(Debug, Clone)]
pub enum TunnelStatus {
    Disconnected,
    Connecting,
    Connected { connected_at_millis: u64 },
    Error { error: String, occurred_at_millis: u64 },
    /// Reserved: no automatic retry policy exists, so this is never produced.
    Reconnecting { attempt: u32 },
}

/// Mathematical image of a tunnel status.
pub enum StatusView {
    Disconnected,
    Connecting,
    Connected { connected_at_millis: u64 },
    Error { error: Seq<char>, occurred_at_millis: u64 },
    Reconnecting { attempt: u32 },
}

impl View for TunnelStatus {
    type V = StatusView;

    open spec fn view(&self) -> StatusView {
        match self {
            TunnelStatus::Disconnected => StatusView::Disconnected,
            TunnelStatus::Connecting => StatusView::Connecting,
            TunnelStatus::Connected { connected_at_millis } => StatusView::Connected {
                connected_at_millis: *connected_at_millis,
            },
            TunnelStatus::Error { error, occurred_at_millis } => StatusView::Error {
                error: error@,
                occurred_at_millis: *occurred_at_millis,
            },
            TunnelStatus::Reconnecting { attempt } => StatusView::Reconnecting {
                attempt: *attempt,
            },
        }
    }
}

impl TunnelStatus {
    /// Variant-for-variant copy of the status.
    pub fn duplicate(&self) -> (r: TunnelStatus)
        ensures
            r@ == self@,
    {
        match self {
            TunnelStatus::Disconnected => TunnelStatus::Disconnected,
            TunnelStatus::Connecting => TunnelStatus::Connecting,
            TunnelStatus::Connected { connected_at_millis } => TunnelStatus::Connected {
                connected_at_millis: *connected_at_millis,
            },
            TunnelStatus::Error { error, occurred_at_millis } => TunnelStatus::Error {
                error: error.clone(),
                occurred_at_millis: *occurred_at_millis,
            },
            TunnelStatus::Reconnecting { attempt } => TunnelStatus::Reconnecting {
                attempt: *attempt,
            },
        }
    }
}

/// A status transition published to observers: the tunnel's name and the
/// new state (with the error detail when the transition is a failure).
#[derive(Debug, Clone)]
pub enum StatusUpdate {
    Connecting(String),
    Connected(String),
    Error(String, TunnelError),
    Disconnected(String),
}

/// Mathematical image of a status event.
pub enum UpdateView {
    Connecting(Seq<char>),
    Connected(Seq<char>),
    Error(Seq<char>, ErrorView),
    Disconnected(Seq<char>),
}

impl View for StatusUpdate {
    type V = UpdateView;

    open spec fn view(&self) -> UpdateView {
        match self {
            StatusUpdate::Connecting(n) => UpdateView::Connecting(n@),
            StatusUpdate::Connected(n) => UpdateView::Connected(n@),
            StatusUpdate::Error(n, e) => UpdateView::Error(n@, e@),
            StatusUpdate::Disconnected(n) => UpdateView::Disconnected(n@),
        }
    }
}

impl DeepView for StatusUpdate {
    type V = UpdateView;

    open spec fn deep_view(&self) -> UpdateView {
        self.view()
    }
}

impl StatusUpdate {
    /// Variant-for-variant copy of the event.
    pub fn duplicate(&self) -> (r: StatusUpdate)
        ensures
            r@ == self@,
    {
        match self {
            StatusUpdate::Connecting(n) => StatusUpdate::Connecting(n.clone()),
            StatusUpdate::Connected(n) => StatusUpdate::Connected(n.clone()),
            StatusUpdate::Error(n, e) => StatusUpdate::Error(n.clone(), e.duplicate()),
            StatusUpdate::Disconnected(n) => StatusUpdate::Disconnected(n.clone()),
        }
    }
}

/// Bookkeeping for one live forwarding subprocess, exclusively owned by the
/// supervisor: the child's process id and when it was spawned.
#[derive(Clone, Copy, PartialEq, Eq, Structural)]
pub struct ActiveHandle {
    pub pid: u32,
    pub started_at_millis: u64,
}

impl View for ActiveHandle {
    type V = ActiveHandle;

    open spec fn view(&self) -> ActiveHandle {
        *self
    }
}

} // verus!
