//! Core of an SSH tunnel manager: a verified supervisor for local
//! port-forwarding tunnels realized as external subprocesses.
//!
//! The supervisor (`manager`) owns the tunnel registry, the table of live
//! process handles, the per-tunnel status tracker and the status event
//! feed; every state transition it can make is specified against a
//! mathematical model, and the guarantees of the design — one handle per
//! name, cancel-before-kill, event ordering — are proved once and for all
//! in `laws`. The SSH invocations are built in `command`, the client's
//! diagnostic stream is classified in `diagnose`, the on-disk tunnel store
//! is rendered and parsed in `store` (with a proved round trip), and the
//! tunnel forms live in `windows`.
//!
//! The supervisor itself performs no I/O: the surrounding runtime spawns,
//! observes and terminates the subprocesses and feeds every observation
//! back in, so all decisions stay inside verified code.

pub mod assoc;
pub mod command;
pub mod diagnose;
pub mod laws;
pub mod manager;
pub mod store;
pub mod tunnels;
pub mod windows;
