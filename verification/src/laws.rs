//! The supervisor's guarantees, stated and proved once and for all over the
//! mathematical image of the supervisor. Each law speaks about the spec
//! transitions that the executable operations of `manager` are proved to
//! perform, so it holds of every run of the executable supervisor.

use vstd::prelude::*;
use crate::manager::{ManagerView, monitor_effect, start_effect, stop_effect};
use crate::tunnels::{ActiveHandle, ErrorView, StatusView, TunnelView, UpdateView};

verus! {

/// The state after one complete, successful `start` call on a tunnel that
/// had no live handle: the `Connecting` transition, the registration of
/// the spawned child, and the `Connected` transition after the grace
/// period found the child alive.
pub open spec fn completed_start(
    m: ManagerView,
    t: TunnelView,
    h: ActiveHandle,
    now_millis: u64,
) -> ManagerView {
    start_effect(m, t.name).spawn_registered(t.name, h).start_confirmed(t.name, now_millis)
}

/// Starting a tunnel twice without an intervening stop leaves exactly one
/// live handle: a completed start binds the name once in the handle table,
/// and a further start finds the handle and changes nothing — a no-op, not
/// a restart.
pub proof fn lemma_start_twice_single_handle(
    m: ManagerView,
    t: TunnelView,
    h: ActiveHandle,
    now_millis: u64,
)
    requires
        !m.active.contains_key(t.name),
    ensures
        completed_start(m, t, h, now_millis).active == m.active.insert(t.name, h),
        start_effect(completed_start(m, t, h, now_millis), t.name) == completed_start(
            m,
            t,
            h,
            now_millis,
        ),
{
}

/// Stopping a name with no live handle is a no-op success with zero status
/// transitions: nothing changes and no event is published.
pub proof fn lemma_stop_without_handle_is_noop(m: ManagerView, name: Seq<char>)
    requires
        !m.active.contains_key(name),
    ensures
        stop_effect(m, name) == m,
{
}

/// When `start` returns success, the tunnel's status is `Connected`, and
/// the call published exactly one `Connected` event, immediately preceded
/// by its `Connecting` event, and nothing else.
pub proof fn lemma_successful_start_events(
    m: ManagerView,
    t: TunnelView,
    h: ActiveHandle,
    now_millis: u64,
)
    requires
        !m.active.contains_key(t.name),
    ensures
        completed_start(m, t, h, now_millis).status_of(t.name) == (StatusView::Connected {
            connected_at_millis: now_millis,
        }),
        completed_start(m, t, h, now_millis).log == m.log + seq![
            UpdateView::Connecting(t.name),
            UpdateView::Connected(t.name),
        ],
{
    assert(completed_start(m, t, h, now_millis).log =~= m.log + seq![
        UpdateView::Connecting(t.name),
        UpdateView::Connected(t.name),
    ]);
}

/// When `start` returns an error because the subprocess could not be
/// created, the tunnel's status is `Error` and no `Connected` event was
/// published for the attempt: the call published exactly its `Connecting`
/// event followed by one `Error` event.
pub proof fn lemma_failed_spawn_events(
    m: ManagerView,
    t: TunnelView,
    detail: Seq<char>,
    now_millis: u64,
)
    requires
        !m.active.contains_key(t.name),
    ensures
        start_effect(m, t.name).spawn_failed(t.name, detail, now_millis).status_of(t.name)
            is Error,
        start_effect(m, t.name).spawn_failed(t.name, detail, now_millis).log == m.log + seq![
            UpdateView::Connecting(t.name),
            UpdateView::Error(t.name, ErrorView::ProcessSpawnFailed(detail)),
        ],
{
    assert(start_effect(m, t.name).spawn_failed(t.name, detail, now_millis).log =~= m.log + seq![
        UpdateView::Connecting(t.name),
        UpdateView::Error(t.name, ErrorView::ProcessSpawnFailed(detail)),
    ]);
}

/// When `start` returns an error because the child exited within the grace
/// period, the tunnel's status is `Error`, the handle is gone, and no
/// `Connected` event was published for the attempt: the call published
/// exactly its `Connecting` event followed by one `Error` event.
pub proof fn lemma_aborted_start_events(
    m: ManagerView,
    t: TunnelView,
    h: ActiveHandle,
    detail: Seq<char>,
    now_millis: u64,
)
    requires
        !m.active.contains_key(t.name),
    ensures
        ({
            let after = start_effect(m, t.name).spawn_registered(t.name, h).start_aborted(
                t.name,
                detail,
                now_millis,
            );
            &&& after.status_of(t.name) is Error
            &&& !after.active.contains_key(t.name)
            &&& after.log == m.log + seq![
                UpdateView::Connecting(t.name),
                UpdateView::Error(
                    t.name,
                    ErrorView::UnexpectedTermination(
                        "Process exited immediately with status: "@ + detail,
                    ),
                ),
            ]
        }),
{
    let after = start_effect(m, t.name).spawn_registered(t.name, h).start_aborted(
        t.name,
        detail,
        now_millis,
    );
    assert(after.active =~= m.active.insert(t.name, h).remove(t.name));
    assert(!after.active.contains_key(t.name));
    assert(after.log =~= m.log + seq![
        UpdateView::Connecting(t.name),
        UpdateView::Error(
            t.name,
            ErrorView::UnexpectedTermination(
                "Process exited immediately with status: "@ + detail,
            ),
        ),
    ]);
}

/// After `cleanup`, no name is active any more, whatever was active before.
pub proof fn lemma_cleanup_deactivates_all(m: ManagerView, name: Seq<char>)
    ensures
        !m.cleaned().active.contains_key(name),
{
}

/// `cleanup` is idempotent: a second teardown changes nothing.
pub proof fn lemma_cleanup_idempotent(m: ManagerView)
    ensures
        m.cleaned().cleaned() == m.cleaned(),
{
}

/// Stopping a connected tunnel ends in `Disconnected`, never `Error`: the
/// stop publishes exactly one `Disconnected` event, and a monitor tick
/// that runs afterwards finds no handle and neither touches any status nor
/// publishes anything, whatever it observed of the deliberately terminated
/// process. This is why the monitor must be cancelled (here: the handle
/// removed) before the process is killed.
pub proof fn lemma_stop_then_monitor_is_quiet(
    m: ManagerView,
    name: Seq<char>,
    exit_detail: Option<Seq<char>>,
    now_millis: u64,
)
    requires
        m.active.contains_key(name),
    ensures
        stop_effect(m, name).status_of(name) == StatusView::Disconnected,
        stop_effect(m, name).log == m.log.push(UpdateView::Disconnected(name)),
        monitor_effect(stop_effect(m, name), name, exit_detail, now_millis) == stop_effect(
            m,
            name,
        ),
{
    assert(!stop_effect(m, name).active.contains_key(name));
}

/// Stopping never touches the registry; in particular a `remove` of a name
/// absent from the registry — which stops first and then fails with the
/// registry error — leaves the registry exactly as it was.
pub proof fn lemma_stop_keeps_registry(m: ManagerView, name: Seq<char>)
    ensures
        stop_effect(m, name).tunnels == m.tunnels,
{
}

} // verus!
