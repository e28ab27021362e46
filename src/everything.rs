use vstd::prelude::*;

use crate::data::{has_monitor, Data};
use crate::error::StashError;
use crate::monitor::{
    destination, ids_exhausted, is_absolute_plan, is_monitor_stash, is_relative_plan, monitor_exists,
    monitor_pop_absolute, monitor_pop_relative, monitor_stash, StashedMonitor,
};
use crate::util::MoveBatch;
use crate::workspace::is_workspace_pop;
use crate::{MonitorId, WorkspaceId};

verus! {

/// Every monitor of a session, stashed to one holding workspace.
#[derive(Debug, Clone)]
pub struct StashedFullSession {
    pub stash_location: WorkspaceId,
    pub monitors: Vec<StashedMonitor>,
}

impl StashedFullSession {
    /// Every stashed monitor is well formed.
    pub open spec fn wf(self) -> bool {
        forall|i: int| 0 <= i < self.monitors@.len() ==> (#[trigger] self.monitors@[i]).wf()
    }

    /// Whether every stashed monitor is well formed.
    pub fn is_consistent(&self) -> (r: bool)
        ensures
            r == self.wf(),
    {
        let mut i: usize = 0;
        while i < self.monitors.len()
            invariant
                i <= self.monitors@.len(),
                forall|j: int| 0 <= j < i ==> (#[trigger] self.monitors@[j]).wf(),
            decreases self.monitors@.len() - i,
        {
            if !self.monitors[i].is_consistent() {
                return false;
            }
            i = i + 1;
        }
        true
    }
}

/// The original monitor of `m` is gone from `data`.
pub open spec fn is_missing(data: Data, m: StashedMonitor) -> bool {
    !has_monitor(data.monitors@, m.original_monitor)
}

/// Some stashed monitor of `s` has lost its original monitor.
pub open spec fn any_missing(data: Data, s: StashedFullSession) -> bool {
    exists|k: int| 0 <= k < s.monitors@.len() && is_missing(data, #[trigger] s.monitors@[k])
}

/// `m` is restored relatively: on request, or because its monitor is gone.
pub open spec fn restores_relative(data: Data, m: StashedMonitor, relative: bool) -> bool {
    relative || is_missing(data, m)
}

/// A monitor of `s` that is to be remapped onto its original monitor runs
/// out of fresh ids.
pub open spec fn session_exhausted(data: Data, s: StashedFullSession, relative: bool) -> bool {
    exists|k: int|
        0 <= k < s.monitors@.len() && !restores_relative(data, #[trigger] s.monitors@[k], relative)
            && ids_exhausted(data, s.monitors@[k].layout@, s.monitors@[k].original_monitor)
}

/// Stashes every monitor of the snapshot to `stash_workspace`.
pub fn everything_stash(data: &Data, stash_workspace: WorkspaceId) -> (r: StashedFullSession)
    ensures
        r.stash_location == stash_workspace,
        r.monitors@.len() == data.monitors@.len(),
        forall|i: int|
            0 <= i < r.monitors@.len() ==> is_monitor_stash(
                #[trigger] r.monitors@[i],
                *data,
                data.monitors@[i].id,
                stash_workspace,
            ),
{
    let mut monitors: Vec<StashedMonitor> = Vec::new();
    let mut i: usize = 0;
    while i < data.monitors.len()
        invariant
            i <= data.monitors@.len(),
            monitors@.len() == i,
            forall|j: int|
                0 <= j < i ==> is_monitor_stash(
                    #[trigger] monitors@[j],
                    *data,
                    data.monitors@[j].id,
                    stash_workspace,
                ),
        decreases data.monitors@.len() - i,
    {
        assert(has_monitor(data.monitors@, data.monitors@[i as int].id));
        match monitor_stash(data, data.monitors[i].id, stash_workspace) {
            Ok(m) => {
                monitors.push(m);
            },
            Err(_) => {
                assert(false);
            },
        }
        i = i + 1;
    }
    StashedFullSession { stash_location: stash_workspace, monitors }
}

/// Restores a whole session. With `no_missing_monitors`, a stashed monitor
/// whose original monitor is gone fails the pop before anything moves.
/// Otherwise a monitor that still exists gets its workspaces remapped onto
/// it by position, unless `relative` asks otherwise; one that is gone is
/// restored to its original workspace ids.
pub fn everything_pop(
    data: &Data,
    instance: &StashedFullSession,
    no_missing_monitors: bool,
    relative: bool,
) -> (r: Result<Vec<Vec<MoveBatch>>, StashError>)
    requires
        instance.wf(),
    ensures
        no_missing_monitors && any_missing(*data, *instance) ==> exists|k: int|
            0 <= k < instance.monitors@.len() && is_missing(*data, #[trigger] instance.monitors@[k])
                && (forall|j: int| 0 <= j < k ==> !is_missing(*data, #[trigger] instance.monitors@[j]))
                && r == Err::<Vec<Vec<MoveBatch>>, StashError>(
                StashError::MonitorNotFound(instance.monitors@[k].original_monitor),
            ),
        !(no_missing_monitors && any_missing(*data, *instance)) ==> (r is Err <==> session_exhausted(
            *data,
            *instance,
            relative,
        )),
        !(no_missing_monitors && any_missing(*data, *instance)) && r is Err ==> r == Err::<
            Vec<Vec<MoveBatch>>,
            StashError,
        >(StashError::WorkspaceIdsExhausted),
        r is Ok ==> forall|k: int|
            0 <= k < instance.monitors@.len() && is_missing(*data, #[trigger] instance.monitors@[k])
                ==> is_relative_plan(r->Ok_0@[k]@, *data, instance.monitors@[k]),
        r is Ok && !relative ==> forall|k: int|
            0 <= k < instance.monitors@.len() && !is_missing(
                *data,
                #[trigger] instance.monitors@[k],
            ) ==> is_absolute_plan(
                r->Ok_0@[k]@,
                *data,
                instance.monitors@[k],
                instance.monitors@[k].original_monitor,
            ),
        r is Ok ==> r->Ok_0@.len() == instance.monitors@.len() && forall|k: int|
            0 <= k < instance.monitors@.len() ==> if restores_relative(
                *data,
                #[trigger] instance.monitors@[k],
                relative,
            ) {
                is_relative_plan(r->Ok_0@[k]@, *data, instance.monitors@[k])
            } else {
                is_absolute_plan(
                    r->Ok_0@[k]@,
                    *data,
                    instance.monitors@[k],
                    instance.monitors@[k].original_monitor,
                )
            },
{
    if no_missing_monitors {
        let mut i: usize = 0;
        while i < instance.monitors.len()
            invariant
                no_missing_monitors,
                i <= instance.monitors@.len(),
                forall|j: int| 0 <= j < i ==> !is_missing(*data, #[trigger] instance.monitors@[j]),
            decreases instance.monitors@.len() - i,
        {
            let id = instance.monitors[i].original_monitor;
            if !monitor_exists(&data.monitors, id) {
                assert(is_missing(*data, instance.monitors@[i as int]));
                assert(any_missing(*data, *instance));
                return Err(StashError::MonitorNotFound(id));
            }
            i = i + 1;
        }
    }
    assert(no_missing_monitors ==> !any_missing(*data, *instance));
    let mut plans: Vec<Vec<MoveBatch>> = Vec::new();
    let mut k: usize = 0;
    while k < instance.monitors.len()
        invariant
            k <= instance.monitors@.len(),
            instance.wf(),
            no_missing_monitors ==> !any_missing(*data, *instance),
            plans@.len() == k,
            forall|j: int|
                0 <= j < k ==> !(!restores_relative(*data, #[trigger] instance.monitors@[j], relative)
                    && ids_exhausted(
                    *data,
                    instance.monitors@[j].layout@,
                    instance.monitors@[j].original_monitor,
                )),
            forall|j: int|
                0 <= j < k ==> if restores_relative(
                    *data,
                    #[trigger] instance.monitors@[j],
                    relative,
                ) {
                    is_relative_plan(plans@[j]@, *data, instance.monitors@[j])
                } else {
                    is_absolute_plan(
                        plans@[j]@,
                        *data,
                        instance.monitors@[j],
                        instance.monitors@[j].original_monitor,
                    )
                },
        decreases instance.monitors@.len() - k,
    {
        let m = &instance.monitors[k];
        if relative || !monitor_exists(&data.monitors, m.original_monitor) {
            plans.push(monitor_pop_relative(data, m));
        } else {
            assert(m.wf());
            match monitor_pop_absolute(data, m, None) {
                Ok(p) => {
                    plans.push(p);
                },
                Err(e) => {
                    assert(session_exhausted(*data, *instance, relative));
                    return Err(e);
                },
            }
        }
        k = k + 1;
    }
    Ok(plans)
}

/// Two plans that each restore every workspace of `m` to its own original
/// id move the same windows to the same workspaces; so a monitor whose
/// original monitor is gone is restored alike whether or not a relative
/// pop was asked for.
pub proof fn lemma_relative_plans_agree(p: Seq<MoveBatch>, q: Seq<MoveBatch>, data: Data, m: StashedMonitor)
    requires
        is_relative_plan(p, data, m),
        is_relative_plan(q, data, m),
    ensures
        p.len() == q.len(),
        forall|k: int|
            0 <= k < p.len() ==> (#[trigger] p[k]).target == q[k].target && p[k].addresses@
                == q[k].addresses@,
{
    assert forall|k: int| 0 <= k < p.len() implies (#[trigger] p[k]).target == q[k].target
        && p[k].addresses@ == q[k].addresses@ by {
        assert(is_workspace_pop(p[k], data, m.workspaces@[k], m.workspaces@[k].original_workspace));
        assert(is_workspace_pop(q[k], data, m.workspaces@[k], m.workspaces@[k].original_workspace));
    }
}

/// Two plans that each remap `m` onto monitor `target` move the same
/// windows to the same workspaces.
pub proof fn lemma_absolute_plans_agree(
    p: Seq<MoveBatch>,
    q: Seq<MoveBatch>,
    data: Data,
    m: StashedMonitor,
    target: MonitorId,
)
    requires
        is_absolute_plan(p, data, m, target),
        is_absolute_plan(q, data, m, target),
    ensures
        p.len() == q.len(),
        forall|k: int|
            0 <= k < p.len() ==> (#[trigger] p[k]).target == q[k].target && p[k].addresses@
                == q[k].addresses@,
{
    assert forall|k: int| 0 <= k < p.len() implies (#[trigger] p[k]).target == q[k].target
        && p[k].addresses@ == q[k].addresses@ by {
        assert(is_workspace_pop(p[k], data, m.workspaces@[k], destination(data, target, k) as WorkspaceId));
        assert(is_workspace_pop(q[k], data, m.workspaces@[k], destination(data, target, k) as WorkspaceId));
    }
}

} // verus!
