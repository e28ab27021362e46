use vstd::prelude::*;

use crate::data::{has_monitor, Data, Monitor, Workspace};
use crate::error::StashError;
use crate::util::MoveBatch;
use crate::workspace::{
    is_workspace_pop, is_workspace_stash, workspace_pop, workspace_stash, StashedWorkspace,
};
use crate::{MonitorId, WorkspaceId};

verus! {

/// The workspaces of one monitor, stashed together with their order.
#[derive(Debug, Clone)]
pub struct StashedMonitor {
    pub workspaces: Vec<StashedWorkspace>,
    pub layout: Vec<WorkspaceId>,
    pub original_monitor: MonitorId,
}

impl StashedMonitor {
    /// `layout` and `workspaces` correspond by position.
    pub open spec fn wf(self) -> bool {
        &&& self.layout@.len() == self.workspaces@.len()
        &&& forall|i: int|
            0 <= i < self.layout@.len() ==> (#[trigger] self.workspaces@[i]).original_workspace
                == self.layout@[i]
    }

    /// Whether `layout` and `workspaces` correspond by position.
    pub fn is_consistent(&self) -> (r: bool)
        ensures
            r == self.wf(),
    {
        if self.layout.len() != self.workspaces.len() {
            return false;
        }
        let mut i: usize = 0;
        while i < self.layout.len()
            invariant
                i <= self.layout@.len(),
                self.layout@.len() == self.workspaces@.len(),
                forall|j: int|
                    0 <= j < i ==> (#[trigger] self.workspaces@[j]).original_workspace
                        == self.layout@[j],
            decreases self.layout@.len() - i,
        {
            if self.workspaces[i].original_workspace != self.layout[i] {
                return false;
            }
            i = i + 1;
        }
        true
    }
}

/// The ids of the workspaces of `wss` assigned to monitor `m`, in order.
pub open spec fn workspaces_on(wss: Seq<Workspace>, m: MonitorId) -> Seq<WorkspaceId>
    decreases wss.len(),
{
    if wss.len() == 0 {
        Seq::empty()
    } else {
        let rest = workspaces_on(wss.drop_last(), m);
        if wss.last().monitor_id == Some(m) {
            rest.push(wss.last().id)
        } else {
            rest
        }
    }
}

/// The largest workspace id of `wss`; zero when there is none.
pub open spec fn max_id(wss: Seq<Workspace>) -> int
    decreases wss.len(),
{
    if wss.len() == 0 {
        0
    } else if wss.len() == 1 {
        wss[0].id as int
    } else {
        let m = max_id(wss.drop_last());
        if wss.last().id > m {
            wss.last().id as int
        } else {
            m
        }
    }
}

/// Where position `k` of a stashed layout lands on a monitor whose
/// workspaces are `existing`: the workspace at the same position, or past
/// the end a fresh id counted up from `next`.
pub open spec fn remap(existing: Seq<WorkspaceId>, next: int, k: int) -> int {
    if k < existing.len() {
        existing[k] as int
    } else {
        next + (k - existing.len())
    }
}

/// Where position `k` of a stashed layout lands on monitor `target` of `data`.
pub open spec fn destination(data: Data, target: MonitorId, k: int) -> int {
    remap(workspaces_on(data.workspaces@, target), max_id(data.workspaces@) + 1, k)
}

/// Remapping `layout` onto `target` needs fresh ids past the largest
/// workspace id.
pub open spec fn ids_exhausted(data: Data, layout: Seq<WorkspaceId>, target: MonitorId) -> bool {
    let existing = workspaces_on(data.workspaces@, target);
    layout.len() > existing.len() && max_id(data.workspaces@) + (layout.len() - existing.len())
        > i32::MAX
}

/// `r` records the stash of monitor `mon` of `data` to `holding`.
pub open spec fn is_monitor_stash(
    r: StashedMonitor,
    data: Data,
    mon: MonitorId,
    holding: WorkspaceId,
) -> bool {
    &&& r.wf()
    &&& r.layout@ == workspaces_on(data.workspaces@, mon)
    &&& forall|i: int|
        0 <= i < r.layout@.len() ==> is_workspace_stash(
            #[trigger] r.workspaces@[i],
            data,
            r.layout@[i],
            holding,
        )
    &&& r.original_monitor == data.active_monitor
}

/// `p` restores every workspace of `m` to its own original id.
pub open spec fn is_relative_plan(p: Seq<MoveBatch>, data: Data, m: StashedMonitor) -> bool {
    &&& p.len() == m.workspaces@.len()
    &&& forall|k: int|
        0 <= k < p.len() ==> is_workspace_pop(
            #[trigger] p[k],
            data,
            m.workspaces@[k],
            m.workspaces@[k].original_workspace,
        )
}

/// `p` restores the workspace at each position of `m` to where that
/// position lands on `target`.
pub open spec fn is_absolute_plan(
    p: Seq<MoveBatch>,
    data: Data,
    m: StashedMonitor,
    target: MonitorId,
) -> bool {
    &&& p.len() == m.workspaces@.len()
    &&& forall|k: int|
        0 <= k < p.len() ==> is_workspace_pop(
            #[trigger] p[k],
            data,
            m.workspaces@[k],
            destination(data, target, k) as WorkspaceId,
        )
}

/// Whether a monitor of `monitors` has the id `id`.
pub fn monitor_exists(monitors: &Vec<Monitor>, id: MonitorId) -> (r: bool)
    ensures
        r == has_monitor(monitors@, id),
{
    let mut i: usize = 0;
    while i < monitors.len()
        invariant
            i <= monitors@.len(),
            forall|j: int| 0 <= j < i ==> (#[trigger] monitors@[j]).id != id,
        decreases monitors@.len() - i,
    {
        if monitors[i].id == id {
            return true;
        }
        i = i + 1;
    }
    false
}

/// The ids of the workspaces assigned to monitor `m`, in snapshot order.
pub fn workspaces_of(workspaces: &Vec<Workspace>, m: MonitorId) -> (r: Vec<WorkspaceId>)
    ensures
        r@ == workspaces_on(workspaces@, m),
{
    let mut r: Vec<WorkspaceId> = Vec::new();
    let mut i: usize = 0;
    while i < workspaces.len()
        invariant
            i <= workspaces@.len(),
            r@ == workspaces_on(workspaces@.subrange(0, i as int), m),
        decreases workspaces@.len() - i,
    {
        assert(workspaces@.subrange(0, i + 1).drop_last() =~= workspaces@.subrange(0, i as int));
        if workspaces[i].monitor_id == Some(m) {
            r.push(workspaces[i].id);
        }
        i = i + 1;
    }
    assert(workspaces@.subrange(0, i as int) =~= workspaces@);
    r
}

/// The largest workspace id; zero when there is none.
pub fn max_workspace_id(workspaces: &Vec<Workspace>) -> (r: WorkspaceId)
    ensures
        r as int == max_id(workspaces@),
{
    let mut m: WorkspaceId = 0;
    let mut i: usize = 0;
    while i < workspaces.len()
        invariant
            i <= workspaces@.len(),
            m as int == max_id(workspaces@.subrange(0, i as int)),
        decreases workspaces@.len() - i,
    {
        let ghost prefix = workspaces@.subrange(0, i + 1);
        assert(prefix.drop_last() =~= workspaces@.subrange(0, i as int));
        if i == 0 || workspaces[i].id > m {
            m = workspaces[i].id;
        }
        i = i + 1;
    }
    assert(workspaces@.subrange(0, i as int) =~= workspaces@);
    m
}

/// Stashes every workspace assigned to `monitor` to `stash_workspace`; the
/// caller moves the windows of each record. The record names the focused
/// monitor of the snapshot as its origin.
pub fn monitor_stash(data: &Data, monitor: MonitorId, stash_workspace: WorkspaceId) -> (r: Result<
    StashedMonitor,
    StashError,
>)
    ensures
        has_monitor(data.monitors@, monitor) <==> r is Ok,
        r is Err ==> r == Err::<StashedMonitor, StashError>(StashError::MonitorNotFound(monitor)),
        r is Ok ==> is_monitor_stash(r->Ok_0, *data, monitor, stash_workspace),
{
    if !monitor_exists(&data.monitors, monitor) {
        return Err(StashError::MonitorNotFound(monitor));
    }
    let layout = workspaces_of(&data.workspaces, monitor);
    let mut stashed: Vec<StashedWorkspace> = Vec::new();
    let mut i: usize = 0;
    while i < layout.len()
        invariant
            i <= layout@.len(),
            stashed@.len() == i,
            forall|j: int|
                0 <= j < i ==> is_workspace_stash(
                    #[trigger] stashed@[j],
                    *data,
                    layout@[j],
                    stash_workspace,
                ),
        decreases layout@.len() - i,
    {
        let w = workspace_stash(data, layout[i], stash_workspace);
        stashed.push(w);
        i = i + 1;
    }
    Ok(StashedMonitor { workspaces: stashed, layout, original_monitor: data.active_monitor })
}

/// Restores every workspace of `instance` to its own original id.
pub fn monitor_pop_relative(data: &Data, instance: &StashedMonitor) -> (r: Vec<MoveBatch>)
    ensures
        is_relative_plan(r@, *data, *instance),
{
    let mut r: Vec<MoveBatch> = Vec::new();
    let mut k: usize = 0;
    while k < instance.workspaces.len()
        invariant
            k <= instance.workspaces@.len(),
            r@.len() == k,
            forall|j: int|
                0 <= j < k ==> is_workspace_pop(
                    #[trigger] r@[j],
                    *data,
                    instance.workspaces@[j],
                    instance.workspaces@[j].original_workspace,
                ),
        decreases instance.workspaces@.len() - k,
    {
        let b = workspace_pop(data, &instance.workspaces[k], None);
        r.push(b);
        k = k + 1;
    }
    r
}

/// Every workspace id of `wss` is at most `max_id(wss)`.
pub proof fn lemma_max_id_bounds(wss: Seq<Workspace>)
    ensures
        forall|i: int| 0 <= i < wss.len() ==> (#[trigger] wss[i]).id <= max_id(wss),
    decreases wss.len(),
{
    if wss.len() > 1 {
        lemma_max_id_bounds(wss.drop_last());
        assert forall|i: int| 0 <= i < wss.len() implies (#[trigger] wss[i]).id <= max_id(wss) by {
            if i < wss.len() - 1 {
                assert(wss.drop_last()[i] == wss[i]);
            }
        }
    }
}

/// Remapping a stashed layout onto a monitor: the position `k` lands on the
/// monitor's workspace at the same position while there is one; past those,
/// each position gets its own id, greater than every workspace id of the
/// snapshot.
pub proof fn lemma_remap_positions(data: Data, target: MonitorId, k: int, l: int)
    requires
        0 <= k,
        0 <= l,
    ensures
        k < workspaces_on(data.workspaces@, target).len() ==> destination(data, target, k)
            == workspaces_on(data.workspaces@, target)[k],
        k >= workspaces_on(data.workspaces@, target).len() ==> forall|i: int|
            0 <= i < data.workspaces@.len() ==> (#[trigger] data.workspaces@[i]).id
                < destination(data, target, k),
        k != l && k >= workspaces_on(data.workspaces@, target).len() && l >= workspaces_on(
            data.workspaces@,
            target,
        ).len() ==> destination(data, target, k) != destination(data, target, l),
{
    lemma_max_id_bounds(data.workspaces@);
}

/// The pairs (stashed id, destination id) that remap `layout` onto monitor
/// `target`, by position.
pub fn layout_mapping(data: &Data, layout: &Vec<WorkspaceId>, target: MonitorId) -> (r: Result<
    Vec<(WorkspaceId, WorkspaceId)>,
    StashError,
>)
    ensures
        ids_exhausted(*data, layout@, target) <==> r is Err,
        r is Err ==> r == Err::<Vec<(WorkspaceId, WorkspaceId)>, StashError>(
            StashError::WorkspaceIdsExhausted,
        ),
        r is Ok ==> r->Ok_0@.len() == layout@.len() && forall|k: int|
            0 <= k < layout@.len() ==> (#[trigger] r->Ok_0@[k]).0 == layout@[k] && r->Ok_0@[k].1
                as int == destination(*data, target, k),
{
    let existing = workspaces_of(&data.workspaces, target);
    let max = max_workspace_id(&data.workspaces);
    if layout.len() > existing.len() && (max as i128) + ((layout.len() - existing.len()) as i128)
        > i32::MAX as i128 {
        return Err(StashError::WorkspaceIdsExhausted);
    }
    let mut r: Vec<(WorkspaceId, WorkspaceId)> = Vec::new();
    let mut k: usize = 0;
    while k < layout.len()
        invariant
            k <= layout@.len(),
            existing@ == workspaces_on(data.workspaces@, target),
            max as int == max_id(data.workspaces@),
            !ids_exhausted(*data, layout@, target),
            r@.len() == k,
            forall|j: int|
                0 <= j < k ==> (#[trigger] r@[j]).0 == layout@[j] && r@[j].1 as int == destination(
                    *data,
                    target,
                    j,
                ),
        decreases layout@.len() - k,
    {
        let new_id: WorkspaceId = if k < existing.len() {
            existing[k]
        } else {
            ((max as i128) + 1 + ((k - existing.len()) as i128)) as WorkspaceId
        };
        r.push((layout[k], new_id));
        k = k + 1;
    }
    Ok(r)
}

/// Restores `instance` onto monitor `target`, or onto its original
/// monitor: the workspaces are paired with the monitor's current ones by
/// position, and those past its last one get fresh ids.
pub fn monitor_pop_absolute(
    data: &Data,
    instance: &StashedMonitor,
    target: Option<MonitorId>,
) -> (r: Result<Vec<MoveBatch>, StashError>)
    requires
        instance.wf(),
    ensures
        ({
            let t = match target {
                Some(t) => t,
                None => instance.original_monitor,
            };
            &&& ids_exhausted(*data, instance.layout@, t) <==> r is Err
            &&& r is Err ==> r == Err::<Vec<MoveBatch>, StashError>(
                StashError::WorkspaceIdsExhausted,
            )
            &&& r is Ok ==> is_absolute_plan(r->Ok_0@, *data, *instance, t)
        }),
{
    let target = match target {
        Some(t) => t,
        None => instance.original_monitor,
    };
    let mapping = match layout_mapping(data, &instance.layout, target) {
        Ok(m) => m,
        Err(e) => {
            return Err(e);
        },
    };
    let mut r: Vec<MoveBatch> = Vec::new();
    let mut k: usize = 0;
    while k < instance.workspaces.len()
        invariant
            k <= instance.workspaces@.len(),
            instance.wf(),
            mapping@.len() == instance.layout@.len(),
            forall|j: int|
                0 <= j < instance.layout@.len() ==> (#[trigger] mapping@[j]).1 as int
                    == destination(*data, target, j),
            r@.len() == k,
            forall|j: int|
                0 <= j < k ==> is_workspace_pop(
                    #[trigger] r@[j],
                    *data,
                    instance.workspaces@[j],
                    destination(*data, target, j) as WorkspaceId,
                ),
        decreases instance.workspaces@.len() - k,
    {
        let b = workspace_pop(data, &instance.workspaces[k], Some(mapping[k].1));
        r.push(b);
        k = k + 1;
    }
    Ok(r)
}

} // verus!
