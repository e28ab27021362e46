use vstd::prelude::*;

use crate::data::{Client, Data};
use crate::util::MoveBatch;
use crate::WorkspaceId;

verus! {

/// The windows of one workspace, moved to a holding workspace.
#[derive(Debug, Clone)]
pub struct StashedWorkspace {
    pub stash_location: WorkspaceId,
    pub original_workspace: WorkspaceId,
    pub client_addresses: Vec<String>,
}

/// The addresses of the windows of `clients` on `ws`, in order.
pub open spec fn addresses_on(clients: Seq<Client>, ws: WorkspaceId) -> Seq<String>
    decreases clients.len(),
{
    if clients.len() == 0 {
        Seq::empty()
    } else {
        let rest = addresses_on(clients.drop_last(), ws);
        if clients.last().workspace == ws {
            rest.push(clients.last().address)
        } else {
            rest
        }
    }
}

/// A window whose address reads as `a` is on `ws` in `clients`.
pub open spec fn located_at(clients: Seq<Client>, a: String, ws: WorkspaceId) -> bool {
    exists|i: int| 0 <= i < clients.len() && #[trigger] clients[i].address@ == a@
        && clients[i].workspace == ws
}

/// The addresses of `addrs` whose window is still on `ws`, in order.
pub open spec fn still_at(clients: Seq<Client>, addrs: Seq<String>, ws: WorkspaceId) -> Seq<String>
    decreases addrs.len(),
{
    if addrs.len() == 0 {
        Seq::empty()
    } else {
        let rest = still_at(clients, addrs.drop_last(), ws);
        if located_at(clients, addrs.last(), ws) {
            rest.push(addrs.last())
        } else {
            rest
        }
    }
}

/// `r` records the stash of workspace `ws` of `data` to `holding`.
pub open spec fn is_workspace_stash(
    r: StashedWorkspace,
    data: Data,
    ws: WorkspaceId,
    holding: WorkspaceId,
) -> bool {
    &&& r.stash_location == holding
    &&& r.original_workspace == ws
    &&& r.client_addresses@ == addresses_on(data.clients@, ws)
}

/// `b` restores the windows of `w` that are still in its holding
/// workspace to `target`.
pub open spec fn is_workspace_pop(
    b: MoveBatch,
    data: Data,
    w: StashedWorkspace,
    target: WorkspaceId,
) -> bool {
    &&& b.target == target
    &&& b.addresses@ == still_at(data.clients@, w.client_addresses@, w.stash_location)
}

/// Records the windows of `workspace`; the caller moves each of them to
/// `stash_workspace`, whatever the outcome of each move.
pub fn workspace_stash(data: &Data, workspace: WorkspaceId, stash_workspace: WorkspaceId) -> (r:
    StashedWorkspace)
    ensures
        is_workspace_stash(r, *data, workspace, stash_workspace),
{
    let mut client_addresses: Vec<String> = Vec::new();
    let mut i: usize = 0;
    while i < data.clients.len()
        invariant
            i <= data.clients@.len(),
            client_addresses@ == addresses_on(data.clients@.subrange(0, i as int), workspace),
        decreases data.clients@.len() - i,
    {
        let client = &data.clients[i];
        assert(data.clients@.subrange(0, i + 1).drop_last() =~= data.clients@.subrange(0, i as int));
        if client.workspace == workspace {
            client_addresses.push(client.address.clone());
        }
        i = i + 1;
    }
    assert(data.clients@.subrange(0, i as int) =~= data.clients@);
    StashedWorkspace { stash_location: stash_workspace, original_workspace: workspace, client_addresses }
}

/// Whether a window with address `a` is on `ws`.
fn client_located(clients: &Vec<Client>, a: &String, ws: WorkspaceId) -> (r: bool)
    ensures
        r == located_at(clients@, *a, ws),
{
    let mut i: usize = 0;
    while i < clients.len()
        invariant
            i <= clients@.len(),
            forall|j: int| 0 <= j < i ==> !(#[trigger] clients@[j].address@ == a@
                && clients@[j].workspace == ws),
        decreases clients@.len() - i,
    {
        if clients[i].workspace == ws && clients[i].address == *a {
            return true;
        }
        i = i + 1;
    }
    false
}

/// The moves that restore `instance` to `target`, or to its original
/// workspace: only windows still in the holding workspace move; the others
/// are dropped without error.
pub fn workspace_pop(data: &Data, instance: &StashedWorkspace, target: Option<WorkspaceId>) -> (r:
    MoveBatch)
    ensures
        is_workspace_pop(
            r,
            *data,
            *instance,
            match target {
                Some(t) => t,
                None => instance.original_workspace,
            },
        ),
{
    let target = match target {
        Some(t) => t,
        None => instance.original_workspace,
    };
    let addrs = &instance.client_addresses;
    let mut valid: Vec<String> = Vec::new();
    let mut i: usize = 0;
    while i < addrs.len()
        invariant
            i <= addrs@.len(),
            valid@ == still_at(data.clients@, addrs@.subrange(0, i as int), instance.stash_location),
        decreases addrs@.len() - i,
    {
        assert(addrs@.subrange(0, i + 1).drop_last() =~= addrs@.subrange(0, i as int));
        if client_located(&data.clients, &addrs[i], instance.stash_location) {
            valid.push(addrs[i].clone());
        }
        i = i + 1;
    }
    assert(addrs@.subrange(0, i as int) =~= addrs@);
    MoveBatch { target, addresses: valid }
}

} // verus!
