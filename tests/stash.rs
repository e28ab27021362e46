use hyprstash::data::{Client, Data, Monitor, Workspace};
use hyprstash::error::{DispatchError, StashError};
use hyprstash::everything::{everything_pop, everything_stash, StashedFullSession};
use hyprstash::monitor::{
    layout_mapping, max_workspace_id, monitor_pop_absolute, monitor_pop_relative, monitor_stash,
    workspaces_of, StashedMonitor,
};
use hyprstash::state::StashedInstance;
use hyprstash::workspace::{workspace_pop, workspace_stash, StashedWorkspace};

fn monitor(id: i128, focused: bool, active: i32) -> Monitor {
    Monitor {
        id,
        name: format!("DP-{}", id),
        description: format!("screen {}", id),
        focused,
        active_workspace: active,
    }
}

fn ws(id: i32, monitor_id: Option<i128>) -> Workspace {
    Workspace { id, monitor_id }
}

fn client(address: &str, workspace: i32) -> Client {
    Client { address: address.to_string(), workspace }
}

fn strings(items: &[&str]) -> Vec<String> {
    items.iter().map(|s| s.to_string()).collect()
}

fn snapshot(monitors: Vec<Monitor>, workspaces: Vec<Workspace>, clients: Vec<Client>) -> Data {
    Data::new(monitors, clients, workspaces).unwrap()
}

#[test]
fn data_picks_first_focused_monitor() {
    let d = snapshot(
        vec![monitor(0, false, 1), monitor(1, true, 5), monitor(2, true, 9)],
        vec![],
        vec![],
    );
    assert_eq!(d.active_monitor, 1);
    assert_eq!(d.active_workspace, 5);
}

#[test]
fn data_without_focus_fails() {
    let r = Data::new(vec![monitor(0, false, 1)], vec![], vec![]);
    assert!(matches!(r, Err(StashError::NoActiveMonitorWorkspace)));
    let r = Data::new(vec![], vec![], vec![]);
    assert!(matches!(r, Err(StashError::NoActiveMonitorWorkspace)));
}

#[test]
fn workspace_stash_selects_windows_in_order() {
    let d = snapshot(
        vec![monitor(0, true, 1)],
        vec![ws(1, Some(0)), ws(2, Some(0))],
        vec![client("0xa", 1), client("0xb", 2), client("0xc", 1)],
    );
    let r = workspace_stash(&d, 1, 8);
    assert_eq!(r.stash_location, 8);
    assert_eq!(r.original_workspace, 1);
    assert_eq!(r.client_addresses, strings(&["0xa", "0xc"]));
    let empty = workspace_stash(&d, 3, 8);
    assert!(empty.client_addresses.is_empty());
}

#[test]
fn workspace_pop_drops_closed_window() {
    // Windows a, b, c were stashed from workspace 1 to 8; b has since closed.
    let rec = StashedWorkspace {
        stash_location: 8,
        original_workspace: 1,
        client_addresses: strings(&["0xa", "0xb", "0xc"]),
    };
    let d = snapshot(
        vec![monitor(0, true, 1)],
        vec![ws(1, Some(0)), ws(8, Some(0))],
        vec![client("0xa", 8), client("0xc", 8)],
    );
    let b = workspace_pop(&d, &rec, None);
    assert_eq!(b.target, 1);
    assert_eq!(b.addresses, strings(&["0xa", "0xc"]));
}

#[test]
fn stash_then_close_then_pop_moves_the_rest() {
    let before = snapshot(
        vec![monitor(0, true, 3)],
        vec![ws(3, Some(0)), ws(8, Some(0))],
        vec![client("0xa", 3), client("0xb", 3), client("0xc", 3), client("0xd", 4)],
    );
    let rec = workspace_stash(&before, 3, 8);
    assert_eq!(rec.client_addresses, strings(&["0xa", "0xb", "0xc"]));
    // The windows went to 8, then b was closed.
    let after = snapshot(
        vec![monitor(0, true, 3)],
        vec![ws(3, Some(0)), ws(8, Some(0))],
        vec![client("0xa", 8), client("0xc", 8), client("0xd", 4)],
    );
    let b = workspace_pop(&after, &rec, None);
    assert_eq!(b.target, 3);
    assert_eq!(b.addresses, strings(&["0xa", "0xc"]));
}

#[test]
fn workspace_pop_skips_moved_window_and_honours_target() {
    let rec = StashedWorkspace {
        stash_location: 8,
        original_workspace: 1,
        client_addresses: strings(&["0xa", "0xb", "0xc"]),
    };
    let d = snapshot(
        vec![monitor(0, true, 1)],
        vec![ws(1, Some(0)), ws(8, Some(0))],
        vec![client("0xa", 8), client("0xb", 3), client("0xc", 8), client("0xd", 8)],
    );
    let b = workspace_pop(&d, &rec, Some(4));
    assert_eq!(b.target, 4);
    assert_eq!(b.addresses, strings(&["0xa", "0xc"]));
}

#[test]
fn monitor_stash_records_layout_and_focused_origin() {
    let d = snapshot(
        vec![monitor(0, true, 1), monitor(1, false, 4)],
        vec![ws(1, Some(0)), ws(4, Some(1)), ws(2, Some(0)), ws(5, Some(1))],
        vec![client("0xa", 4), client("0xb", 1), client("0xc", 5), client("0xd", 4)],
    );
    let m = monitor_stash(&d, 1, 8).unwrap();
    assert_eq!(m.layout, vec![4, 5]);
    assert_eq!(m.workspaces.len(), 2);
    assert_eq!(m.workspaces[0].original_workspace, 4);
    assert_eq!(m.workspaces[0].client_addresses, strings(&["0xa", "0xd"]));
    assert_eq!(m.workspaces[1].client_addresses, strings(&["0xc"]));
    assert_eq!(m.workspaces[1].stash_location, 8);
    // The record names the focused monitor, not the stashed one.
    assert_eq!(m.original_monitor, 0);
    assert!(m.is_consistent());
}

#[test]
fn monitor_stash_unknown_monitor() {
    let d = snapshot(vec![monitor(0, true, 1)], vec![ws(1, Some(0))], vec![]);
    let r = monitor_stash(&d, 7, 8);
    assert!(matches!(r, Err(StashError::MonitorNotFound(7))));
}

fn stashed_monitor(layout: &[i32], original_monitor: i128) -> StashedMonitor {
    StashedMonitor {
        workspaces: layout
            .iter()
            .map(|&id| StashedWorkspace {
                stash_location: 8,
                original_workspace: id,
                client_addresses: vec![format!("0x{}", id)],
            })
            .collect(),
        layout: layout.to_vec(),
        original_monitor,
    }
}

#[test]
fn layout_remaps_by_position_with_fresh_ids() {
    // Layout [10, 11, 12] onto a monitor that now holds [20, 21].
    let d = snapshot(
        vec![monitor(0, true, 20), monitor(1, false, 3)],
        vec![ws(20, Some(0)), ws(3, Some(1)), ws(21, Some(0)), ws(8, Some(1))],
        vec![],
    );
    let m = layout_mapping(&d, &vec![10, 11, 12], 0).unwrap();
    assert_eq!(m, vec![(10, 20), (11, 21), (12, 22)]);
    assert_eq!(max_workspace_id(&d.workspaces), 21);
    assert_eq!(workspaces_of(&d.workspaces, 0), vec![20, 21]);
}

#[test]
fn monitor_pop_absolute_moves_to_remapped_workspaces() {
    let rec = stashed_monitor(&[10, 11, 12], 5);
    let d = snapshot(
        vec![monitor(0, true, 20), monitor(1, false, 8)],
        vec![ws(20, Some(0)), ws(21, Some(0)), ws(8, Some(1))],
        vec![client("0x10", 8), client("0x11", 8), client("0x12", 8)],
    );
    let plan = monitor_pop_absolute(&d, &rec, Some(0)).unwrap();
    let targets: Vec<i32> = plan.iter().map(|b| b.target).collect();
    assert_eq!(targets, vec![20, 21, 22]);
    assert!(targets[2] > 21);
    assert_eq!(plan[2].addresses, strings(&["0x12"]));
}

#[test]
fn monitor_pop_absolute_onto_empty_monitor_uses_fresh_ids() {
    let rec = stashed_monitor(&[1, 2], 0);
    let d = snapshot(vec![monitor(0, true, 1)], vec![ws(8, Some(3))], vec![]);
    let plan = monitor_pop_absolute(&d, &rec, None).unwrap();
    let targets: Vec<i32> = plan.iter().map(|b| b.target).collect();
    assert_eq!(targets, vec![9, 10]);
}

#[test]
fn monitor_pop_absolute_out_of_ids() {
    let rec = stashed_monitor(&[1, 2], 0);
    let d = snapshot(vec![monitor(0, true, 1)], vec![ws(i32::MAX - 1, Some(3))], vec![]);
    let r = monitor_pop_absolute(&d, &rec, None);
    assert!(matches!(r, Err(StashError::WorkspaceIdsExhausted)));
    let one = stashed_monitor(&[1], 0);
    let plan = monitor_pop_absolute(&d, &one, None).unwrap();
    assert_eq!(plan[0].target, i32::MAX);
}

#[test]
fn monitor_pop_relative_keeps_ids() {
    let rec = stashed_monitor(&[10, 11, 12], 5);
    let d = snapshot(
        vec![monitor(0, true, 20)],
        vec![ws(20, Some(0))],
        vec![client("0x10", 8), client("0x12", 8)],
    );
    let plan = monitor_pop_relative(&d, &rec);
    let targets: Vec<i32> = plan.iter().map(|b| b.target).collect();
    assert_eq!(targets, vec![10, 11, 12]);
    assert!(plan[1].addresses.is_empty());
}

#[test]
fn inconsistent_monitor_record_is_detected() {
    let mut rec = stashed_monitor(&[10, 11], 0);
    assert!(rec.is_consistent());
    rec.layout = vec![11, 10];
    assert!(!rec.is_consistent());
    rec.layout = vec![10];
    assert!(!rec.is_consistent());
}

#[test]
fn everything_stash_covers_each_monitor() {
    let d = snapshot(
        vec![monitor(0, true, 1), monitor(1, false, 2)],
        vec![ws(1, Some(0)), ws(2, Some(1))],
        vec![client("0xa", 1), client("0xb", 2)],
    );
    let s = everything_stash(&d, 8);
    assert_eq!(s.stash_location, 8);
    assert_eq!(s.monitors.len(), 2);
    assert_eq!(s.monitors[0].layout, vec![1]);
    assert_eq!(s.monitors[1].layout, vec![2]);
    assert_eq!(s.monitors[1].workspaces[0].client_addresses, strings(&["0xb"]));
}

fn session() -> StashedFullSession {
    StashedFullSession {
        stash_location: 8,
        monitors: vec![stashed_monitor(&[1, 2], 0), stashed_monitor(&[3], 9)],
    }
}

fn session_snapshot() -> Data {
    snapshot(
        vec![monitor(0, true, 4)],
        vec![ws(4, Some(0)), ws(5, Some(0)), ws(8, Some(0))],
        vec![client("0x1", 8), client("0x2", 8), client("0x3", 8)],
    )
}

#[test]
fn session_pop_refuses_missing_monitor() {
    let r = everything_pop(&session_snapshot(), &session(), true, false);
    assert!(matches!(r, Err(StashError::MonitorNotFound(9))));
}

#[test]
fn session_pop_mixes_absolute_and_relative() {
    let plans = everything_pop(&session_snapshot(), &session(), false, false).unwrap();
    assert_eq!(plans.len(), 2);
    let first: Vec<i32> = plans[0].iter().map(|b| b.target).collect();
    let second: Vec<i32> = plans[1].iter().map(|b| b.target).collect();
    // Monitor 0 still exists: remapped onto its workspaces 4 and 5.
    assert_eq!(first, vec![4, 5]);
    // Monitor 9 is gone: its workspace keeps its id.
    assert_eq!(second, vec![3]);
    assert_eq!(plans[1][0].addresses, strings(&["0x3"]));
}

#[test]
fn session_pop_relative_everywhere() {
    let plans = everything_pop(&session_snapshot(), &session(), false, true).unwrap();
    let first: Vec<i32> = plans[0].iter().map(|b| b.target).collect();
    assert_eq!(first, vec![1, 2]);
    let all_present = StashedFullSession {
        stash_location: 8,
        monitors: vec![stashed_monitor(&[1, 2], 0)],
    };
    let plans = everything_pop(&session_snapshot(), &all_present, true, false).unwrap();
    let first: Vec<i32> = plans[0].iter().map(|b| b.target).collect();
    assert_eq!(first, vec![4, 5]);
}

#[test]
fn stash_path_accepts_alphanumeric_names() {
    assert_eq!(StashedInstance::stash_path("work1").unwrap(), "/tmp/hyprstash//work1");
    assert_eq!(StashedInstance::stash_path("Zé9").unwrap(), "/tmp/hyprstash//Zé9");
}

#[test]
fn stash_path_of_plain_name() {
    assert_eq!(StashedInstance::stash_path("abc123").unwrap(), "/tmp/hyprstash//abc123");
}

#[test]
fn stash_path_refuses_bad_names() {
    for name in ["", "../etc", "a/b", "a.b", "a b", "name-1", "x_y"] {
        assert!(matches!(StashedInstance::stash_path(name), Err(StashError::BadName)), "{}", name);
    }
}

#[test]
fn instance_kind_must_match_pop() {
    let w = StashedInstance::Workspace(StashedWorkspace {
        stash_location: 8,
        original_workspace: 1,
        client_addresses: vec![],
    });
    assert!(w.clone().into_workspace().is_ok());
    assert!(matches!(w.clone().into_monitor(), Err(StashError::MismatchedPopType)));
    assert!(matches!(w.into_session(), Err(StashError::MismatchedPopType)));
    let m = StashedInstance::Monitor(stashed_monitor(&[1], 0));
    assert!(m.is_consistent());
    assert!(m.into_monitor().is_ok());
    let s = StashedInstance::Everything(session());
    assert!(matches!(s.into_workspace(), Err(StashError::MismatchedPopType)));
}

#[test]
fn dispatch_errors_aggregate() {
    let mut e = DispatchError::new();
    assert!(e.clone().into_optional().is_none());
    assert!(e.clone().into_result().is_ok());
    e.append(DispatchError(strings(&["first"])));
    e.append(DispatchError(strings(&["second", "third"])));
    assert_eq!(e.0, strings(&["first", "second", "third"]));
    assert!(e.clone().into_optional().is_some());
    assert!(matches!(e.into_result(), Err(StashError::Dispatch(_))));
}
