use vstd::prelude::*;
use vstd::string::StringExecFns;

use crate::data::Monitor;
use crate::{MonitorId, WorkspaceId};

verus! {

/// The command that fills a workspace when its entry names none.
pub const DEFAULT_COMMAND: &'static str = "sinkgui";

/// The launcher's configuration: which workspaces to fill, on which
/// monitors, with which commands.
#[derive(Debug, Clone)]
pub struct Config {
    pub defaultcommand: Option<Vec<String>>,
    pub workspaces: Vec<WorkspaceConfig>,
}

/// One workspace to fill; its monitor is named by description, by name or
/// by id, the first of these that is given.
#[derive(Debug, Clone)]
pub struct WorkspaceConfig {
    pub id: usize,
    pub monitorbyid: Option<usize>,
    pub monitorbyname: Option<String>,
    pub monitorbydesc: Option<String>,
    pub commands: Option<Vec<String>>,
}

/// The ways in which a fill is refused.
#[derive(Debug, Clone)]
pub enum FillError {
    /// The home directory is unknown.
    NoHomeDir,
    /// An entry names no monitor.
    MissingMonitor,
    /// Two entries fill the same workspace.
    DuplicateWorkspaces,
    /// The monitors that could not be found, listed.
    FollowingNotFound(String),
    /// A command list is empty.
    EmptyCommand,
}

/// A workspace resolved onto a monitor of the current session.
#[derive(Debug, Clone)]
pub struct WorkspaceFill {
    pub id: WorkspaceId,
    pub monitor: MonitorId,
    pub command: Option<Vec<String>>,
}

/// The character of the decimal digit `d`.
pub open spec fn digit_char(d: nat) -> char {
    if d == 0 {
        '0'
    } else if d == 1 {
        '1'
    } else if d == 2 {
        '2'
    } else if d == 3 {
        '3'
    } else if d == 4 {
        '4'
    } else if d == 5 {
        '5'
    } else if d == 6 {
        '6'
    } else if d == 7 {
        '7'
    } else if d == 8 {
        '8'
    } else {
        '9'
    }
}

/// The decimal digits of `n`, most significant first, without leading zeros.
pub open spec fn decimal(n: nat) -> Seq<char>
    decreases n,
{
    if n < 10 {
        seq![digit_char(n)]
    } else {
        decimal(n / 10) + seq![digit_char(n % 10)]
    }
}

/// The text of the decimal digit `d`.
fn digit_text(d: usize) -> (r: &'static str)
    requires
        d < 10,
    ensures
        r@ == seq![digit_char(d as nat)],
{
    proof {
        reveal_strlit("0");
        reveal_strlit("1");
        reveal_strlit("2");
        reveal_strlit("3");
        reveal_strlit("4");
        reveal_strlit("5");
        reveal_strlit("6");
        reveal_strlit("7");
        reveal_strlit("8");
        reveal_strlit("9");
    }
    if d == 0 {
        "0"
    } else if d == 1 {
        "1"
    } else if d == 2 {
        "2"
    } else if d == 3 {
        "3"
    } else if d == 4 {
        "4"
    } else if d == 5 {
        "5"
    } else if d == 6 {
        "6"
    } else if d == 7 {
        "7"
    } else if d == 8 {
        "8"
    } else {
        "9"
    }
}

/// The decimal digits of `n`.
pub fn decimal_text(n: usize) -> (r: String)
    ensures
        r@ == decimal(n as nat),
{
    let mut m: usize = n;
    let mut acc = String::new();
    while m >= 10
        invariant
            decimal(n as nat) == decimal(m as nat) + acc@,
        decreases m,
    {
        let d = m % 10;
        let ghost old_acc = acc@;
        acc = String::from_str(digit_text(d)).concat(acc.as_str());
        proof {
            assert(decimal(m as nat) == decimal((m / 10) as nat) + seq![digit_char(d as nat)]);
            assert(decimal(m as nat) + old_acc =~= decimal((m / 10) as nat) + acc@);
        }
        m = m / 10;
    }
    let r = String::from_str(digit_text(m)).concat(acc.as_str());
    assert(r@ =~= decimal(n as nat));
    r
}

/// Two command lists read the same.
pub open spec fn same_command(a: Option<Vec<String>>, b: Option<Vec<String>>) -> bool {
    match (a, b) {
        (None, None) => true,
        (Some(x), Some(y)) => x@.len() == y@.len() && forall|i: int|
            0 <= i < x@.len() ==> (#[trigger] x@[i])@ == y@[i]@,
        _ => false,
    }
}

/// `c` is present and empty.
pub open spec fn is_empty_command(c: Option<Vec<String>>) -> bool {
    c is Some && c->Some_0@.len() == 0
}

/// Some entry of `ws` has an empty command list.
pub open spec fn has_empty_command(ws: Seq<WorkspaceConfig>) -> bool {
    exists|i: int| 0 <= i < ws.len() && is_empty_command((#[trigger] ws[i]).commands)
}

/// `w` names no monitor.
pub open spec fn lacks_monitor(w: WorkspaceConfig) -> bool {
    w.monitorbydesc is None && w.monitorbyname is None && w.monitorbyid is None
}

/// Some entry of `ws` names no monitor.
pub open spec fn has_unnamed_monitor(ws: Seq<WorkspaceConfig>) -> bool {
    exists|i: int| 0 <= i < ws.len() && lacks_monitor(#[trigger] ws[i])
}

/// `m` is the monitor that `w` names.
pub open spec fn names_monitor(w: WorkspaceConfig, m: Monitor) -> bool {
    if w.monitorbydesc is Some {
        m.description@ == w.monitorbydesc->Some_0@
    } else if w.monitorbyname is Some {
        m.name@ == w.monitorbyname->Some_0@
    } else if w.monitorbyid is Some {
        m.id == w.monitorbyid->Some_0 as MonitorId
    } else {
        false
    }
}

/// The id of the first monitor of `ms` that `w` names.
pub open spec fn resolved_monitor(w: WorkspaceConfig, ms: Seq<Monitor>) -> Option<MonitorId>
    decreases ms.len(),
{
    if ms.len() == 0 {
        None
    } else if names_monitor(w, ms[0]) {
        Some(ms[0].id)
    } else {
        resolved_monitor(w, ms.drop_first())
    }
}

/// How an entry whose monitor is not found is reported.
pub open spec fn missing_label(w: WorkspaceConfig) -> Seq<char> {
    if w.monitorbydesc is Some {
        w.monitorbydesc->Some_0@
    } else if w.monitorbyname is Some {
        w.monitorbyname->Some_0@
    } else {
        seq!['i', 'd', ':'] + decimal(w.monitorbyid->Some_0 as nat)
    }
}

/// The labels of the entries of `ws` whose monitor is not in `ms`, in order.
pub open spec fn unresolved(ws: Seq<WorkspaceConfig>, ms: Seq<Monitor>) -> Seq<Seq<char>>
    decreases ws.len(),
{
    if ws.len() == 0 {
        Seq::empty()
    } else {
        let rest = unresolved(ws.drop_last(), ms);
        if resolved_monitor(ws.last(), ms) is None {
            rest.push(missing_label(ws.last()))
        } else {
            rest
        }
    }
}

/// The labels, latest first, each followed by a comma and a space.
pub open spec fn joined(labels: Seq<Seq<char>>) -> Seq<char>
    decreases labels.len(),
{
    if labels.len() == 0 {
        Seq::empty()
    } else {
        labels.last() + seq![',', ' '] + joined(labels.drop_last())
    }
}

/// The workspace that the entry numbered `n` fills: its id, cut to the
/// width of a workspace id.
pub open spec fn workspace_id_of(n: usize) -> WorkspaceId {
    #[verifier::truncate] (n as WorkspaceId)
}

/// Two entries of `ws` fill the same workspace.
pub open spec fn has_duplicate_ids(ws: Seq<WorkspaceConfig>) -> bool {
    exists|i: int, j: int|
        0 <= i < j < ws.len() && workspace_id_of((#[trigger] ws[i]).id) == workspace_id_of(
            (#[trigger] ws[j]).id,
        )
}

/// The first monitor of `ms` that `w` names is the one at `i`.
proof fn lemma_resolved_at(w: WorkspaceConfig, ms: Seq<Monitor>, i: int)
    requires
        0 <= i < ms.len(),
        names_monitor(w, ms[i]),
        forall|j: int| 0 <= j < i ==> !names_monitor(w, #[trigger] ms[j]),
    ensures
        resolved_monitor(w, ms) == Some(ms[i].id),
    decreases i,
{
    if i > 0 {
        assert(!names_monitor(w, ms[0]));
        assert forall|j: int| 0 <= j < i - 1 implies !names_monitor(
            w,
            #[trigger] ms.drop_first()[j],
        ) by {
            assert(ms.drop_first()[j] == ms[j + 1]);
        }
        lemma_resolved_at(w, ms.drop_first(), i - 1);
    }
}

/// No monitor of `ms` is named by `w`.
proof fn lemma_resolved_none(w: WorkspaceConfig, ms: Seq<Monitor>)
    requires
        forall|j: int| 0 <= j < ms.len() ==> !names_monitor(w, #[trigger] ms[j]),
    ensures
        resolved_monitor(w, ms) is None,
    decreases ms.len(),
{
    if ms.len() > 0 {
        assert(!names_monitor(w, ms[0]));
        assert forall|j: int| 0 <= j < ms.len() - 1 implies !names_monitor(
            w,
            #[trigger] ms.drop_first()[j],
        ) by {
            assert(ms.drop_first()[j] == ms[j + 1]);
        }
        lemma_resolved_none(w, ms.drop_first());
    }
}

/// The monitor that `w` names among `monitors`, if it is there.
fn find_monitor(w: &WorkspaceConfig, monitors: &Vec<Monitor>) -> (r: Option<MonitorId>)
    ensures
        r == resolved_monitor(*w, monitors@),
{
    let mut i: usize = 0;
    while i < monitors.len()
        invariant
            i <= monitors@.len(),
            forall|j: int| 0 <= j < i ==> !names_monitor(*w, #[trigger] monitors@[j]),
        decreases monitors@.len() - i,
    {
        let m = &monitors[i];
        let hit = match &w.monitorbydesc {
            Some(d) => m.description == *d,
            None => match &w.monitorbyname {
                Some(n) => m.name == *n,
                None => match w.monitorbyid {
                    Some(id) => m.id == id as MonitorId,
                    None => false,
                },
            },
        };
        if hit {
            proof {
                lemma_resolved_at(*w, monitors@, i as int);
            }
            return Some(m.id);
        }
        i = i + 1;
    }
    proof {
        lemma_resolved_none(*w, monitors@);
    }
    None
}

/// A copy of the command list `c`.
fn copy_command(c: &Option<Vec<String>>) -> (r: Option<Vec<String>>)
    ensures
        same_command(r, *c),
{
    match c {
        None => None,
        Some(v) => {
            let mut out: Vec<String> = Vec::new();
            let mut i: usize = 0;
            while i < v.len()
                invariant
                    i <= v@.len(),
                    out@.len() == i,
                    forall|j: int| 0 <= j < i ==> (#[trigger] out@[j])@ == v@[j]@,
                decreases v@.len() - i,
            {
                out.push(v[i].clone());
                i = i + 1;
            }
            Some(out)
        },
    }
}

/// The text that reports `w` when its monitor is not found.
fn label_of(w: &WorkspaceConfig) -> (r: String)
    requires
        !lacks_monitor(*w),
    ensures
        r@ == missing_label(*w),
{
    match &w.monitorbydesc {
        Some(d) => d.clone(),
        None => match &w.monitorbyname {
            Some(n) => n.clone(),
            None => {
                let id = match w.monitorbyid {
                    Some(id) => id,
                    None => 0,
                };
                let digits = decimal_text(id);
                let r = String::from_str("id:").concat(digits.as_str());
                proof {
                    reveal_strlit("id:");
                    assert(r@ =~= missing_label(*w));
                }
                r
            },
        },
    }
}

/// Resolves each entry of `config` onto a monitor of `monitors`.
///
/// An empty command list anywhere refuses the fill first, then an entry
/// that names no monitor; then every entry whose monitor is not found is
/// reported at once; then two entries for one workspace.
pub fn validate_fill(config: &Config, monitors: &Vec<Monitor>) -> (r: Result<
    Vec<WorkspaceFill>,
    FillError,
>)
    ensures
        ({
            let ws = config.workspaces@;
            let ms = monitors@;
            &&& has_empty_command(ws) ==> r == Err::<Vec<WorkspaceFill>, FillError>(
                FillError::EmptyCommand,
            )
            &&& !has_empty_command(ws) && has_unnamed_monitor(ws) ==> r == Err::<
                Vec<WorkspaceFill>,
                FillError,
            >(FillError::MissingMonitor)
            &&& !has_empty_command(ws) && !has_unnamed_monitor(ws) && unresolved(ws, ms).len() > 0
                ==> r is Err && r->Err_0 is FollowingNotFound && r->Err_0->FollowingNotFound_0@
                == joined(unresolved(ws, ms))
            &&& !has_empty_command(ws) && !has_unnamed_monitor(ws) && unresolved(ws, ms).len() == 0
                && has_duplicate_ids(ws) ==> r == Err::<Vec<WorkspaceFill>, FillError>(
                FillError::DuplicateWorkspaces,
            )
            &&& !has_empty_command(ws) && !has_unnamed_monitor(ws) && unresolved(ws, ms).len() == 0
                && !has_duplicate_ids(ws) ==> r is Ok
            &&& r is Ok ==> r->Ok_0@.len() == ws.len() && forall|i: int|
                0 <= i < ws.len() ==> (#[trigger] r->Ok_0@[i]).id == workspace_id_of(ws[i].id)
                    && resolved_monitor(ws[i], ms) == Some(r->Ok_0@[i].monitor) && same_command(
                    r->Ok_0@[i].command,
                    ws[i].commands,
                )
        }),
{
    let ws = &config.workspaces;
    let mut i: usize = 0;
    while i < ws.len()
        invariant
            ws@ == config.workspaces@,
            i <= ws@.len(),
            forall|j: int| 0 <= j < i ==> !is_empty_command((#[trigger] ws@[j]).commands),
        decreases ws@.len() - i,
    {
        if let Some(c) = &ws[i].commands {
            if c.len() == 0 {
                assert(is_empty_command(ws@[i as int].commands));
                assert(has_empty_command(config.workspaces@));
                return Err(FillError::EmptyCommand);
            }
        }
        i = i + 1;
    }
    let mut fills: Vec<WorkspaceFill> = Vec::new();
    let mut notfound = String::new();
    let mut missing = false;
    let mut i: usize = 0;
    while i < ws.len()
        invariant
            ws@ == config.workspaces@,
            i <= ws@.len(),
            !has_empty_command(ws@),
            forall|j: int| 0 <= j < i ==> !lacks_monitor(#[trigger] ws@[j]),
            missing == (unresolved(ws@.subrange(0, i as int), monitors@).len() > 0),
            notfound@ == joined(unresolved(ws@.subrange(0, i as int), monitors@)),
            !missing ==> fills@.len() == i,
            !missing ==> forall|j: int|
                0 <= j < i ==> (#[trigger] fills@[j]).id == workspace_id_of(ws@[j].id)
                    && resolved_monitor(ws@[j], monitors@) == Some(fills@[j].monitor)
                    && same_command(fills@[j].command, ws@[j].commands),
        decreases ws@.len() - i,
    {
        let w = &ws[i];
        assert(ws@.subrange(0, i + 1).drop_last() =~= ws@.subrange(0, i as int));
        if w.monitorbydesc.is_none() && w.monitorbyname.is_none() && w.monitorbyid.is_none() {
            assert(lacks_monitor(ws@[i as int]));
            assert(has_unnamed_monitor(config.workspaces@));
            return Err(FillError::MissingMonitor);
        }
        match find_monitor(w, monitors) {
            Some(m) => {
                let command = copy_command(&w.commands);
                let id: WorkspaceId = #[verifier::truncate] (w.id as WorkspaceId);
                fills.push(WorkspaceFill { id, monitor: m, command });
            },
            None => {
                let label = label_of(w);
                let ghost before = unresolved(ws@.subrange(0, i as int), monitors@);
                proof {
                    reveal_strlit(", ");
                    assert(", "@ =~= seq![',', ' ']);
                    assert(unresolved(ws@.subrange(0, i + 1), monitors@) == before.push(label@));
                    assert(before.push(label@).drop_last() =~= before);
                }
                notfound = label.concat(", ").concat(notfound.as_str());
                missing = true;
            },
        }
        i = i + 1;
    }
    assert(ws@.subrange(0, i as int) =~= ws@);
    assert(!has_unnamed_monitor(ws@));
    if missing {
        return Err(FillError::FollowingNotFound(notfound));
    }
    let mut i: usize = 0;
    while i < fills.len()
        invariant
            ws@ == config.workspaces@,
            i <= fills@.len(),
            fills@.len() == ws@.len(),
            !has_empty_command(ws@),
            !has_unnamed_monitor(ws@),
            unresolved(ws@, monitors@).len() == 0,
            forall|j: int|
                0 <= j < fills@.len() ==> (#[trigger] fills@[j]).id == workspace_id_of(ws@[j].id)
                    && resolved_monitor(ws@[j], monitors@) == Some(fills@[j].monitor)
                    && same_command(fills@[j].command, ws@[j].commands),
            forall|a: int, b: int|
                0 <= a < b < i ==> workspace_id_of((#[trigger] ws@[a]).id) != workspace_id_of((#[trigger] ws@[b]).id),
        decreases fills@.len() - i,
    {
        let mut j: usize = 0;
        while j < i
            invariant
                ws@ == config.workspaces@,
                j <= i < fills@.len(),
                fills@.len() == ws@.len(),
                !has_empty_command(ws@),
                !has_unnamed_monitor(ws@),
                unresolved(ws@, monitors@).len() == 0,
                forall|k: int|
                    0 <= k < fills@.len() ==> (#[trigger] fills@[k]).id == workspace_id_of(ws@[k].id),
                forall|a: int| 0 <= a < j ==> workspace_id_of((#[trigger] ws@[a]).id) != workspace_id_of(ws@[i as int].id),
            decreases i - j,
        {
            if fills[j].id == fills[i].id {
                assert(workspace_id_of(ws@[j as int].id) == workspace_id_of(ws@[i as int].id));
                assert(has_duplicate_ids(ws@));
                return Err(FillError::DuplicateWorkspaces);
            }
            j = j + 1;
        }
        i = i + 1;
    }
    Ok(fills)
}

impl Config {
    /// A default command list, when given, must not be empty.
    pub fn check_default_command(&self) -> (r: Result<(), FillError>)
        ensures
            is_empty_command(self.defaultcommand) <==> r is Err,
            r is Err ==> r == Err::<(), FillError>(FillError::EmptyCommand),
    {
        match &self.defaultcommand {
            Some(c) => if c.len() == 0 {
                Err(FillError::EmptyCommand)
            } else {
                Ok(())
            },
            None => Ok(()),
        }
    }

    /// The command that fills `w`: its own, else the configured default,
    /// else the built-in default.
    pub fn command_for(&self, w: &WorkspaceFill) -> (r: Vec<String>)
        ensures
            w.command is Some ==> same_command(Some(r), w.command),
            w.command is None && self.defaultcommand is Some ==> same_command(
                Some(r),
                self.defaultcommand,
            ),
            w.command is None && self.defaultcommand is None ==> r@.len() == 1 && r@[0]@
                == DEFAULT_COMMAND@,
    {
        match copy_command(&w.command) {
            Some(c) => c,
            None => match copy_command(&self.defaultcommand) {
                Some(c) => c,
                None => vec![String::from_str(DEFAULT_COMMAND)],
            },
        }
    }
}

} // verus!
