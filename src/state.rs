use vstd::prelude::*;
use vstd::string::{StrSliceExecFns, StringExecFns};

use crate::error::StashError;
use crate::everything::StashedFullSession;
use crate::monitor::StashedMonitor;
use crate::workspace::StashedWorkspace;

verus! {

/// The directory that holds one file per named stash.
pub const STASH_PATH: &'static str = "/tmp/hyprstash/";

/// What `char::is_alphanumeric` answers for `c`.
pub uninterp spec fn alphanumeric(c: char) -> bool;

/// `c` is an ASCII letter or digit.
pub open spec fn ascii_alphanumeric(c: char) -> bool {
    ('a' <= c && c <= 'z') || ('A' <= c && c <= 'Z') || ('0' <= c && c <= '9')
}

/// Relies on `char::is_alphanumeric`: whether `c` is alphabetic or numeric
/// in Unicode's sense, which among ASCII characters holds of exactly the
/// letters and digits.
#[verifier::external_body]
fn is_alphanumeric(c: char) -> (r: bool)
    ensures
        r == alphanumeric(c),
        (c as u32) < 128 ==> (r <==> ascii_alphanumeric(c)),
{
    c.is_alphanumeric()
}

/// A stash name: not empty, and alphanumeric throughout.
pub open spec fn valid_name(name: Seq<char>) -> bool {
    name.len() > 0 && forall|i: int| 0 <= i < name.len() ==> alphanumeric(#[trigger] name[i])
}

/// The file that holds the stash named `name`.
pub open spec fn stash_file(name: Seq<char>) -> Seq<char> {
    STASH_PATH@ + seq!['/'] + name
}

/// Every character of `name` is an ASCII letter or digit.
pub open spec fn ascii_name(name: Seq<char>) -> bool {
    forall|i: int| 0 <= i < name.len() ==> ascii_alphanumeric(#[trigger] name[i])
}

/// Whether `name` is a valid stash name.
pub fn is_valid_name(name: &str) -> (r: bool)
    ensures
        r == valid_name(name@),
        r ==> forall|i: int|
            0 <= i < name@.len() && (name@[i] as u32) < 128 ==> ascii_alphanumeric(
                #[trigger] name@[i],
            ),
        name@.len() > 0 && ascii_name(name@) ==> r,
{
    let n = name.unicode_len();
    if n == 0 {
        return false;
    }
    let mut i: usize = 0;
    while i < n
        invariant
            n == name@.len(),
            i <= n,
            forall|j: int| 0 <= j < i ==> alphanumeric(#[trigger] name@[j]),
            forall|j: int|
                0 <= j < i && (name@[j] as u32) < 128 ==> ascii_alphanumeric(#[trigger] name@[j]),
        decreases n - i,
    {
        let c = name.get_char(i);
        if !is_alphanumeric(c) {
            proof {
                if ascii_name(name@) {
                    assert(ascii_alphanumeric(name@[i as int]));
                    assert((c as u32) < 128);
                }
            }
            return false;
        }
        i = i + 1;
    }
    true
}

/// Two valid names never share a stash file, so a stash written under a
/// name is the one read back under it.
pub proof fn lemma_stash_files_distinct(a: Seq<char>, b: Seq<char>)
    requires
        valid_name(a),
        valid_name(b),
        a != b,
    ensures
        stash_file(a) != stash_file(b),
{
    let p = STASH_PATH@ + seq!['/'];
    if stash_file(a) == stash_file(b) {
        assert(stash_file(a).subrange(p.len() as int, stash_file(a).len() as int) =~= a);
        assert(stash_file(b).subrange(p.len() as int, stash_file(b).len() as int) =~= b);
    }
}

/// A name that `stash_path` accepts holds no '/' and no '.', so its file lies
/// directly in the stash directory.
pub proof fn lemma_accepted_name_stays_in_dir(name: Seq<char>)
    requires
        forall|i: int|
            0 <= i < name.len() && (name[i] as u32) < 128 ==> ascii_alphanumeric(#[trigger] name[i]),
    ensures
        forall|i: int| 0 <= i < name.len() ==> #[trigger] name[i] != '/' && name[i] != '.',
{
    assert forall|i: int| 0 <= i < name.len() implies #[trigger] name[i] != '/' && name[i] != '.' by {
        if name[i] == '/' || name[i] == '.' {
            assert((name[i] as u32) < 128);
            assert(!ascii_alphanumeric(name[i]));
        }
    }
}

/// A persisted stash: the unit that is stored under a name.
#[derive(Debug, Clone)]
pub enum StashedInstance {
    Workspace(StashedWorkspace),
    Monitor(StashedMonitor),
    Everything(StashedFullSession),
}

impl StashedInstance {
    /// The record's parts correspond as a stash leaves them.
    pub open spec fn wf(self) -> bool {
        match self {
            StashedInstance::Workspace(_) => true,
            StashedInstance::Monitor(m) => m.wf(),
            StashedInstance::Everything(s) => s.wf(),
        }
    }

    /// Whether the record's parts correspond as a stash leaves them.
    pub fn is_consistent(&self) -> (r: bool)
        ensures
            r == self.wf(),
    {
        match self {
            StashedInstance::Workspace(_) => true,
            StashedInstance::Monitor(m) => m.is_consistent(),
            StashedInstance::Everything(s) => s.is_consistent(),
        }
    }

    /// The path of the file for the stash named `name`; names that are
    /// empty or hold a character that is not alphanumeric are refused.
    pub fn stash_path(name: &str) -> (r: Result<String, StashError>)
        ensures
            valid_name(name@) <==> r is Ok,
            name@.len() > 0 && ascii_name(name@) ==> r is Ok,
            r is Ok ==> forall|i: int|
                0 <= i < name@.len() && (name@[i] as u32) < 128 ==> ascii_alphanumeric(
                    #[trigger] name@[i],
                ),
            r is Ok ==> r->Ok_0@ == stash_file(name@),
            r is Err ==> r == Err::<String, StashError>(StashError::BadName),
    {
        if is_valid_name(name) {
            let path = String::from_str(STASH_PATH).concat("/").concat(name);
            proof {
                reveal_strlit("/");
                assert(path@ =~= stash_file(name@));
            }
            Ok(path)
        } else {
            Err(StashError::BadName)
        }
    }

    /// The stashed workspace, when this is one.
    pub fn into_workspace(self) -> (r: Result<StashedWorkspace, StashError>)
        ensures
            self is Workspace ==> r == Ok::<StashedWorkspace, StashError>(self->Workspace_0),
            !(self is Workspace) ==> r == Err::<StashedWorkspace, StashError>(
                StashError::MismatchedPopType,
            ),
    {
        match self {
            StashedInstance::Workspace(w) => Ok(w),
            _ => Err(StashError::MismatchedPopType),
        }
    }

    /// The stashed monitor, when this is one.
    pub fn into_monitor(self) -> (r: Result<StashedMonitor, StashError>)
        ensures
            self is Monitor ==> r == Ok::<StashedMonitor, StashError>(self->Monitor_0),
            !(self is Monitor) ==> r == Err::<StashedMonitor, StashError>(
                StashError::MismatchedPopType,
            ),
    {
        match self {
            StashedInstance::Monitor(m) => Ok(m),
            _ => Err(StashError::MismatchedPopType),
        }
    }

    /// The stashed session, when this is one.
    pub fn into_session(self) -> (r: Result<StashedFullSession, StashError>)
        ensures
            self is Everything ==> r == Ok::<StashedFullSession, StashError>(self->Everything_0),
            !(self is Everything) ==> r == Err::<StashedFullSession, StashError>(
                StashError::MismatchedPopType,
            ),
    {
        match self {
            StashedInstance::Everything(s) => Ok(s),
            _ => Err(StashError::MismatchedPopType),
        }
    }
}

} // verus!
