use vstd::prelude::*;

use crate::MonitorId;

verus! {

/// Failures of single window moves, collected over a batch.
#[derive(Debug, Clone)]
pub struct DispatchError(pub Vec<String>);

impl DispatchError {
    pub fn new() -> (r: DispatchError)
        ensures
            r.0@ == Seq::<String>::empty(),
    {
        DispatchError(Vec::new())
    }

    /// Moves the failures of `errors` to the end of this one.
    pub fn append(&mut self, errors: DispatchError)
        ensures
            final(self).0@ == old(self).0@ + errors.0@,
    {
        let mut errors = errors;
        self.0.append(&mut errors.0);
    }

    /// `None` when no move failed, else the failures.
    pub fn into_optional(self) -> (r: Option<DispatchError>)
        ensures
            self.0@.len() == 0 ==> r is None,
            self.0@.len() > 0 ==> r == Some(self),
    {
        if self.0.len() == 0 {
            None
        } else {
            Some(self)
        }
    }

    /// The outcome of a restoring batch: any failed move fails it.
    pub fn into_result(self) -> (r: Result<(), StashError>)
        ensures
            self.0@.len() == 0 ==> r is Ok,
            self.0@.len() > 0 ==> r == Err::<(), StashError>(StashError::Dispatch(self)),
    {
        if self.0.len() == 0 {
            Ok(())
        } else {
            Err(StashError::Dispatch(self))
        }
    }
}

/// The ways in which stashing or popping fails.
#[derive(Debug, Clone)]
pub enum StashError {
    /// A stash name holds a character that is not alphanumeric, or is empty.
    BadName,
    /// The stored record is of another kind than the pop asked for.
    MismatchedPopType,
    /// No monitor reports itself focused.
    NoActiveMonitorWorkspace,
    /// The monitor is not in the current snapshot.
    MonitorNotFound(MonitorId),
    /// Window moves failed.
    Dispatch(DispatchError),
    /// No fresh workspace id is left for a remapped workspace.
    WorkspaceIdsExhausted,
}

} // verus!
