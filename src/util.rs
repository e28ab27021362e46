use vstd::prelude::*;

use crate::WorkspaceId;

verus! {

/// The windows at `addresses` are to be moved, silently, to `target`.
#[derive(Debug, Clone)]
pub struct MoveBatch {
    pub target: WorkspaceId,
    pub addresses: Vec<String>,
}

} // verus!
