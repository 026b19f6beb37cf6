//! What to do when linking a file into place.

use vstd::prelude::*;

use crate::paths::{paths_equal, same_path};

verus! {

/// What linking a file into place should do.
#[derive(Debug, Clone, Copy, PartialEq, Eq, Structural)]
pub enum SymlinkAction {
    /// Nothing is there yet: create the link.
    Create,
    /// A link to the right file is already there: nothing to do.
    AlreadyLinked,
    /// Something else is there: report a conflict.
    Conflict,
}

/// Decides what linking `target -> source` should do, given whether something is
/// already at the target and both paths with links resolved.
pub fn symlink_action(target_present: bool, resolved_target: &str, resolved_source: &str) -> (a: SymlinkAction)
    ensures
        !target_present ==> a == SymlinkAction::Create,
        target_present && same_path(resolved_target@, resolved_source@) ==> a
            == SymlinkAction::AlreadyLinked,
        target_present && !same_path(resolved_target@, resolved_source@) ==> a
            == SymlinkAction::Conflict,
{
    if !target_present {
        SymlinkAction::Create
    } else if paths_equal(resolved_target, resolved_source) {
        SymlinkAction::AlreadyLinked
    } else {
        SymlinkAction::Conflict
    }
}

} // verus!
