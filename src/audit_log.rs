use vstd::prelude::*;

use crate::model::Id;

verus! {

/// The query of a guild's audit log; unset parameters are left out.
#[derive(Clone, Copy, Debug)]
pub struct AuditLogParams {
    /// Only entries made by this user.
    pub user_id: Option<Id>,
    /// Only entries of this action, by its code.
    pub action_type: Option<u8>,
    /// Only entries before this one.
    pub before: Option<Id>,
    /// How many entries at most.
    pub limit: Option<u8>,
}

} // verus!
