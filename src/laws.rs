use vstd::prelude::*;

use crate::state::VFTManagerState;
use crate::types::ActorId;

verus! {

/// Adding an admin grants rights and takes none away: when `a` is an admin
/// of `before` and `after` is `before` with `b` appended to the admin set
/// (what `add_admin` does for an admin caller), both `a` and `b` are
/// admins of `after`.
pub proof fn admin_addition_keeps_rights(before: VFTManagerState, after: VFTManagerState, a: ActorId, b: ActorId)
    requires
        before.spec_is_admin(a),
        after.admins@ == before.admins@.push(b),
    ensures
        after.spec_is_admin(a),
        after.spec_is_admin(b),
{
    let i = choose|i: int| 0 <= i < before.admins@.len() && before.admins@[i] == a;
    assert(after.admins@[i] == a);
    assert(after.admins@[before.admins@.len() as int] == b);
}

} // verus!
