//! Active Player Resolver: which roster index an invocation targets, given
//! the persisted stable identifier.
use vstd::prelude::*;
use crate::player::PlayerInfo;
use crate::text::str_eq;

verus! {

/// Whether some player in the roster carries this stable identifier.
pub open spec fn has_id(players: Seq<PlayerInfo>, id: Seq<char>) -> bool {
    exists|i: int| 0 <= i < players.len() && players[i].stable_id@ == id
}

/// Index of the first player whose stable identifier equals the persisted
/// one; 0 when none matches or the roster is empty.
pub fn resolve_active(players: &Vec<PlayerInfo>, persisted_id: &str) -> (idx: usize)
    ensures
        has_id(players@, persisted_id@) ==> idx < players@.len()
            && players@[idx as int].stable_id@ == persisted_id@
            && (forall|j: int| 0 <= j < idx ==> players@[j].stable_id@ != persisted_id@),
        !has_id(players@, persisted_id@) ==> idx == 0,
{
    let n = players.len();
    let mut i: usize = 0;
    while i < n
        invariant
            n == players@.len(),
            i <= n,
            forall|j: int| 0 <= j < i ==> players@[j].stable_id@ != persisted_id@,
        decreases n - i,
    {
        if str_eq(players[i].stable_id.as_str(), persisted_id) {
            return i;
        }
        i = i + 1;
    }
    0
}

} // verus!
