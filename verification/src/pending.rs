//! Facts about the lists of windows that a pass has yet to come to.

use bevy_ecs::entity::Entity;
use vstd::prelude::*;

verus! {

/// A list that holds exactly the known windows holds no other.
pub proof fn lemma_listed_windows_are_known(pending: Seq<Entity>, known: Set<Entity>)
    requires
        pending.to_set() == known,
    ensures
        forall|i: int| 0 <= i < pending.len() ==> known.contains(#[trigger] pending[i]),
        forall|e: Entity| #[trigger] known.contains(e) <==> pending.contains(e),
{
    assert forall|i: int| 0 <= i < pending.len() implies known.contains(#[trigger] pending[i]) by {
        assert(pending.to_set().contains(pending[i]));
    }
    assert forall|e: Entity| #[trigger] known.contains(e) <==> pending.contains(e) by {
        assert(pending.to_set().contains(e) <==> pending.contains(e));
    }
}

/// A list that holds no window twice falls into its last window and a rest that holds all others.
pub proof fn lemma_rest_holds_the_others(pending: Seq<Entity>)
    requires
        pending.len() > 0,
        pending.no_duplicates(),
    ensures
        pending.drop_last().no_duplicates(),
        pending.contains(pending.last()),
        !pending.drop_last().contains(pending.last()),
        forall|e: Entity| #[trigger]
            pending.contains(e) <==> e == pending.last() || pending.drop_last().contains(e),
        forall|e: Entity| #[trigger]
            pending.drop_last().contains(e) ==> pending.contains(e) && e != pending.last(),
{
    let rest = pending.drop_last();
    let last = pending.last();
    assert(pending[pending.len() - 1] == last);
    assert forall|e: Entity| #[trigger] rest.contains(e) implies pending.contains(e) && e
        != last by {
        let i = choose|i: int| 0 <= i < rest.len() && rest[i] == e;
        assert(pending[i] == e);
        assert(pending[i] != pending[pending.len() - 1]);
    }
    assert forall|e: Entity| #[trigger] pending.contains(e) <==> e == last || rest.contains(
        e,
    ) by {
        if pending.contains(e) {
            let i = choose|i: int| 0 <= i < pending.len() && pending[i] == e;
            if i < rest.len() {
                assert(rest[i] == e);
            }
        }
    }
}

} // verus!
