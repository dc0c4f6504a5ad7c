//! Identifier uniqueness over whole runs of the registry.
//!
//! The operations' contracts say what one call does; the lemmas here say
//! what any sequence of calls does to the identifiers that creations issue.

use vstd::prelude::*;

use crate::registry::RegistryView;
use crate::KittyIndex;

verus! {

/// How any single registry operation relates the state before the call to
/// the state after it, as the operations' contracts state it: a successful
/// create or breed issues the counter value as the new identifier and
/// advances the counter past it; a transfer or any refused operation leaves
/// the counter alone. `issued` carries the identifier of a successful
/// creation and is `None` for every other step.
pub open spec fn registry_step(
    pre: RegistryView,
    post: RegistryView,
    issued: Option<KittyIndex>,
) -> bool {
    match issued {
        Some(id) => id == pre.count && post.count == id + 1,
        None => post.count == pre.count,
    }
}

/// What `create` and `breed` promise of a success — the new identifier is
/// the old counter value and the counter moves past it — is a
/// `registry_step` that issues that identifier.
pub proof fn lemma_creation_takes_step(pre: RegistryView, post: RegistryView, id: KittyIndex)
    requires
        id == pre.count,
        post.count == id + 1,
    ensures
        registry_step(pre, post, Some(id)),
{
}

/// What a transfer or any refused operation promises — the counter stands
/// still — is a `registry_step` that issues nothing.
pub proof fn lemma_stutter_takes_step(pre: RegistryView, post: RegistryView)
    requires
        post.count == pre.count,
    ensures
        registry_step(pre, post, None::<KittyIndex>),
{
}

/// A run of the registry: `views[0]` is the starting state, and step `i`
/// takes `views[i]` to `views[i + 1]`, issuing `issued[i]`.
pub open spec fn registry_run(views: Seq<RegistryView>, issued: Seq<Option<KittyIndex>>) -> bool {
    &&& views.len() == issued.len() + 1
    &&& forall|i: int|
        0 <= i < issued.len() ==> #[trigger] registry_step(views[i], views[i + 1], issued[i])
}

/// How many of the first steps of a run are successful creations.
pub open spec fn creations_among(issued: Seq<Option<KittyIndex>>) -> nat
    decreases issued.len(),
{
    if issued.len() == 0 {
        0
    } else {
        creations_among(issued.drop_last()) + if issued.last() is Some {
            1nat
        } else {
            0nat
        }
    }
}

/// In any run, the counter ahead of step `i` stands exactly as many above
/// its starting value as there were successful creations before step `i`.
pub proof fn lemma_run_count(views: Seq<RegistryView>, issued: Seq<Option<KittyIndex>>, i: int)
    requires
        registry_run(views, issued),
        0 <= i < views.len(),
    ensures
        views[i].count == views[0].count + creations_among(issued.take(i)),
    decreases i,
{
    if i == 0 {
        assert(issued.take(0) =~= Seq::<Option<KittyIndex>>::empty());
    } else {
        lemma_run_count(views, issued, i - 1);
        assert(registry_step(views[i - 1], views[(i - 1) + 1], issued[i - 1]));
        assert(issued.take(i).drop_last() =~= issued.take(i - 1));
        assert(issued.take(i).last() == issued[i - 1]);
    }
}

/// Successful creations only accumulate as a run goes on.
proof fn lemma_creations_among_monotonic(issued: Seq<Option<KittyIndex>>, i: int, j: int)
    requires
        0 <= i <= j <= issued.len(),
    ensures
        creations_among(issued.take(i)) <= creations_among(issued.take(j)),
    decreases j - i,
{
    if i < j {
        lemma_creations_among_monotonic(issued, i, j - 1);
        assert(issued.take(j).drop_last() =~= issued.take(j - 1));
    }
}

/// Ordinals: in a run that starts with the counter at zero, the identifier
/// each successful creation issues equals that call's 0-based ordinal among
/// the successful creations so far.
pub proof fn lemma_run_ids_ordinal(
    views: Seq<RegistryView>,
    issued: Seq<Option<KittyIndex>>,
    i: int,
)
    requires
        registry_run(views, issued),
        views[0].count == 0,
        0 <= i < issued.len(),
        issued[i] is Some,
    ensures
        issued[i]->Some_0 == creations_among(issued.take(i)),
{
    lemma_run_count(views, issued, i);
    assert(registry_step(views[i], views[i + 1], issued[i]));
}

/// Uniqueness: in a run that starts with the counter at zero, no two
/// successful creations issue the same identifier.
pub proof fn lemma_run_ids_distinct(
    views: Seq<RegistryView>,
    issued: Seq<Option<KittyIndex>>,
    i: int,
    j: int,
)
    requires
        registry_run(views, issued),
        views[0].count == 0,
        0 <= i < j < issued.len(),
        issued[i] is Some,
        issued[j] is Some,
    ensures
        issued[i]->Some_0 != issued[j]->Some_0,
{
    lemma_run_ids_ordinal(views, issued, i);
    lemma_run_ids_ordinal(views, issued, j);
    assert(issued.take(i + 1).drop_last() =~= issued.take(i));
    assert(issued.take(i + 1).last() == issued[i]);
    lemma_creations_among_monotonic(issued, i + 1, j);
}

} // verus!
