//! What holds of the lifecycle as a whole, stated over the same functions
//! that the contracts of [`crate::ability`] use.

use vstd::prelude::*;

use crate::ability::{
    cancel_due, costs_covered, end_applies, granted_contains, item_cost_met, may_activate,
    released_by_end, slot_after_end, stat_cost_met, tags_after_end, tags_after_start, tags_permit,
    AbilityView,
};
use crate::ability_definition::AbilityDefinitionView;
use crate::tag_set::{all_present, TagId};

verus! {

/// Once an ability has started, every tag that it adds is active on its
/// entity, and every tag that was active before still is.
pub proof fn start_adds_tags(active: Set<TagId>, ability: AbilityView)
    ensures
        all_present(ability.tags.add, tags_after_start(active, ability)),
        active.subset_of(tags_after_start(active, ability)),
{
    assert forall|i: int| 0 <= i < ability.tags.add.len() implies tags_after_start(
        active,
        ability,
    ).contains(#[trigger] ability.tags.add[i]) by {
        assert(ability.tags.add.contains(ability.tags.add[i]));
    }
}

/// An ability that has not been granted to an entity does not activate.
pub proof fn ungranted_ability_refuses(
    ability: AbilityView,
    active: Set<TagId>,
    granted: Seq<AbilityDefinitionView>,
    stats: Option<Seq<u32>>,
    items: Option<Map<u16, u16>>,
)
    requires
        !granted_contains(granted, ability.tags.ability),
    ensures
        !may_activate(ability, active, granted, stats, items),
{
}

/// An ability does not activate while one of its required tags is inactive.
pub proof fn missing_required_tag_refuses(
    ability: AbilityView,
    active: Set<TagId>,
    granted: Seq<AbilityDefinitionView>,
    stats: Option<Seq<u32>>,
    items: Option<Map<u16, u16>>,
    tag: TagId,
)
    requires
        ability.tags.required.contains(tag),
        !active.contains(tag),
    ensures
        !tags_permit(ability.tags, active),
        !may_activate(ability, active, granted, stats, items),
{
    let i = choose|i: int| 0 <= i < ability.tags.required.len() && ability.tags.required[i] == tag;
    assert(!active.contains(ability.tags.required[i]));
}

/// An ability does not activate while one of its blocking or canceling tags
/// is active.
pub proof fn forbidden_tag_refuses(
    ability: AbilityView,
    active: Set<TagId>,
    granted: Seq<AbilityDefinitionView>,
    stats: Option<Seq<u32>>,
    items: Option<Map<u16, u16>>,
    tag: TagId,
)
    requires
        ability.tags.blocked_by.contains(tag) || ability.tags.canceled_by.contains(tag),
        active.contains(tag),
    ensures
        !tags_permit(ability.tags, active),
        !may_activate(ability, active, granted, stats, items),
{
    if ability.tags.blocked_by.contains(tag) {
        let i = choose|i: int|
            0 <= i < ability.tags.blocked_by.len() && ability.tags.blocked_by[i] == tag;
        assert(active.contains(ability.tags.blocked_by[i]));
    } else {
        let i = choose|i: int|
            0 <= i < ability.tags.canceled_by.len() && ability.tags.canceled_by[i] == tag;
        assert(active.contains(ability.tags.canceled_by[i]));
    }
}

/// An ability does not activate while one of its stat costs is more than the
/// entity has of that stat, or the entity has no stats at all.
pub proof fn short_stat_refuses(
    ability: AbilityView,
    active: Set<TagId>,
    granted: Seq<AbilityDefinitionView>,
    stats: Option<Seq<u32>>,
    items: Option<Map<u16, u16>>,
    i: int,
)
    requires
        0 <= i < ability.costs.stat_costs.len(),
        stats is None || !stat_cost_met(ability.costs.stat_costs[i], stats->0),
    ensures
        !costs_covered(ability.costs, stats, items),
        !may_activate(ability, active, granted, stats, items),
{
}

/// An ability does not activate while one of its item costs is more than the
/// entity has in stock of that item, or the entity has no inventory at all.
pub proof fn short_item_refuses(
    ability: AbilityView,
    active: Set<TagId>,
    granted: Seq<AbilityDefinitionView>,
    stats: Option<Seq<u32>>,
    items: Option<Map<u16, u16>>,
    i: int,
)
    requires
        0 <= i < ability.costs.item_costs.len(),
        items is None || !item_cost_met(ability.costs.item_costs[i], items->0),
    ensures
        !costs_covered(ability.costs, stats, items),
        !may_activate(ability, active, granted, stats, items),
{
}

/// Ending an ability twice leaves an entity as ending it once does: the
/// second request finds the slot empty, changes no tag and gives up no tree
/// instance.
pub proof fn end_is_idempotent(active: Set<TagId>, slot: Option<AbilityView>, ability: AbilityView)
    ensures
        slot_after_end(slot_after_end(slot, ability), ability) == slot_after_end(slot, ability),
        tags_after_end(
            tags_after_end(active, slot, ability),
            slot_after_end(slot, ability),
            ability,
        ) == tags_after_end(active, slot, ability),
        released_by_end(slot_after_end(slot, ability), ability) is None,
{
}

/// Starting an ability and then ending it empties the slot and leaves
/// active exactly the tags that were active before and are not among those
/// the ability adds. No other tag changes.
pub proof fn start_then_end_restores_tags(active: Set<TagId>, ability: AbilityView)
    ensures
        slot_after_end(Some(ability), ability) is None,
        tags_after_end(tags_after_start(active, ability), Some(ability), ability)
            == active.difference(ability.tags.add.to_set()),
        forall|tag: TagId|
            !ability.tags.add.contains(tag) ==> (#[trigger] tags_after_end(
                tags_after_start(active, ability),
                Some(ability),
                ability,
            ).contains(tag) <==> active.contains(tag)),
        released_by_end(Some(ability), ability) == ability.tree_entity,
{
    assert(end_applies(Some(ability), ability));
    assert(tags_after_end(tags_after_start(active, ability), Some(ability), ability)
        =~= active.difference(ability.tags.add.to_set()));
}

/// When a canceling tag of the running ability is active, the watcher asks
/// for the end of that ability, and handling that request empties the slot,
/// whether or not the behaviour tree has finished.
pub proof fn canceling_tag_ends_ability(active: Set<TagId>, running: AbilityView, tag: TagId)
    requires
        running.tags.canceled_by.contains(tag),
        active.contains(tag),
    ensures
        cancel_due(Some(running), active),
        slot_after_end(Some(running), running) is None,
        released_by_end(Some(running), running) == running.tree_entity,
{
    let i = choose|i: int|
        0 <= i < running.tags.canceled_by.len() && running.tags.canceled_by[i] == tag;
    assert(active.contains(running.tags.canceled_by[i]));
}

} // verus!
