//! The trusted base of the crate.
//!
//! Everything verified elsewhere rests on the declarations in this file and on
//! nothing else: the foreign types that are carried through, the inline
//! `SmallVec` lists and the `HashMap`s whose contents are named here, and one
//! small function per foreign operation with the contract that is assumed of
//! it. The bodies below are not verified.

use bevy::ecs::entity::Entity;
use bevy::platform::collections::HashMap;
use bevy::platform::hash::FixedHasher;
use bevy_behave::ego_tree::Tree;
use bevy_behave::Behave;
use smallvec::SmallVec;
use vstd::prelude::*;

use crate::ability_definition::AbilityDefinition;
use crate::costs::{ItemCost, StatCost};

verus! {

/// `bevy::ecs::entity::Entity`: the handle of an entity. Carried through as an
/// opaque value.
#[verifier::external_type_specification]
#[verifier::external_body]
pub struct ExEntity(Entity);

/// `bevy_behave::Behave`: one node of a behaviour tree. Carried through as an
/// opaque value.
#[verifier::external_type_specification]
#[verifier::external_body]
pub struct ExBehave(Behave);

/// `ego_tree::Tree`, as re-exported by `bevy_behave`. Carried through as an
/// opaque value.
#[verifier::external_type_specification]
#[verifier::external_body]
#[verifier::reject_recursive_types(T)]
pub struct ExTree<T>(Tree<T>);

/// `bevy::platform::hash::FixedHasher`: the default hasher of bevy's maps.
#[verifier::external_type_specification]
#[verifier::external_body]
pub struct ExFixedHasher(FixedHasher);

/// `bevy::platform::collections::HashMap`. What a map holds is named by
/// [`inventory_entries`] and [`registry_entries`].
#[verifier::external_type_specification]
#[verifier::external_body]
#[verifier::reject_recursive_types(K)]
#[verifier::reject_recursive_types(V)]
#[verifier::reject_recursive_types(S)]
pub struct ExHashMap<K, V, S>(HashMap<K, V, S>);

/// `Tree::clone` (derived): the copy is the same tree, node for node.
#[verifier::external_body]
pub(crate) fn clone_tree(tree: &Tree<Behave>) -> (copy: Tree<Behave>)
    ensures
        copy == *tree,
{
    tree.clone()
}

/// The stat costs of one ability, in a `SmallVec` with room for one entry
/// inline. [`stat_cost_entries`] names what it holds.
#[verifier::external_body]
pub struct StatCostList {
    list: SmallVec<[StatCost; 1]>,
}

/// The entries of a stat cost list, in the order they were pushed.
pub uninterp spec fn stat_cost_entries(list: StatCostList) -> Seq<StatCost>;

/// `SmallVec::new`: a list without entries.
#[verifier::external_body]
pub(crate) fn stat_costs_new() -> (list: StatCostList)
    ensures
        stat_cost_entries(list) == Seq::<StatCost>::empty(),
{
    StatCostList { list: SmallVec::new() }
}

/// `SmallVec::push`: appends `cost` behind the entries already there. The
/// call grows the allocation when the list is full and panics when the new
/// capacity cannot be represented; a list shorter than `u16::MAX` is far below
/// that.
#[verifier::external_body]
pub(crate) fn stat_costs_push(list: &mut StatCostList, cost: StatCost)
    requires
        stat_cost_entries(*old(list)).len() < u16::MAX,
    ensures
        stat_cost_entries(*final(list)) == stat_cost_entries(*old(list)).push(cost),
{
    list.list.push(cost)
}

/// `SmallVec::as_slice`: all entries, in order.
#[verifier::external_body]
pub(crate) fn stat_costs_as_slice(list: &StatCostList) -> (entries: &[StatCost])
    ensures
        entries@ == stat_cost_entries(*list),
{
    list.list.as_slice()
}

/// `SmallVec::clone`: a list with the same entries in the same order. The
/// entries are `Copy`, so each is duplicated as it stands.
#[verifier::external_body]
pub(crate) fn stat_costs_clone(list: &StatCostList) -> (copy: StatCostList)
    ensures
        stat_cost_entries(copy) == stat_cost_entries(*list),
{
    StatCostList { list: list.list.clone() }
}

/// The item costs of one ability, in a `SmallVec` with room for one entry
/// inline. [`item_cost_entries`] names what it holds.
#[verifier::external_body]
pub struct ItemCostList {
    list: SmallVec<[ItemCost; 1]>,
}

/// The entries of an item cost list, in the order they were pushed.
pub uninterp spec fn item_cost_entries(list: ItemCostList) -> Seq<ItemCost>;

/// `SmallVec::new`: a list without entries.
#[verifier::external_body]
pub(crate) fn item_costs_new() -> (list: ItemCostList)
    ensures
        item_cost_entries(list) == Seq::<ItemCost>::empty(),
{
    ItemCostList { list: SmallVec::new() }
}

/// `SmallVec::push`: appends `cost` behind the entries already there. The
/// call grows the allocation when the list is full and panics when the new
/// capacity cannot be represented; a list shorter than `u16::MAX` is far below
/// that.
#[verifier::external_body]
pub(crate) fn item_costs_push(list: &mut ItemCostList, cost: ItemCost)
    requires
        item_cost_entries(*old(list)).len() < u16::MAX,
    ensures
        item_cost_entries(*final(list)) == item_cost_entries(*old(list)).push(cost),
{
    list.list.push(cost)
}

/// `SmallVec::as_slice`: all entries, in order.
#[verifier::external_body]
pub(crate) fn item_costs_as_slice(list: &ItemCostList) -> (entries: &[ItemCost])
    ensures
        entries@ == item_cost_entries(*list),
{
    list.list.as_slice()
}

/// `SmallVec::clone`: a list with the same entries in the same order. The
/// entries are `Copy`, so each is duplicated as it stands.
#[verifier::external_body]
pub(crate) fn item_costs_clone(list: &ItemCostList) -> (copy: ItemCostList)
    ensures
        item_cost_entries(copy) == item_cost_entries(*list),
{
    ItemCostList { list: list.list.clone() }
}

/// The ability definitions granted to one entity, in a `SmallVec` with room
/// for sixteen inline. [`definition_entries`] names what it holds.
#[verifier::external_body]
pub struct DefinitionList {
    list: SmallVec<[AbilityDefinition; 16]>,
}

/// The definitions of a list, in the order they were pushed.
pub uninterp spec fn definition_entries(list: DefinitionList) -> Seq<AbilityDefinition>;

/// `SmallVec::new`: a list without entries.
#[verifier::external_body]
pub(crate) fn definitions_new() -> (list: DefinitionList)
    ensures
        definition_entries(list) == Seq::<AbilityDefinition>::empty(),
{
    DefinitionList { list: SmallVec::new() }
}

/// `SmallVec::push`: appends `definition` behind the entries already there.
/// The call grows the allocation when the list is full and panics when the
/// new capacity cannot be represented; a list shorter than `u16::MAX` is far
/// below that.
#[verifier::external_body]
pub(crate) fn definitions_push(list: &mut DefinitionList, definition: AbilityDefinition)
    requires
        definition_entries(*old(list)).len() < u16::MAX,
    ensures
        definition_entries(*final(list)) == definition_entries(*old(list)).push(definition),
{
    list.list.push(definition)
}

/// `SmallVec::as_slice`: all entries, in order.
#[verifier::external_body]
pub(crate) fn definitions_as_slice(list: &DefinitionList) -> (entries: &[AbilityDefinition])
    ensures
        entries@ == definition_entries(*list),
{
    list.list.as_slice()
}

/// The item counts that an inventory map holds, by item identifier.
pub uninterp spec fn inventory_entries(map: HashMap<u16, u16>) -> Map<u16, u16>;

/// `HashMap::new`: a map without entries.
#[verifier::external_body]
pub(crate) fn inventory_new() -> (inventory: HashMap<u16, u16>)
    ensures
        inventory_entries(inventory) == (Map::<u16, u16>::empty()),
{
    HashMap::new()
}

/// `HashMap::insert`: afterwards `item_id` maps to `count` and every other key
/// is as before; the value that `item_id` had, if any, is returned.
#[verifier::external_body]
pub(crate) fn inventory_insert(map: &mut HashMap<u16, u16>, item_id: u16, count: u16) -> (previous:
    Option<u16>)
    ensures
        inventory_entries(*final(map)) == inventory_entries(*old(map)).insert(item_id, count),
        previous == if inventory_entries(*old(map)).contains_key(item_id) {
            Some(inventory_entries(*old(map))[item_id])
        } else {
            None
        },
{
    map.insert(item_id, count)
}

/// `HashMap::get`: the count stored under `item_id`, if there is one.
#[verifier::external_body]
pub(crate) fn inventory_get(map: &HashMap<u16, u16>, item_id: u16) -> (count: Option<u16>)
    ensures
        count == if inventory_entries(*map).contains_key(item_id) {
            Some(inventory_entries(*map)[item_id])
        } else {
            None
        },
{
    map.get(&item_id).copied()
}

/// The definitions that a registry map holds, by the number of the tag that
/// identifies the ability.
pub uninterp spec fn registry_entries(map: HashMap<u16, AbilityDefinition>) -> Map<
    u16,
    AbilityDefinition,
>;

/// `HashMap::new`: a map without entries.
#[verifier::external_body]
pub(crate) fn registry_new() -> (registry: HashMap<u16, AbilityDefinition>)
    ensures
        registry_entries(registry) == (Map::<u16, AbilityDefinition>::empty()),
{
    HashMap::new()
}

/// `HashMap::insert`: afterwards `key` maps to `definition` and every other
/// key is as before; the definition that `key` had, if any, is returned.
#[verifier::external_body]
pub(crate) fn registry_insert(
    map: &mut HashMap<u16, AbilityDefinition>,
    key: u16,
    definition: AbilityDefinition,
) -> (previous: Option<AbilityDefinition>)
    ensures
        registry_entries(*final(map)) == registry_entries(*old(map)).insert(key, definition),
        previous == if registry_entries(*old(map)).contains_key(key) {
            Some(registry_entries(*old(map))[key])
        } else {
            None
        },
{
    map.insert(key, definition)
}

/// `HashMap::get`: the definition stored under `key`, if there is one.
#[verifier::external_body]
pub(crate) fn registry_get(map: &HashMap<u16, AbilityDefinition>, key: u16) -> (found: Option<
    &AbilityDefinition,
>)
    ensures
        found matches Some(definition) ==> registry_entries(*map).contains_key(key)
            && *definition == registry_entries(*map)[key],
        found is None ==> !registry_entries(*map).contains_key(key),
{
    map.get(&key)
}

} // verus!
